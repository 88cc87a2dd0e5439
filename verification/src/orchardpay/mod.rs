//! The protocol: contact anchors, messages, payments and the scan for signals.

pub mod anchor_recovery;
pub mod anchor_signal;
pub mod contact_anchor;
pub mod contact_search;
pub mod direct_send;
pub mod encryption;
pub mod errors;
pub mod keys;
pub mod memo;
pub mod memo_scan;
pub mod messages;
pub mod outgoing;
pub mod recent_activity;
pub mod shielded_address;
pub mod silent_payment;
pub mod tasks;
