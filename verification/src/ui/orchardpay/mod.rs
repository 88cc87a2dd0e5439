//! The screens of the protocol.

pub mod balance_label;
pub mod contact_list;
pub mod message_thread_screen;
pub mod orchardpay_screen;
pub mod shielded_address_screen;
pub mod thread_view;
