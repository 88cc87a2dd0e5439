//! Private contacts, messages and payments for the OrchardPay protocol.

pub mod codec;
pub mod context;
pub mod model;
pub mod orchardpay;
pub mod ordering;
pub mod primitives;
pub mod sizes;
pub mod ui;
