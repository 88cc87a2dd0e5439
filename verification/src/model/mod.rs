//! Plain data of the protocol and the rules that need nothing but that data.

pub mod identifier;
pub mod orchardpay;
pub mod text;
pub mod validation;
