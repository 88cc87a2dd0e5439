//! The screens: what they hold, what they show and what a click sets going.

pub mod actions;
pub mod components;
pub mod orchardparty_screen;
pub mod orchardpay;
pub mod state;
