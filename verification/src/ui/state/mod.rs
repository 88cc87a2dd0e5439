//! State that several screens share.

pub mod in_flight_actions;
