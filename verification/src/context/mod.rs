//! What happens around the wallets as a whole.

pub mod bootstrap;
