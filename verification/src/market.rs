//! The market contract: it sells food tokens and pets for native tokens.
pub mod contract;
pub mod msg;
pub mod state;
