//! The pet contract: it keeps the pets bought at the market and lets their
//! owners feed them with food tokens.
pub mod contract;
pub mod msg;
pub mod pet;
pub mod state;
