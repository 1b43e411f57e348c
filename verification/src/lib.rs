//! Verified core of a pair of Secret Network contracts: a market that sells
//! food tokens and pets, and a pet registry whose pets must be fed on time.
pub mod common;
pub mod market;
pub mod pet;
pub mod snip20;
