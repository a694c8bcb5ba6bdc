//! Bounty board: the rules of an on-chain escrow of bounties and of the
//! web service that indexes them.

pub mod chain;
pub mod pubkey;
pub mod server;
