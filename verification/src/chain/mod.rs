//! The on-chain bounty program: its account data, its accounts table and its
//! instructions.

pub mod accounts;
pub mod address;
pub mod board;
pub mod error;
pub mod laws;
pub mod program;
pub mod state;
pub mod table;
