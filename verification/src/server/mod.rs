//! The web service that indexes bounties, submissions and users: the rules
//! of its handlers, apart from the database and the HTTP plumbing.

pub mod ext;
pub mod dto;
pub mod models;
pub mod handlers;
pub mod laws;
