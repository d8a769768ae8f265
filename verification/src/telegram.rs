//! The platform side: the data that arrives, the connection and its commands,
//! the login flow and the dispatcher.

pub mod chat;
pub mod client;
pub mod types;
pub mod update;
pub mod user;
