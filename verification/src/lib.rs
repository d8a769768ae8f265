//! A personal automation client for a chat platform, reduced to its decisions.
//!
//! The crate holds the module dispatch core: what a module does with a message,
//! how an update is fanned out to the registered modules, and how the shared
//! connection is asked for work. Everything that touches the network is left to
//! the host program, which performs the commands that the functions here hand
//! out and reports back what came of them.

use vstd::prelude::*;

pub mod modules;
pub mod telegram;
pub mod utils;

verus! {

/// The path to store the session.
pub const SESSION_PATH: &'static str = "./.telegram.session.dat";

} // verus!
