//! Terminal feed reader core: keymaps, command registry, configuration
//! resolution and the small decision functions around them.
use vstd::prelude::*;

pub mod cli;
pub mod client;
pub mod command;
pub mod config;
pub mod interact;
pub mod job;
pub mod keymap;
pub mod local_api;
pub mod matcher;
pub mod operation;
pub mod strings;
pub mod types;

verus! {

broadcast use vstd::string::group_string_axioms;

} // verus!
