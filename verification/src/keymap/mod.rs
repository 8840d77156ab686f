//! Keymaps: layers, commands, key notation, configuration, compiled tables
//! and the resolver that turns key strokes into actions.
pub mod layer;
pub mod error;
pub mod command;
pub mod key;
pub mod action;
pub mod config;
pub mod trie;
pub mod compiled;
pub mod runtime;
pub mod resolver;
pub mod defaults;
pub mod registry;
pub mod meaning;
