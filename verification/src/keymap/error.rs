use vstd::prelude::*;

use crate::keymap::command::CommandId;
use crate::keymap::key::KeySequence;
use crate::keymap::layer::Layer;

verus! {

/// Reasons a keymap configuration or key notation is refused.
#[derive(Debug, PartialEq, Eq)]
pub enum KeymapError {
    UnknownLayer(String),
    UnknownCommand(String),
    CommandNotAllowed { layer: Layer, command: CommandId },
    InvalidKeyNotation(String, String),
    EmptyKeySequence,
    DuplicateBinding { layer: Layer, keys: KeySequence },
    AmbiguousBinding { keys: KeySequence },
}

} // verus!
