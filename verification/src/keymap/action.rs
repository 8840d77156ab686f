use vstd::prelude::*;

use crate::command::{Command, FilterCommand, FilterLane};
use crate::keymap::command::{command_of, CommandId};
use crate::types::Category;

verus! {

/// Text-editing action for prompt-style keymap layers.
#[derive(Clone, Copy, Debug, PartialEq, Eq, Structural)]
pub enum PromptAction {
    InsertChar(char),
    DeleteBackward,
}

/// Filter action whose target data is only known at runtime.
#[derive(Debug, PartialEq, Eq)]
pub enum FilterAction {
    ToggleCategory { lane: FilterLane, category: Category },
    ActivateAllCategories { lane: FilterLane },
    DeactivateAllCategories { lane: FilterLane },
}

impl Clone for FilterAction {
    fn clone(&self) -> (r: Self)
        ensures
            r == *self,
    {
        match self {
            FilterAction::ToggleCategory { lane, category } => FilterAction::ToggleCategory {
                lane: *lane,
                category: category.clone(),
            },
            FilterAction::ActivateAllCategories { lane } => FilterAction::ActivateAllCategories {
                lane: *lane,
            },
            FilterAction::DeactivateAllCategories { lane } => FilterAction::DeactivateAllCategories {
                lane: *lane,
            },
        }
    }
}

/// Action produced after a key binding is resolved.
#[derive(Debug, PartialEq, Eq)]
pub enum KeymapAction {
    Command(CommandId),
    Prompt(PromptAction),
    Filter(FilterAction),
    NoOp,
}

impl Clone for KeymapAction {
    fn clone(&self) -> (r: Self)
        ensures
            r == *self,
    {
        match self {
            KeymapAction::Command(c) => KeymapAction::Command(*c),
            KeymapAction::Prompt(p) => KeymapAction::Prompt(*p),
            KeymapAction::Filter(f) => KeymapAction::Filter(f.clone()),
            KeymapAction::NoOp => KeymapAction::NoOp,
        }
    }
}

/// The action a command id is bound to: the no-op command becomes the no-op action.
pub open spec fn command_action(id: CommandId) -> KeymapAction {
    if id == CommandId::NoOp {
        KeymapAction::NoOp
    } else {
        KeymapAction::Command(id)
    }
}

/// The filter command a filter action requests.
pub open spec fn filter_command(action: FilterAction) -> FilterCommand {
    match action {
        FilterAction::ToggleCategory { lane, category } => FilterCommand::ToggleFilterCategory {
            lane,
            category,
        },
        FilterAction::ActivateAllCategories { lane } => FilterCommand::ActivateAllFilterCategories {
            lane,
        },
        FilterAction::DeactivateAllCategories { lane } => FilterCommand::DeactivateAllFilterCategories {
            lane,
        },
    }
}

/// The filter command a prompt action requests.
pub open spec fn prompt_command(action: PromptAction) -> FilterCommand {
    match action {
        PromptAction::InsertChar(ch) => FilterCommand::PromptInsertChar(ch),
        PromptAction::DeleteBackward => FilterCommand::PromptDeleteBackward,
    }
}

/// The application command an action requests; the no-op action requests none.
pub open spec fn action_command(action: KeymapAction) -> Option<Command> {
    match action {
        KeymapAction::Command(id) => command_of(id),
        KeymapAction::Prompt(p) => Some(Command::Filter(prompt_command(p))),
        KeymapAction::Filter(f) => Some(Command::Filter(filter_command(f))),
        KeymapAction::NoOp => None,
    }
}

impl KeymapAction {
    /// The action a command id is bound to.
    pub fn from_command(command: CommandId) -> (a: KeymapAction)
        ensures
            a == command_action(command),
    {
        if command == CommandId::NoOp {
            KeymapAction::NoOp
        } else {
            KeymapAction::Command(command)
        }
    }

    /// The application command this action requests, `Command::Nop` where it requests
    /// none.
    pub fn command(&self) -> (c: Command)
        ensures
            c == match action_command(*self) {
                Some(c) => c,
                None => Command::Nop,
            },
    {
        match self.build_command() {
            Some(c) => c,
            None => Command::Nop,
        }
    }

    /// The application command this action requests; the no-op action requests none.
    pub fn build_command(&self) -> (c: Option<Command>)
        ensures
            c == action_command(*self),
    {
        match self {
            KeymapAction::Command(command) => command.build(),
            KeymapAction::Prompt(action) => Some(Command::Filter(match action {
                PromptAction::InsertChar(ch) => FilterCommand::PromptInsertChar(*ch),
                PromptAction::DeleteBackward => FilterCommand::PromptDeleteBackward,
            })),
            KeymapAction::Filter(action) => Some(Command::Filter(match action {
                FilterAction::ToggleCategory { lane, category } => FilterCommand::ToggleFilterCategory {
                    lane: *lane,
                    category: category.clone(),
                },
                FilterAction::ActivateAllCategories { lane } => FilterCommand::ActivateAllFilterCategories {
                    lane: *lane,
                },
                FilterAction::DeactivateAllCategories { lane } => FilterCommand::DeactivateAllFilterCategories {
                    lane: *lane,
                },
            })),
            KeymapAction::NoOp => None,
        }
    }
}

} // verus!
