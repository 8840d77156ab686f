//! What notation words, layer names and command names stand for: each is tied to the
//! key, layer or movement it denotes, apart from the tables that the parser, the
//! printer and the registry read.
use vstd::prelude::*;

use crate::keymap::key::{
    decimal, key_notation, lemma_notation_roundtrip, notation_key, KeyCode, KeyModifiers, KeyStroke, MediaKey,
    ModifierKey,
};
use crate::command::{Command, Direction, FeedsCommand, FilterCommand, GhCommand, ShellCommand};
use crate::keymap::command::{command_from_id, command_name, CommandId};
use crate::keymap::defaults::default_bindings;
use crate::keymap::layer::{lemma_layer_name_roundtrip, layer_name, layer_named, Layer};

verus! {

/// A key stroke of `code` with no modifier held.
pub open spec fn bare(code: KeyCode) -> KeyStroke {
    KeyStroke {
        code,
        modifiers: KeyModifiers { shift: false, control: false, alt: false, super_key: false, hyper: false, meta: false },
    }
}

/// Whether the bare key `code` is printed as `word`, and `word` is read as that key.
pub open spec fn key_written_as(code: KeyCode, word: Seq<char>) -> bool {
    key_notation(bare(code)) == word && notation_key(word) == Some(bare(code))
}

/// Each named key is written and read as its conventional name: the arrow keys as
/// `up`, `down`, `left`, `right`, the page keys as `pageup` and `pagedown`, and so on.
pub proof fn lemma_named_key_words()
    ensures
        key_written_as(KeyCode::Backspace, "backspace"@),
        key_written_as(KeyCode::Enter, "enter"@),
        key_written_as(KeyCode::Left, "left"@),
        key_written_as(KeyCode::Right, "right"@),
        key_written_as(KeyCode::Up, "up"@),
        key_written_as(KeyCode::Down, "down"@),
        key_written_as(KeyCode::Home, "home"@),
        key_written_as(KeyCode::End, "end"@),
        key_written_as(KeyCode::PageUp, "pageup"@),
        key_written_as(KeyCode::PageDown, "pagedown"@),
        key_written_as(KeyCode::Tab, "tab"@),
        key_written_as(KeyCode::BackTab, "backtab"@),
        key_written_as(KeyCode::Delete, "delete"@),
        key_written_as(KeyCode::Insert, "insert"@),
        key_written_as(KeyCode::Esc, "esc"@),
        key_written_as(KeyCode::Null, "null"@),
        key_written_as(KeyCode::CapsLock, "capslock"@),
        key_written_as(KeyCode::ScrollLock, "scrolllock"@),
        key_written_as(KeyCode::NumLock, "numlock"@),
        key_written_as(KeyCode::PrintScreen, "printscreen"@),
        key_written_as(KeyCode::Pause, "pause"@),
        key_written_as(KeyCode::Menu, "menu"@),
        key_written_as(KeyCode::KeypadBegin, "keypadbegin"@),
        key_written_as(KeyCode::Char(' '), "space"@),
{
    reveal_strlit("backspace");
    assert(key_notation(bare(KeyCode::Backspace)) =~= "backspace"@);
    lemma_notation_roundtrip(bare(KeyCode::Backspace));
    reveal_strlit("enter");
    assert(key_notation(bare(KeyCode::Enter)) =~= "enter"@);
    lemma_notation_roundtrip(bare(KeyCode::Enter));
    reveal_strlit("left");
    assert(key_notation(bare(KeyCode::Left)) =~= "left"@);
    lemma_notation_roundtrip(bare(KeyCode::Left));
    reveal_strlit("right");
    assert(key_notation(bare(KeyCode::Right)) =~= "right"@);
    lemma_notation_roundtrip(bare(KeyCode::Right));
    reveal_strlit("up");
    assert(key_notation(bare(KeyCode::Up)) =~= "up"@);
    lemma_notation_roundtrip(bare(KeyCode::Up));
    reveal_strlit("down");
    assert(key_notation(bare(KeyCode::Down)) =~= "down"@);
    lemma_notation_roundtrip(bare(KeyCode::Down));
    reveal_strlit("home");
    assert(key_notation(bare(KeyCode::Home)) =~= "home"@);
    lemma_notation_roundtrip(bare(KeyCode::Home));
    reveal_strlit("end");
    assert(key_notation(bare(KeyCode::End)) =~= "end"@);
    lemma_notation_roundtrip(bare(KeyCode::End));
    reveal_strlit("pageup");
    assert(key_notation(bare(KeyCode::PageUp)) =~= "pageup"@);
    lemma_notation_roundtrip(bare(KeyCode::PageUp));
    reveal_strlit("pagedown");
    assert(key_notation(bare(KeyCode::PageDown)) =~= "pagedown"@);
    lemma_notation_roundtrip(bare(KeyCode::PageDown));
    reveal_strlit("tab");
    assert(key_notation(bare(KeyCode::Tab)) =~= "tab"@);
    lemma_notation_roundtrip(bare(KeyCode::Tab));
    reveal_strlit("backtab");
    assert(key_notation(bare(KeyCode::BackTab)) =~= "backtab"@);
    lemma_notation_roundtrip(bare(KeyCode::BackTab));
    reveal_strlit("delete");
    assert(key_notation(bare(KeyCode::Delete)) =~= "delete"@);
    lemma_notation_roundtrip(bare(KeyCode::Delete));
    reveal_strlit("insert");
    assert(key_notation(bare(KeyCode::Insert)) =~= "insert"@);
    lemma_notation_roundtrip(bare(KeyCode::Insert));
    reveal_strlit("esc");
    assert(key_notation(bare(KeyCode::Esc)) =~= "esc"@);
    lemma_notation_roundtrip(bare(KeyCode::Esc));
    reveal_strlit("null");
    assert(key_notation(bare(KeyCode::Null)) =~= "null"@);
    lemma_notation_roundtrip(bare(KeyCode::Null));
    reveal_strlit("capslock");
    assert(key_notation(bare(KeyCode::CapsLock)) =~= "capslock"@);
    lemma_notation_roundtrip(bare(KeyCode::CapsLock));
    reveal_strlit("scrolllock");
    assert(key_notation(bare(KeyCode::ScrollLock)) =~= "scrolllock"@);
    lemma_notation_roundtrip(bare(KeyCode::ScrollLock));
    reveal_strlit("numlock");
    assert(key_notation(bare(KeyCode::NumLock)) =~= "numlock"@);
    lemma_notation_roundtrip(bare(KeyCode::NumLock));
    reveal_strlit("printscreen");
    assert(key_notation(bare(KeyCode::PrintScreen)) =~= "printscreen"@);
    lemma_notation_roundtrip(bare(KeyCode::PrintScreen));
    reveal_strlit("pause");
    assert(key_notation(bare(KeyCode::Pause)) =~= "pause"@);
    lemma_notation_roundtrip(bare(KeyCode::Pause));
    reveal_strlit("menu");
    assert(key_notation(bare(KeyCode::Menu)) =~= "menu"@);
    lemma_notation_roundtrip(bare(KeyCode::Menu));
    reveal_strlit("keypadbegin");
    assert(key_notation(bare(KeyCode::KeypadBegin)) =~= "keypadbegin"@);
    lemma_notation_roundtrip(bare(KeyCode::KeypadBegin));
    reveal_strlit("space");
    assert(key_notation(bare(KeyCode::Char(' '))) =~= "space"@);
    lemma_notation_roundtrip(bare(KeyCode::Char(' ')));
}

/// A character key other than the space bar is written and read as that character.
pub proof fn lemma_char_key_words(c: char)
    requires
        c != ' ',
    ensures
        key_written_as(KeyCode::Char(c), seq![c]),
{
    assert(key_notation(bare(KeyCode::Char(c))) =~= seq![c]);
    lemma_notation_roundtrip(bare(KeyCode::Char(c)));
}

/// The function key `F<n>` is written and read as `f` followed by `n` in decimal.
pub proof fn lemma_function_key_words(n: u8)
    ensures
        key_written_as(KeyCode::F(n), seq!['f'] + decimal(n as nat)),
{
    assert(key_notation(bare(KeyCode::F(n))) =~= seq!['f'] + decimal(n as nat));
    lemma_notation_roundtrip(bare(KeyCode::F(n)));
}

/// Holding control, alt or shift puts `C-`, `A-` or `S-` in front of the key's word,
/// and such a word is read back with that modifier held.
pub proof fn lemma_modifier_prefixes(code: KeyCode)
    requires
        !(code is Media),
        !(code is Modifier),
    ensures
        key_notation(KeyStroke { code, modifiers: KeyModifiers { control: true, ..bare(code).modifiers } }) == "C-"@
            + key_notation(bare(code)),
        key_notation(KeyStroke { code, modifiers: KeyModifiers { alt: true, ..bare(code).modifiers } }) == "A-"@
            + key_notation(bare(code)),
        key_notation(KeyStroke { code, modifiers: KeyModifiers { shift: true, ..bare(code).modifiers } }) == "S-"@
            + key_notation(bare(code)),
        notation_key("C-"@ + key_notation(bare(code))) == Some(
            KeyStroke { code, modifiers: KeyModifiers { control: true, ..bare(code).modifiers } },
        ),
        notation_key("A-"@ + key_notation(bare(code))) == Some(
            KeyStroke { code, modifiers: KeyModifiers { alt: true, ..bare(code).modifiers } },
        ),
        notation_key("S-"@ + key_notation(bare(code))) == Some(
            KeyStroke { code, modifiers: KeyModifiers { shift: true, ..bare(code).modifiers } },
        ),
{
    let c = KeyStroke { code, modifiers: KeyModifiers { control: true, ..bare(code).modifiers } };
    let a = KeyStroke { code, modifiers: KeyModifiers { alt: true, ..bare(code).modifiers } };
    let s = KeyStroke { code, modifiers: KeyModifiers { shift: true, ..bare(code).modifiers } };
    assert(key_notation(c) =~= "C-"@ + key_notation(bare(code)));
    assert(key_notation(a) =~= "A-"@ + key_notation(bare(code)));
    assert(key_notation(s) =~= "S-"@ + key_notation(bare(code)));
    lemma_notation_roundtrip(c);
    lemma_notation_roundtrip(a);
    lemma_notation_roundtrip(s);
}

/// Media keys are printed by their names, as `Media(Play)`.
pub proof fn lemma_media_key_words()
    ensures
        key_notation(bare(KeyCode::Media(MediaKey::Play))) == "Media(Play)"@,
        key_notation(bare(KeyCode::Media(MediaKey::Pause))) == "Media(Pause)"@,
        key_notation(bare(KeyCode::Media(MediaKey::PlayPause))) == "Media(PlayPause)"@,
        key_notation(bare(KeyCode::Media(MediaKey::Reverse))) == "Media(Reverse)"@,
        key_notation(bare(KeyCode::Media(MediaKey::Stop))) == "Media(Stop)"@,
        key_notation(bare(KeyCode::Media(MediaKey::FastForward))) == "Media(FastForward)"@,
        key_notation(bare(KeyCode::Media(MediaKey::Rewind))) == "Media(Rewind)"@,
        key_notation(bare(KeyCode::Media(MediaKey::TrackNext))) == "Media(TrackNext)"@,
        key_notation(bare(KeyCode::Media(MediaKey::TrackPrevious))) == "Media(TrackPrevious)"@,
        key_notation(bare(KeyCode::Media(MediaKey::Record))) == "Media(Record)"@,
        key_notation(bare(KeyCode::Media(MediaKey::LowerVolume))) == "Media(LowerVolume)"@,
        key_notation(bare(KeyCode::Media(MediaKey::RaiseVolume))) == "Media(RaiseVolume)"@,
        key_notation(bare(KeyCode::Media(MediaKey::MuteVolume))) == "Media(MuteVolume)"@,
{
    assert(key_notation(bare(KeyCode::Media(MediaKey::Play))) == "Media(Play)"@) by {
        reveal_strlit("Media(");
        reveal_strlit(")");
        reveal_strlit("Play");
        reveal_strlit("Media(Play)");
        assert(key_notation(bare(KeyCode::Media(MediaKey::Play))) =~= "Media(Play)"@);
    }
    assert(key_notation(bare(KeyCode::Media(MediaKey::Pause))) == "Media(Pause)"@) by {
        reveal_strlit("Media(");
        reveal_strlit(")");
        reveal_strlit("Pause");
        reveal_strlit("Media(Pause)");
        assert(key_notation(bare(KeyCode::Media(MediaKey::Pause))) =~= "Media(Pause)"@);
    }
    assert(key_notation(bare(KeyCode::Media(MediaKey::PlayPause))) == "Media(PlayPause)"@) by {
        reveal_strlit("Media(");
        reveal_strlit(")");
        reveal_strlit("PlayPause");
        reveal_strlit("Media(PlayPause)");
        assert(key_notation(bare(KeyCode::Media(MediaKey::PlayPause))) =~= "Media(PlayPause)"@);
    }
    assert(key_notation(bare(KeyCode::Media(MediaKey::Reverse))) == "Media(Reverse)"@) by {
        reveal_strlit("Media(");
        reveal_strlit(")");
        reveal_strlit("Reverse");
        reveal_strlit("Media(Reverse)");
        assert(key_notation(bare(KeyCode::Media(MediaKey::Reverse))) =~= "Media(Reverse)"@);
    }
    assert(key_notation(bare(KeyCode::Media(MediaKey::Stop))) == "Media(Stop)"@) by {
        reveal_strlit("Media(");
        reveal_strlit(")");
        reveal_strlit("Stop");
        reveal_strlit("Media(Stop)");
        assert(key_notation(bare(KeyCode::Media(MediaKey::Stop))) =~= "Media(Stop)"@);
    }
    assert(key_notation(bare(KeyCode::Media(MediaKey::FastForward))) == "Media(FastForward)"@) by {
        reveal_strlit("Media(");
        reveal_strlit(")");
        reveal_strlit("FastForward");
        reveal_strlit("Media(FastForward)");
        assert(key_notation(bare(KeyCode::Media(MediaKey::FastForward))) =~= "Media(FastForward)"@);
    }
    assert(key_notation(bare(KeyCode::Media(MediaKey::Rewind))) == "Media(Rewind)"@) by {
        reveal_strlit("Media(");
        reveal_strlit(")");
        reveal_strlit("Rewind");
        reveal_strlit("Media(Rewind)");
        assert(key_notation(bare(KeyCode::Media(MediaKey::Rewind))) =~= "Media(Rewind)"@);
    }
    assert(key_notation(bare(KeyCode::Media(MediaKey::TrackNext))) == "Media(TrackNext)"@) by {
        reveal_strlit("Media(");
        reveal_strlit(")");
        reveal_strlit("TrackNext");
        reveal_strlit("Media(TrackNext)");
        assert(key_notation(bare(KeyCode::Media(MediaKey::TrackNext))) =~= "Media(TrackNext)"@);
    }
    assert(key_notation(bare(KeyCode::Media(MediaKey::TrackPrevious))) == "Media(TrackPrevious)"@) by {
        reveal_strlit("Media(");
        reveal_strlit(")");
        reveal_strlit("TrackPrevious");
        reveal_strlit("Media(TrackPrevious)");
        assert(key_notation(bare(KeyCode::Media(MediaKey::TrackPrevious))) =~= "Media(TrackPrevious)"@);
    }
    assert(key_notation(bare(KeyCode::Media(MediaKey::Record))) == "Media(Record)"@) by {
        reveal_strlit("Media(");
        reveal_strlit(")");
        reveal_strlit("Record");
        reveal_strlit("Media(Record)");
        assert(key_notation(bare(KeyCode::Media(MediaKey::Record))) =~= "Media(Record)"@);
    }
    assert(key_notation(bare(KeyCode::Media(MediaKey::LowerVolume))) == "Media(LowerVolume)"@) by {
        reveal_strlit("Media(");
        reveal_strlit(")");
        reveal_strlit("LowerVolume");
        reveal_strlit("Media(LowerVolume)");
        assert(key_notation(bare(KeyCode::Media(MediaKey::LowerVolume))) =~= "Media(LowerVolume)"@);
    }
    assert(key_notation(bare(KeyCode::Media(MediaKey::RaiseVolume))) == "Media(RaiseVolume)"@) by {
        reveal_strlit("Media(");
        reveal_strlit(")");
        reveal_strlit("RaiseVolume");
        reveal_strlit("Media(RaiseVolume)");
        assert(key_notation(bare(KeyCode::Media(MediaKey::RaiseVolume))) =~= "Media(RaiseVolume)"@);
    }
    assert(key_notation(bare(KeyCode::Media(MediaKey::MuteVolume))) == "Media(MuteVolume)"@) by {
        reveal_strlit("Media(");
        reveal_strlit(")");
        reveal_strlit("MuteVolume");
        reveal_strlit("Media(MuteVolume)");
        assert(key_notation(bare(KeyCode::Media(MediaKey::MuteVolume))) =~= "Media(MuteVolume)"@);
    }
}

/// Modifier keys pressed on their own are printed by their names, as
/// `Modifier(LeftShift)`.
pub proof fn lemma_modifier_key_words()
    ensures
        key_notation(bare(KeyCode::Modifier(ModifierKey::LeftShift))) == "Modifier(LeftShift)"@,
        key_notation(bare(KeyCode::Modifier(ModifierKey::LeftControl))) == "Modifier(LeftControl)"@,
        key_notation(bare(KeyCode::Modifier(ModifierKey::LeftAlt))) == "Modifier(LeftAlt)"@,
        key_notation(bare(KeyCode::Modifier(ModifierKey::LeftSuper))) == "Modifier(LeftSuper)"@,
        key_notation(bare(KeyCode::Modifier(ModifierKey::LeftHyper))) == "Modifier(LeftHyper)"@,
        key_notation(bare(KeyCode::Modifier(ModifierKey::LeftMeta))) == "Modifier(LeftMeta)"@,
        key_notation(bare(KeyCode::Modifier(ModifierKey::RightShift))) == "Modifier(RightShift)"@,
        key_notation(bare(KeyCode::Modifier(ModifierKey::RightControl))) == "Modifier(RightControl)"@,
        key_notation(bare(KeyCode::Modifier(ModifierKey::RightAlt))) == "Modifier(RightAlt)"@,
        key_notation(bare(KeyCode::Modifier(ModifierKey::RightSuper))) == "Modifier(RightSuper)"@,
        key_notation(bare(KeyCode::Modifier(ModifierKey::RightHyper))) == "Modifier(RightHyper)"@,
        key_notation(bare(KeyCode::Modifier(ModifierKey::RightMeta))) == "Modifier(RightMeta)"@,
        key_notation(bare(KeyCode::Modifier(ModifierKey::IsoLevel3Shift))) == "Modifier(IsoLevel3Shift)"@,
        key_notation(bare(KeyCode::Modifier(ModifierKey::IsoLevel5Shift))) == "Modifier(IsoLevel5Shift)"@,
{
    assert(key_notation(bare(KeyCode::Modifier(ModifierKey::LeftShift))) == "Modifier(LeftShift)"@) by {
        reveal_strlit("Modifier(");
        reveal_strlit(")");
        reveal_strlit("LeftShift");
        reveal_strlit("Modifier(LeftShift)");
        assert(key_notation(bare(KeyCode::Modifier(ModifierKey::LeftShift))) =~= "Modifier(LeftShift)"@);
    }
    assert(key_notation(bare(KeyCode::Modifier(ModifierKey::LeftControl))) == "Modifier(LeftControl)"@) by {
        reveal_strlit("Modifier(");
        reveal_strlit(")");
        reveal_strlit("LeftControl");
        reveal_strlit("Modifier(LeftControl)");
        assert(key_notation(bare(KeyCode::Modifier(ModifierKey::LeftControl))) =~= "Modifier(LeftControl)"@);
    }
    assert(key_notation(bare(KeyCode::Modifier(ModifierKey::LeftAlt))) == "Modifier(LeftAlt)"@) by {
        reveal_strlit("Modifier(");
        reveal_strlit(")");
        reveal_strlit("LeftAlt");
        reveal_strlit("Modifier(LeftAlt)");
        assert(key_notation(bare(KeyCode::Modifier(ModifierKey::LeftAlt))) =~= "Modifier(LeftAlt)"@);
    }
    assert(key_notation(bare(KeyCode::Modifier(ModifierKey::LeftSuper))) == "Modifier(LeftSuper)"@) by {
        reveal_strlit("Modifier(");
        reveal_strlit(")");
        reveal_strlit("LeftSuper");
        reveal_strlit("Modifier(LeftSuper)");
        assert(key_notation(bare(KeyCode::Modifier(ModifierKey::LeftSuper))) =~= "Modifier(LeftSuper)"@);
    }
    assert(key_notation(bare(KeyCode::Modifier(ModifierKey::LeftHyper))) == "Modifier(LeftHyper)"@) by {
        reveal_strlit("Modifier(");
        reveal_strlit(")");
        reveal_strlit("LeftHyper");
        reveal_strlit("Modifier(LeftHyper)");
        assert(key_notation(bare(KeyCode::Modifier(ModifierKey::LeftHyper))) =~= "Modifier(LeftHyper)"@);
    }
    assert(key_notation(bare(KeyCode::Modifier(ModifierKey::LeftMeta))) == "Modifier(LeftMeta)"@) by {
        reveal_strlit("Modifier(");
        reveal_strlit(")");
        reveal_strlit("LeftMeta");
        reveal_strlit("Modifier(LeftMeta)");
        assert(key_notation(bare(KeyCode::Modifier(ModifierKey::LeftMeta))) =~= "Modifier(LeftMeta)"@);
    }
    assert(key_notation(bare(KeyCode::Modifier(ModifierKey::RightShift))) == "Modifier(RightShift)"@) by {
        reveal_strlit("Modifier(");
        reveal_strlit(")");
        reveal_strlit("RightShift");
        reveal_strlit("Modifier(RightShift)");
        assert(key_notation(bare(KeyCode::Modifier(ModifierKey::RightShift))) =~= "Modifier(RightShift)"@);
    }
    assert(key_notation(bare(KeyCode::Modifier(ModifierKey::RightControl))) == "Modifier(RightControl)"@) by {
        reveal_strlit("Modifier(");
        reveal_strlit(")");
        reveal_strlit("RightControl");
        reveal_strlit("Modifier(RightControl)");
        assert(key_notation(bare(KeyCode::Modifier(ModifierKey::RightControl))) =~= "Modifier(RightControl)"@);
    }
    assert(key_notation(bare(KeyCode::Modifier(ModifierKey::RightAlt))) == "Modifier(RightAlt)"@) by {
        reveal_strlit("Modifier(");
        reveal_strlit(")");
        reveal_strlit("RightAlt");
        reveal_strlit("Modifier(RightAlt)");
        assert(key_notation(bare(KeyCode::Modifier(ModifierKey::RightAlt))) =~= "Modifier(RightAlt)"@);
    }
    assert(key_notation(bare(KeyCode::Modifier(ModifierKey::RightSuper))) == "Modifier(RightSuper)"@) by {
        reveal_strlit("Modifier(");
        reveal_strlit(")");
        reveal_strlit("RightSuper");
        reveal_strlit("Modifier(RightSuper)");
        assert(key_notation(bare(KeyCode::Modifier(ModifierKey::RightSuper))) =~= "Modifier(RightSuper)"@);
    }
    assert(key_notation(bare(KeyCode::Modifier(ModifierKey::RightHyper))) == "Modifier(RightHyper)"@) by {
        reveal_strlit("Modifier(");
        reveal_strlit(")");
        reveal_strlit("RightHyper");
        reveal_strlit("Modifier(RightHyper)");
        assert(key_notation(bare(KeyCode::Modifier(ModifierKey::RightHyper))) =~= "Modifier(RightHyper)"@);
    }
    assert(key_notation(bare(KeyCode::Modifier(ModifierKey::RightMeta))) == "Modifier(RightMeta)"@) by {
        reveal_strlit("Modifier(");
        reveal_strlit(")");
        reveal_strlit("RightMeta");
        reveal_strlit("Modifier(RightMeta)");
        assert(key_notation(bare(KeyCode::Modifier(ModifierKey::RightMeta))) =~= "Modifier(RightMeta)"@);
    }
    assert(key_notation(bare(KeyCode::Modifier(ModifierKey::IsoLevel3Shift))) == "Modifier(IsoLevel3Shift)"@) by {
        reveal_strlit("Modifier(");
        reveal_strlit(")");
        reveal_strlit("IsoLevel3Shift");
        reveal_strlit("Modifier(IsoLevel3Shift)");
        assert(key_notation(bare(KeyCode::Modifier(ModifierKey::IsoLevel3Shift))) =~= "Modifier(IsoLevel3Shift)"@);
    }
    assert(key_notation(bare(KeyCode::Modifier(ModifierKey::IsoLevel5Shift))) == "Modifier(IsoLevel5Shift)"@) by {
        reveal_strlit("Modifier(");
        reveal_strlit(")");
        reveal_strlit("IsoLevel5Shift");
        reveal_strlit("Modifier(IsoLevel5Shift)");
        assert(key_notation(bare(KeyCode::Modifier(ModifierKey::IsoLevel5Shift))) =~= "Modifier(IsoLevel5Shift)"@);
    }
}

/// Whether layer `layer` is written as `name` and `name` is read as that layer.
pub open spec fn layer_written_as(layer: Layer, name: Seq<char>) -> bool {
    layer_name(layer) == name && layer_named(name) == Some(layer)
}

/// Each keymap layer has the configuration name of the view it serves: `login` for the
/// login screen, `tabs` for the tab bar, and so on.
pub proof fn lemma_layer_configuration_names()
    ensures
        layer_written_as(Layer::App, "app"@),
        layer_written_as(Layer::Global, "global"@),
        layer_written_as(Layer::Login, "login"@),
        layer_written_as(Layer::Tabs, "tabs"@),
        layer_written_as(Layer::Entries, "entries"@),
        layer_written_as(Layer::Feeds, "feeds"@),
        layer_written_as(Layer::Filter, "filter"@),
        layer_written_as(Layer::CategoryFilter, "category-filter"@),
        layer_written_as(Layer::SearchPrompt, "search-prompt"@),
        layer_written_as(Layer::UnsubscribePopup, "unsubscribe-popup"@),
        layer_written_as(Layer::GithubNotifications, "github-notifications"@),
        layer_written_as(Layer::GithubNotificationFilterPopup, "github-notification-filter-popup"@),
{
    lemma_layer_name_roundtrip(Layer::App);
    lemma_layer_name_roundtrip(Layer::Global);
    lemma_layer_name_roundtrip(Layer::Login);
    lemma_layer_name_roundtrip(Layer::Tabs);
    lemma_layer_name_roundtrip(Layer::Entries);
    lemma_layer_name_roundtrip(Layer::Feeds);
    lemma_layer_name_roundtrip(Layer::Filter);
    lemma_layer_name_roundtrip(Layer::CategoryFilter);
    lemma_layer_name_roundtrip(Layer::SearchPrompt);
    lemma_layer_name_roundtrip(Layer::UnsubscribePopup);
    lemma_layer_name_roundtrip(Layer::GithubNotifications);
    lemma_layer_name_roundtrip(Layer::GithubNotificationFilterPopup);
}


/// The direction a command moves a selection in, if it is a movement.
pub open spec fn command_direction(c: Command) -> Option<Direction> {
    match c {
        Command::Shell(ShellCommand::MoveAuthenticationProvider(d)) => Some(d),
        Command::Shell(ShellCommand::MoveTabSelection(d)) => Some(d),
        Command::Feeds(FeedsCommand::MoveSubscribedFeed(d)) => Some(d),
        Command::Feeds(FeedsCommand::MoveFeedUnsubscriptionPopupSelection(d)) => Some(d),
        Command::Feeds(FeedsCommand::MoveEntry(d)) => Some(d),
        Command::Filter(FilterCommand::MoveFilterRequirement(d)) => Some(d),
        Command::Gh(GhCommand::MoveNotification(d)) => Some(d),
        _ => None,
    }
}

/// Whether a direction goes forward through a list: down or right.
pub open spec fn forward(d: Direction) -> bool {
    d == Direction::Down || d == Direction::Right
}

/// Whether a name ends with `.next`.
pub open spec fn names_next(s: Seq<char>) -> bool {
    &&& s.len() >= 5
    &&& s[s.len() - 5] == '.'
    &&& s[s.len() - 4] == 'n'
    &&& s[s.len() - 3] == 'e'
    &&& s[s.len() - 2] == 'x'
    &&& s[s.len() - 1] == 't'
}

/// Whether a name ends with `.prev`.
pub open spec fn names_prev(s: Seq<char>) -> bool {
    &&& s.len() >= 5
    &&& s[s.len() - 5] == '.'
    &&& s[s.len() - 4] == 'p'
    &&& s[s.len() - 3] == 'r'
    &&& s[s.len() - 2] == 'e'
    &&& s[s.len() - 1] == 'v'
}

/// A command whose name ends with `.next` moves forward (down or right), one whose
/// name ends with `.prev` moves backward (up or left), and every movement command is
/// named one of these two ways.
pub proof fn lemma_movement_follows_name(id: CommandId)
    ensures
        names_next(command_name(id)) <==> (command_direction(command_from_id(id)) matches Some(d) && forward(d)),
        names_prev(command_name(id)) <==> (command_direction(command_from_id(id)) matches Some(d) && !forward(d)),
{
    match id {
        CommandId::NoOp => {
            reveal_strlit("no_op");
        },
        CommandId::Quit => {
            reveal_strlit("app.quit");
        },
        CommandId::ForceRedraw => {
            reveal_strlit("app.redraw");
        },
        CommandId::RotateTheme => {
            reveal_strlit("theme.rotate");
        },
        CommandId::Authenticate => {
            reveal_strlit("login.authenticate");
        },
        CommandId::MoveAuthenticationProviderPrev => {
            reveal_strlit("login.provider.prev");
        },
        CommandId::MoveAuthenticationProviderNext => {
            reveal_strlit("login.provider.next");
        },
        CommandId::MoveTabPrev => {
            reveal_strlit("tabs.prev");
        },
        CommandId::MoveTabNext => {
            reveal_strlit("tabs.next");
        },
        CommandId::MoveEntryPrev => {
            reveal_strlit("entries.prev");
        },
        CommandId::MoveEntryNext => {
            reveal_strlit("entries.next");
        },
        CommandId::MoveEntryFirst => {
            reveal_strlit("entries.first");
        },
        CommandId::MoveEntryLast => {
            reveal_strlit("entries.last");
        },
        CommandId::ReloadEntries => {
            reveal_strlit("entries.reload");
        },
        CommandId::OpenEntry => {
            reveal_strlit("entries.open");
        },
        CommandId::BrowseEntry => {
            reveal_strlit("entries.browse");
        },
        CommandId::MoveSubscribedFeedPrev => {
            reveal_strlit("feeds.prev");
        },
        CommandId::MoveSubscribedFeedNext => {
            reveal_strlit("feeds.next");
        },
        CommandId::MoveSubscribedFeedFirst => {
            reveal_strlit("feeds.first");
        },
        CommandId::MoveSubscribedFeedLast => {
            reveal_strlit("feeds.last");
        },
        CommandId::PromptFeedSubscription => {
            reveal_strlit("feeds.subscribe");
        },
        CommandId::PromptFeedEdition => {
            reveal_strlit("feeds.edit");
        },
        CommandId::PromptFeedUnsubscription => {
            reveal_strlit("feeds.unsubscribe");
        },
        CommandId::RefreshSelectedFeed => {
            reveal_strlit("feeds.refresh-selected");
        },
        CommandId::ReloadSubscription => {
            reveal_strlit("feeds.reload");
        },
        CommandId::OpenFeed => {
            reveal_strlit("feeds.open");
        },
        CommandId::MoveFeedUnsubscriptionPopupSelectionPrev => {
            reveal_strlit("feeds.unsubscribe-popup.prev");
        },
        CommandId::MoveFeedUnsubscriptionPopupSelectionNext => {
            reveal_strlit("feeds.unsubscribe-popup.next");
        },
        CommandId::SelectFeedUnsubscriptionPopup => {
            reveal_strlit("feeds.unsubscribe-popup.select");
        },
        CommandId::CancelFeedUnsubscriptionPopup => {
            reveal_strlit("feeds.unsubscribe-popup.cancel");
        },
        CommandId::MoveFilterRequirementPrev => {
            reveal_strlit("filter.requirement.prev");
        },
        CommandId::MoveFilterRequirementNext => {
            reveal_strlit("filter.requirement.next");
        },
        CommandId::ActivateCategoryFiltering => {
            reveal_strlit("filter.category");
        },
        CommandId::ActivateSearchFiltering => {
            reveal_strlit("filter.search");
        },
        CommandId::DeactivateFiltering => {
            reveal_strlit("filter.close");
        },
        CommandId::MoveGithubNotificationPrev => {
            reveal_strlit("github-notifications.prev");
        },
        CommandId::MoveGithubNotificationNext => {
            reveal_strlit("github-notifications.next");
        },
        CommandId::MoveGithubNotificationFirst => {
            reveal_strlit("github-notifications.first");
        },
        CommandId::MoveGithubNotificationLast => {
            reveal_strlit("github-notifications.last");
        },
        CommandId::OpenGithubNotification => {
            reveal_strlit("github-notifications.open");
        },
        CommandId::OpenGithubNotificationWithDone => {
            reveal_strlit("github-notifications.open-and-done");
        },
        CommandId::ReloadGithubNotifications => {
            reveal_strlit("github-notifications.reload");
        },
        CommandId::MarkGithubNotificationAsDone => {
            reveal_strlit("github-notifications.mark-done");
        },
        CommandId::MarkGithubNotificationAsDoneAll => {
            reveal_strlit("github-notifications.mark-all-done");
        },
        CommandId::UnsubscribeGithubThread => {
            reveal_strlit("github-notifications.unsubscribe-thread");
        },
        CommandId::OpenGithubNotificationFilterPopup => {
            reveal_strlit("github-notifications.filter.open");
        },
        CommandId::CloseGithubNotificationFilterPopup => {
            reveal_strlit("github-notifications.filter.close");
        },
        CommandId::ToggleGithubNotificationFilterPopupIncludeUnread => {
            reveal_strlit("github-notifications.filter.include-unread.toggle");
        },
        CommandId::ToggleGithubNotificationFilterPopupParticipating => {
            reveal_strlit("github-notifications.filter.participating.toggle");
        },
        CommandId::ToggleGithubNotificationFilterPopupVisibilityPublic => {
            reveal_strlit("github-notifications.filter.visibility-public.toggle");
        },
        CommandId::ToggleGithubNotificationFilterPopupVisibilityPrivate => {
            reveal_strlit("github-notifications.filter.visibility-private.toggle");
        },
        CommandId::ToggleGithubNotificationFilterPopupPullRequestOpen => {
            reveal_strlit("github-notifications.filter.pr-open.toggle");
        },
        CommandId::ToggleGithubNotificationFilterPopupPullRequestClosed => {
            reveal_strlit("github-notifications.filter.pr-closed.toggle");
        },
        CommandId::ToggleGithubNotificationFilterPopupPullRequestMerged => {
            reveal_strlit("github-notifications.filter.pr-merged.toggle");
        },
        CommandId::ToggleGithubNotificationFilterPopupReasonMentioned => {
            reveal_strlit("github-notifications.filter.reason-mentioned.toggle");
        },
        CommandId::ToggleGithubNotificationFilterPopupReasonReviewRequested => {
            reveal_strlit("github-notifications.filter.reason-review-requested.toggle");
        },
    }
}


/// The direction an unmodified arrow key, or the vi key standing for it (`k`, `j`,
/// `h`, `l`), points in.
pub open spec fn key_direction(k: KeyStroke) -> Option<Direction> {
    if k.modifiers != bare(k.code).modifiers {
        None
    } else {
        match k.code {
            KeyCode::Up => Some(Direction::Up),
            KeyCode::Down => Some(Direction::Down),
            KeyCode::Left => Some(Direction::Left),
            KeyCode::Right => Some(Direction::Right),
            KeyCode::Char(c) => if c == 'k' {
                Some(Direction::Up)
            } else if c == 'j' {
                Some(Direction::Down)
            } else if c == 'h' {
                Some(Direction::Left)
            } else if c == 'l' {
                Some(Direction::Right)
            } else {
                None
            },
            _ => None,
        }
    }
}

/// In the default keymap, a binding on one arrow key or vi key moves the selection
/// the way that key points.
pub proof fn lemma_default_keys_point_their_way(layer: Layer, i: int)
    requires
        0 <= i < default_bindings(layer).len(),
        default_bindings(layer)[i].0.len() == 1,
        key_direction(default_bindings(layer)[i].0[0]) is Some,
    ensures
        command_direction(command_from_id(default_bindings(layer)[i].1)) == key_direction(
            default_bindings(layer)[i].0[0],
        ),
{
    match layer {
        Layer::App => {},
        Layer::Global => {},
        Layer::Login => {},
        Layer::Tabs => {},
        Layer::Entries => {},
        Layer::Feeds => {},
        Layer::Filter => {},
        Layer::CategoryFilter => {},
        Layer::SearchPrompt => {},
        Layer::UnsubscribePopup => {},
        Layer::GithubNotifications => {},
        Layer::GithubNotificationFilterPopup => {},
    }
}

} // verus!
