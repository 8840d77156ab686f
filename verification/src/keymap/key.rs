use vstd::prelude::*;

use crate::keymap::command::CommandId;
use crate::keymap::error::KeymapError;
use crate::strings::{push_char, str_eq};

verus! {

/// A key on the keyboard, independent of modifiers.
#[derive(Clone, Copy, Debug, PartialEq, Eq, Hash, Structural)]
pub enum KeyCode {
    Backspace,
    Enter,
    Left,
    Right,
    Up,
    Down,
    Home,
    End,
    PageUp,
    PageDown,
    Tab,
    BackTab,
    Delete,
    Insert,
    Esc,
    Null,
    CapsLock,
    ScrollLock,
    NumLock,
    PrintScreen,
    Pause,
    Menu,
    KeypadBegin,
    /// Function key `F<n>`.
    F(u8),
    /// A character key.
    Char(char),
    /// A media key.
    Media(MediaKey),
    /// A modifier key pressed on its own.
    Modifier(ModifierKey),
}

/// Media keys.
#[derive(Debug, Clone, Copy, PartialEq, Eq, Hash, Structural)]
pub enum MediaKey {
    Play,
    Pause,
    PlayPause,
    Reverse,
    Stop,
    FastForward,
    Rewind,
    TrackNext,
    TrackPrevious,
    Record,
    LowerVolume,
    RaiseVolume,
    MuteVolume,
}

/// Modifier keys, pressed on their own.
#[derive(Debug, Clone, Copy, PartialEq, Eq, Hash, Structural)]
pub enum ModifierKey {
    LeftShift,
    LeftControl,
    LeftAlt,
    LeftSuper,
    LeftHyper,
    LeftMeta,
    RightShift,
    RightControl,
    RightAlt,
    RightSuper,
    RightHyper,
    RightMeta,
    IsoLevel3Shift,
    IsoLevel5Shift,
}

/// The name of a media key.
pub open spec fn media_key_name(k: MediaKey) -> Seq<char> {
    match k {
        MediaKey::Play => "Play"@,
        MediaKey::Pause => "Pause"@,
        MediaKey::PlayPause => "PlayPause"@,
        MediaKey::Reverse => "Reverse"@,
        MediaKey::Stop => "Stop"@,
        MediaKey::FastForward => "FastForward"@,
        MediaKey::Rewind => "Rewind"@,
        MediaKey::TrackNext => "TrackNext"@,
        MediaKey::TrackPrevious => "TrackPrevious"@,
        MediaKey::Record => "Record"@,
        MediaKey::LowerVolume => "LowerVolume"@,
        MediaKey::RaiseVolume => "RaiseVolume"@,
        MediaKey::MuteVolume => "MuteVolume"@,
    }
}

/// The name of a modifier key.
pub open spec fn modifier_key_name(k: ModifierKey) -> Seq<char> {
    match k {
        ModifierKey::LeftShift => "LeftShift"@,
        ModifierKey::LeftControl => "LeftControl"@,
        ModifierKey::LeftAlt => "LeftAlt"@,
        ModifierKey::LeftSuper => "LeftSuper"@,
        ModifierKey::LeftHyper => "LeftHyper"@,
        ModifierKey::LeftMeta => "LeftMeta"@,
        ModifierKey::RightShift => "RightShift"@,
        ModifierKey::RightControl => "RightControl"@,
        ModifierKey::RightAlt => "RightAlt"@,
        ModifierKey::RightSuper => "RightSuper"@,
        ModifierKey::RightHyper => "RightHyper"@,
        ModifierKey::RightMeta => "RightMeta"@,
        ModifierKey::IsoLevel3Shift => "IsoLevel3Shift"@,
        ModifierKey::IsoLevel5Shift => "IsoLevel5Shift"@,
    }
}

impl MediaKey {
    /// The name of this media key.
    pub fn name(self) -> (s: &'static str)
        ensures
            s@ == media_key_name(self),
    {
        match self {
            MediaKey::Play => "Play",
            MediaKey::Pause => "Pause",
            MediaKey::PlayPause => "PlayPause",
            MediaKey::Reverse => "Reverse",
            MediaKey::Stop => "Stop",
            MediaKey::FastForward => "FastForward",
            MediaKey::Rewind => "Rewind",
            MediaKey::TrackNext => "TrackNext",
            MediaKey::TrackPrevious => "TrackPrevious",
            MediaKey::Record => "Record",
            MediaKey::LowerVolume => "LowerVolume",
            MediaKey::RaiseVolume => "RaiseVolume",
            MediaKey::MuteVolume => "MuteVolume",
        }
    }
}

impl ModifierKey {
    /// The name of this modifier key.
    pub fn name(self) -> (s: &'static str)
        ensures
            s@ == modifier_key_name(self),
    {
        match self {
            ModifierKey::LeftShift => "LeftShift",
            ModifierKey::LeftControl => "LeftControl",
            ModifierKey::LeftAlt => "LeftAlt",
            ModifierKey::LeftSuper => "LeftSuper",
            ModifierKey::LeftHyper => "LeftHyper",
            ModifierKey::LeftMeta => "LeftMeta",
            ModifierKey::RightShift => "RightShift",
            ModifierKey::RightControl => "RightControl",
            ModifierKey::RightAlt => "RightAlt",
            ModifierKey::RightSuper => "RightSuper",
            ModifierKey::RightHyper => "RightHyper",
            ModifierKey::RightMeta => "RightMeta",
            ModifierKey::IsoLevel3Shift => "IsoLevel3Shift",
            ModifierKey::IsoLevel5Shift => "IsoLevel5Shift",
        }
    }
}

/// The name of a named key, if `code` is one.
pub open spec fn named_key_name(code: KeyCode) -> Option<Seq<char>> {
    match code {
        KeyCode::Backspace => Some("backspace"@),
        KeyCode::Enter => Some("enter"@),
        KeyCode::Left => Some("left"@),
        KeyCode::Right => Some("right"@),
        KeyCode::Up => Some("up"@),
        KeyCode::Down => Some("down"@),
        KeyCode::Home => Some("home"@),
        KeyCode::End => Some("end"@),
        KeyCode::PageUp => Some("pageup"@),
        KeyCode::PageDown => Some("pagedown"@),
        KeyCode::Tab => Some("tab"@),
        KeyCode::BackTab => Some("backtab"@),
        KeyCode::Delete => Some("delete"@),
        KeyCode::Insert => Some("insert"@),
        KeyCode::Esc => Some("esc"@),
        KeyCode::Null => Some("null"@),
        KeyCode::CapsLock => Some("capslock"@),
        KeyCode::ScrollLock => Some("scrolllock"@),
        KeyCode::NumLock => Some("numlock"@),
        KeyCode::PrintScreen => Some("printscreen"@),
        KeyCode::Pause => Some("pause"@),
        KeyCode::Menu => Some("menu"@),
        KeyCode::KeypadBegin => Some("keypadbegin"@),
        KeyCode::Char(c) => if c == ' ' { Some("space"@) } else { None },
        _ => None,
    }
}

/// The named key a notation word denotes, if any.
pub open spec fn named_key(s: Seq<char>) -> Option<KeyCode> {
    if s == "backspace"@ { Some(KeyCode::Backspace) }
    else if s == "enter"@ { Some(KeyCode::Enter) }
    else if s == "left"@ { Some(KeyCode::Left) }
    else if s == "right"@ { Some(KeyCode::Right) }
    else if s == "up"@ { Some(KeyCode::Up) }
    else if s == "down"@ { Some(KeyCode::Down) }
    else if s == "home"@ { Some(KeyCode::Home) }
    else if s == "end"@ { Some(KeyCode::End) }
    else if s == "pageup"@ { Some(KeyCode::PageUp) }
    else if s == "pagedown"@ { Some(KeyCode::PageDown) }
    else if s == "tab"@ { Some(KeyCode::Tab) }
    else if s == "backtab"@ { Some(KeyCode::BackTab) }
    else if s == "delete"@ { Some(KeyCode::Delete) }
    else if s == "insert"@ { Some(KeyCode::Insert) }
    else if s == "esc"@ { Some(KeyCode::Esc) }
    else if s == "null"@ { Some(KeyCode::Null) }
    else if s == "capslock"@ { Some(KeyCode::CapsLock) }
    else if s == "scrolllock"@ { Some(KeyCode::ScrollLock) }
    else if s == "numlock"@ { Some(KeyCode::NumLock) }
    else if s == "printscreen"@ { Some(KeyCode::PrintScreen) }
    else if s == "pause"@ { Some(KeyCode::Pause) }
    else if s == "menu"@ { Some(KeyCode::Menu) }
    else if s == "keypadbegin"@ { Some(KeyCode::KeypadBegin) }
    else if s == "space"@ { Some(KeyCode::Char(' ')) }
    else { None }
}

/// Parses the name of a key code: a named key, a single character or `f<n>`.
fn parse_named_key(s: &str) -> (r: Option<KeyCode>)
    ensures
        r == named_key(s@),
{
    if str_eq(s, "backspace") { Some(KeyCode::Backspace) }
    else if str_eq(s, "enter") { Some(KeyCode::Enter) }
    else if str_eq(s, "left") { Some(KeyCode::Left) }
    else if str_eq(s, "right") { Some(KeyCode::Right) }
    else if str_eq(s, "up") { Some(KeyCode::Up) }
    else if str_eq(s, "down") { Some(KeyCode::Down) }
    else if str_eq(s, "home") { Some(KeyCode::Home) }
    else if str_eq(s, "end") { Some(KeyCode::End) }
    else if str_eq(s, "pageup") { Some(KeyCode::PageUp) }
    else if str_eq(s, "pagedown") { Some(KeyCode::PageDown) }
    else if str_eq(s, "tab") { Some(KeyCode::Tab) }
    else if str_eq(s, "backtab") { Some(KeyCode::BackTab) }
    else if str_eq(s, "delete") { Some(KeyCode::Delete) }
    else if str_eq(s, "insert") { Some(KeyCode::Insert) }
    else if str_eq(s, "esc") { Some(KeyCode::Esc) }
    else if str_eq(s, "null") { Some(KeyCode::Null) }
    else if str_eq(s, "capslock") { Some(KeyCode::CapsLock) }
    else if str_eq(s, "scrolllock") { Some(KeyCode::ScrollLock) }
    else if str_eq(s, "numlock") { Some(KeyCode::NumLock) }
    else if str_eq(s, "printscreen") { Some(KeyCode::PrintScreen) }
    else if str_eq(s, "pause") { Some(KeyCode::Pause) }
    else if str_eq(s, "menu") { Some(KeyCode::Menu) }
    else if str_eq(s, "keypadbegin") { Some(KeyCode::KeypadBegin) }
    else if str_eq(s, "space") { Some(KeyCode::Char(' ')) }
    else { None }
}

/// Appends the name of a named key.
fn push_named_key(out: &mut String, code: KeyCode)
    requires
        named_key_name(code) is Some,
    ensures
        final(out)@ == old(out)@ + named_key_name(code).unwrap(),
{
    match code {
        KeyCode::Backspace => out.append("backspace"),
        KeyCode::Enter => out.append("enter"),
        KeyCode::Left => out.append("left"),
        KeyCode::Right => out.append("right"),
        KeyCode::Up => out.append("up"),
        KeyCode::Down => out.append("down"),
        KeyCode::Home => out.append("home"),
        KeyCode::End => out.append("end"),
        KeyCode::PageUp => out.append("pageup"),
        KeyCode::PageDown => out.append("pagedown"),
        KeyCode::Tab => out.append("tab"),
        KeyCode::BackTab => out.append("backtab"),
        KeyCode::Delete => out.append("delete"),
        KeyCode::Insert => out.append("insert"),
        KeyCode::Esc => out.append("esc"),
        KeyCode::Null => out.append("null"),
        KeyCode::CapsLock => out.append("capslock"),
        KeyCode::ScrollLock => out.append("scrolllock"),
        KeyCode::NumLock => out.append("numlock"),
        KeyCode::PrintScreen => out.append("printscreen"),
        KeyCode::Pause => out.append("pause"),
        KeyCode::Menu => out.append("menu"),
        KeyCode::KeypadBegin => out.append("keypadbegin"),
        _ => out.append("space"),
    }
}

/// Named keys are told apart by their names.
proof fn lemma_named_key_names(code: KeyCode)
    requires
        named_key_name(code) is Some,
    ensures
        named_key(named_key_name(code).unwrap()) == Some(code),
        named_key_name(code).unwrap().len() >= 2,
        named_key_name(code).unwrap()[0] != 'f',
        named_key_name(code).unwrap()[1] != '-',
{
    reveal_strlit("backspace");
    reveal_strlit("enter");
    reveal_strlit("left");
    reveal_strlit("right");
    reveal_strlit("up");
    reveal_strlit("down");
    reveal_strlit("home");
    reveal_strlit("end");
    reveal_strlit("pageup");
    reveal_strlit("pagedown");
    reveal_strlit("tab");
    reveal_strlit("backtab");
    reveal_strlit("delete");
    reveal_strlit("insert");
    reveal_strlit("esc");
    reveal_strlit("null");
    reveal_strlit("capslock");
    reveal_strlit("scrolllock");
    reveal_strlit("numlock");
    reveal_strlit("printscreen");
    reveal_strlit("pause");
    reveal_strlit("menu");
    reveal_strlit("keypadbegin");
    reveal_strlit("space");
    let name = named_key_name(code).unwrap();
    assert(name.len() >= 2);
    let c0 = name[0];
    let c1 = name[1];
    let c2 = name[2];
    assert(named_key(name) == Some(code));
}

/// No named key is a single character or starts with `f`.
proof fn lemma_not_named(s: Seq<char>)
    requires
        s.len() == 1 || (s.len() >= 1 && s[0] == 'f'),
    ensures
        named_key(s) is None,
{
    reveal_strlit("backspace");
    reveal_strlit("enter");
    reveal_strlit("left");
    reveal_strlit("right");
    reveal_strlit("up");
    reveal_strlit("down");
    reveal_strlit("home");
    reveal_strlit("end");
    reveal_strlit("pageup");
    reveal_strlit("pagedown");
    reveal_strlit("tab");
    reveal_strlit("backtab");
    reveal_strlit("delete");
    reveal_strlit("insert");
    reveal_strlit("esc");
    reveal_strlit("null");
    reveal_strlit("capslock");
    reveal_strlit("scrolllock");
    reveal_strlit("numlock");
    reveal_strlit("printscreen");
    reveal_strlit("pause");
    reveal_strlit("menu");
    reveal_strlit("keypadbegin");
    reveal_strlit("space");
    if named_key(s) is Some {
        assert(s.len() >= 2);
        assert(s[0] != 'f');
    }
}

/// The decimal digit character of a value below ten.
pub open spec fn digit_char(d: nat) -> char {
    if d == 0 { '0' }
    else if d == 1 { '1' }
    else if d == 2 { '2' }
    else if d == 3 { '3' }
    else if d == 4 { '4' }
    else if d == 5 { '5' }
    else if d == 6 { '6' }
    else if d == 7 { '7' }
    else if d == 8 { '8' }
    else { '9' }
}

/// The value of a decimal digit character, or `None` for any other character.
pub open spec fn digit_value(c: char) -> Option<nat> {
    if c == '0' { Some(0) }
    else if c == '1' { Some(1) }
    else if c == '2' { Some(2) }
    else if c == '3' { Some(3) }
    else if c == '4' { Some(4) }
    else if c == '5' { Some(5) }
    else if c == '6' { Some(6) }
    else if c == '7' { Some(7) }
    else if c == '8' { Some(8) }
    else if c == '9' { Some(9) }
    else { None }
}

/// Whether every character of `s` is a decimal digit.
pub open spec fn all_digits(s: Seq<char>) -> bool {
    forall|i: int| 0 <= i < s.len() ==> (#[trigger] digit_value(s[i])) is Some
}

/// The value of a string of decimal digits.
pub open spec fn digits_value(s: Seq<char>) -> nat
    decreases s.len(),
{
    if s.len() == 0 {
        0
    } else {
        digits_value(s.drop_last()) * 10 + match digit_value(s.last()) {
            Some(d) => d,
            None => 0,
        }
    }
}

/// The decimal representation of a number, without leading zeros.
pub open spec fn decimal(n: nat) -> Seq<char>
    decreases n,
{
    if n < 10 {
        seq![digit_char(n)]
    } else {
        decimal(n / 10).push(digit_char(n % 10))
    }
}

proof fn lemma_digit(d: nat)
    requires
        d < 10,
    ensures
        digit_value(digit_char(d)) == Some(d),
{
}

/// Reading the decimal representation of a number gives the number back.
pub proof fn lemma_decimal_roundtrip(n: nat)
    ensures
        all_digits(decimal(n)),
        digits_value(decimal(n)) == n,
        decimal(n).len() >= 1,
    decreases n,
{
    if n < 10 {
        lemma_digit(n);
        assert(decimal(n).drop_last() =~= Seq::<char>::empty());
        assert(decimal(n).last() == digit_char(n));
        assert(digits_value(Seq::<char>::empty()) == 0);
    } else {
        lemma_decimal_roundtrip(n / 10);
        lemma_digit(n % 10);
        assert(decimal(n).drop_last() =~= decimal(n / 10));
        assert(decimal(n).last() == digit_char(n % 10));
        assert forall|i: int| 0 <= i < decimal(n).len() implies (#[trigger] digit_value(
            decimal(n)[i],
        )) is Some by {
            if i < decimal(n / 10).len() {
                assert(decimal(n)[i] == decimal(n / 10)[i]);
            }
        }
    }
}

/// A longer string of digits is worth at least as much as its prefix.
pub(crate) proof fn lemma_digits_prefix(s: Seq<char>, k: int)
    requires
        0 <= k <= s.len(),
        all_digits(s),
    ensures
        digits_value(s) >= digits_value(s.take(k)),
    decreases s.len() - k,
{
    if k < s.len() {
        lemma_digits_prefix(s, k + 1);
        assert(s.take(k + 1).drop_last() =~= s.take(k));
    } else {
        assert(s.take(k) =~= s);
    }
}

/// The value a string of digits denotes when it fits in a byte.
pub open spec fn byte_decimal(s: Seq<char>) -> Option<u8> {
    if s.len() > 0 && all_digits(s) && digits_value(s) <= 255 {
        Some(digits_value(s) as u8)
    } else {
        None
    }
}

/// The decimal digit at the given position.
pub(crate) fn digit_of(c: char) -> (r: Option<u32>)
    ensures
        match digit_value(c) {
            Some(d) => r == Some(d as u32),
            None => r is None,
        },
{
    if c == '0' { Some(0) }
    else if c == '1' { Some(1) }
    else if c == '2' { Some(2) }
    else if c == '3' { Some(3) }
    else if c == '4' { Some(4) }
    else if c == '5' { Some(5) }
    else if c == '6' { Some(6) }
    else if c == '7' { Some(7) }
    else if c == '8' { Some(8) }
    else if c == '9' { Some(9) }
    else { None }
}

/// Parses a string of decimal digits whose value fits in a byte.
fn parse_byte_decimal(s: &str) -> (r: Option<u8>)
    ensures
        r == byte_decimal(s@),
{
    let n = s.unicode_len();
    if n == 0 {
        return None;
    }
    let mut value: u32 = 0;
    let mut i: usize = 0;
    while i < n
        invariant
            n == s@.len(),
            i <= n,
            all_digits(s@.take(i as int)),
            value == digits_value(s@.take(i as int)),
            value <= 255,
        decreases n - i,
    {
        let c = s.get_char(i);
        match digit_of(c) {
            None => {
                assert(digit_value(s@[i as int]) is None);
                return None;
            },
            Some(d) => {
                assert(s@.take(i + 1).drop_last() =~= s@.take(i as int));
                assert(s@.take(i + 1).last() == c);
                value = value * 10 + d;
                assert forall|j: int| 0 <= j < i + 1 implies (#[trigger] digit_value(
                    s@.take(i + 1)[j],
                )) is Some by {
                    if j < i {
                        assert(s@.take(i + 1)[j] == s@.take(i as int)[j]);
                    }
                }
                if value > 255 {
                    proof {
                        if all_digits(s@) {
                            lemma_digits_prefix(s@, i + 1);
                        }
                    }
                    return None;
                }
            },
        }
        i += 1;
    }
    assert(s@.take(n as int) =~= s@);
    Some(value as u8)
}

/// Appends the decimal representation of a byte.
fn push_decimal(out: &mut String, n: u8)
    ensures
        final(out)@ == old(out)@ + decimal(n as nat),
{
    let ghost start = out@;
    if n >= 100 {
        push_char(out, digit_char_exec(n / 100));
        push_char(out, digit_char_exec((n / 10) % 10));
        push_char(out, digit_char_exec(n % 10));
        assert(decimal(n as nat) =~= decimal((n / 10) as nat).push(digit_char((n % 10) as nat)));
        assert(decimal((n / 10) as nat) =~= decimal((n / 100) as nat).push(
            digit_char(((n / 10) % 10) as nat),
        ));
        assert(out@ =~= start + decimal(n as nat));
    } else if n >= 10 {
        push_char(out, digit_char_exec(n / 10));
        push_char(out, digit_char_exec(n % 10));
        assert(decimal(n as nat) =~= decimal((n / 10) as nat).push(digit_char((n % 10) as nat)));
        assert(decimal((n / 10) as nat) =~= seq![digit_char((n / 10) as nat)]);
        assert(out@ =~= start + decimal(n as nat));
    } else {
        push_char(out, digit_char_exec(n));
        assert(out@ =~= start + decimal(n as nat));
    }
}

/// Appends the decimal representation of a number.
pub fn push_decimal_usize(out: &mut String, n: usize)
    ensures
        final(out)@ == old(out)@ + decimal(n as nat),
    decreases n,
{
    let ghost start = out@;
    if n >= 10 {
        push_decimal_usize(out, n / 10);
    }
    let d = (n % 10) as u8;
    push_char(out, digit_char_exec(d));
    proof {
        if n >= 10 {
            assert(decimal(n as nat) == decimal((n / 10) as nat).push(digit_char((n % 10) as nat)));
        }
        assert(out@ =~= start + decimal(n as nat));
    }
}

fn digit_char_exec(d: u8) -> (c: char)
    requires
        d < 10,
    ensures
        c == digit_char(d as nat),
{
    if d == 0 { '0' }
    else if d == 1 { '1' }
    else if d == 2 { '2' }
    else if d == 3 { '3' }
    else if d == 4 { '4' }
    else if d == 5 { '5' }
    else if d == 6 { '6' }
    else if d == 7 { '7' }
    else if d == 8 { '8' }
    else { '9' }
}

/// The key code a notation word denotes: a named key, a single character or `f<n>`.
pub open spec fn key_code_named(s: Seq<char>) -> Option<KeyCode> {
    match named_key(s) {
        Some(code) => Some(code),
        None => if s.len() == 1 {
            Some(KeyCode::Char(s[0]))
        } else if s.len() >= 2 && s[0] == 'f' && byte_decimal(s.drop_first()) is Some {
            Some(KeyCode::F(byte_decimal(s.drop_first()).unwrap()))
        } else {
            None
        },
    }
}

/// The notation word of a key code.
pub open spec fn key_code_label(code: KeyCode) -> Seq<char> {
    match named_key_name(code) {
        Some(name) => name,
        None => match code {
            KeyCode::F(n) => seq!['f'] + decimal(n as nat),
            KeyCode::Char(c) => seq![c],
            KeyCode::Media(m) => "Media("@ + media_key_name(m) + ")"@,
            KeyCode::Modifier(m) => "Modifier("@ + modifier_key_name(m) + ")"@,
            _ => Seq::<char>::empty(),
        },
    }
}

/// Parses the notation word of a key code.
fn parse_key_code(s: &str) -> (r: Option<KeyCode>)
    ensures
        r == key_code_named(s@),
{
    if let Some(code) = parse_named_key(s) {
        return Some(code);
    }
    let n = s.unicode_len();
    if n == 1 {
        return Some(KeyCode::Char(s.get_char(0)));
    }
    if n >= 2 && s.get_char(0) == 'f' {
        let digits = s.substring_char(1, n);
        assert(digits@ =~= s@.drop_first());
        match parse_byte_decimal(digits) {
            Some(v) => Some(KeyCode::F(v)),
            None => None,
        }
    } else {
        None
    }
}

/// Modifier keys held with a key.
#[derive(Clone, Copy, Debug, Default, PartialEq, Eq, Hash, Structural)]
pub struct KeyModifiers {
    pub shift: bool,
    pub control: bool,
    pub alt: bool,
    pub super_key: bool,
    pub hyper: bool,
    pub meta: bool,
}

/// No modifier held.
pub open spec fn no_modifiers() -> KeyModifiers {
    KeyModifiers { shift: false, control: false, alt: false, super_key: false, hyper: false, meta: false }
}

impl KeyModifiers {
    /// No modifier held.
    pub fn none() -> (m: KeyModifiers)
        ensures
            m == no_modifiers(),
    {
        KeyModifiers { shift: false, control: false, alt: false, super_key: false, hyper: false, meta: false }
    }
}

/// Normalized key used for keymap lookup.
#[derive(Clone, Copy, Debug, PartialEq, Eq, Hash, Structural)]
pub struct KeyStroke {
    pub code: KeyCode,
    pub modifiers: KeyModifiers,
}

/// The character a key stroke types, if any: character keys without control or alt.
pub open spec fn stroke_char(k: KeyStroke) -> Option<char> {
    if k.modifiers.control || k.modifiers.alt {
        None
    } else {
        match k.code {
            KeyCode::Char(c) => Some(c),
            _ => None,
        }
    }
}

/// Whether a notation word starts with a modifier prefix `C-`, `A-` or `S-`.
pub open spec fn modifier_prefixed(s: Seq<char>) -> bool {
    s.len() >= 3 && s[1] == '-' && (s[0] == 'C' || s[0] == 'A' || s[0] == 'S')
}

/// Adds the modifier a prefix character stands for.
pub open spec fn with_modifier(m: KeyModifiers, c: char) -> KeyModifiers {
    if c == 'C' {
        KeyModifiers { control: true, ..m }
    } else if c == 'A' {
        KeyModifiers { alt: true, ..m }
    } else {
        KeyModifiers { shift: true, ..m }
    }
}

/// Both sets of modifiers together.
pub open spec fn union_modifiers(a: KeyModifiers, b: KeyModifiers) -> KeyModifiers {
    KeyModifiers {
        shift: a.shift || b.shift,
        control: a.control || b.control,
        alt: a.alt || b.alt,
        super_key: a.super_key || b.super_key,
        hyper: a.hyper || b.hyper,
        meta: a.meta || b.meta,
    }
}

/// The key stroke a notation such as `C-c`, `S-t`, `A-enter` or `f5` denotes.
pub open spec fn notation_key(s: Seq<char>) -> Option<KeyStroke>
    decreases s.len(),
{
    if modifier_prefixed(s) {
        match notation_key(s.subrange(2, s.len() as int)) {
            Some(k) => Some(KeyStroke { code: k.code, modifiers: with_modifier(k.modifiers, s[0]) }),
            None => None,
        }
    } else {
        match key_code_named(s) {
            Some(code) => Some(KeyStroke { code, modifiers: no_modifiers() }),
            None => None,
        }
    }
}

/// Adds held modifiers to a parsed key stroke.
pub open spec fn add_modifiers(k: Option<KeyStroke>, m: KeyModifiers) -> Option<KeyStroke> {
    match k {
        Some(k) => Some(KeyStroke { code: k.code, modifiers: union_modifiers(k.modifiers, m) }),
        None => None,
    }
}

/// The modifier prefix of a key stroke's notation: `C-`, `A-`, `S-` in this order.
pub open spec fn modifier_prefix(m: KeyModifiers) -> Seq<char> {
    (if m.control { "C-"@ } else { Seq::<char>::empty() }) + (if m.alt { "A-"@ } else {
        Seq::<char>::empty()
    }) + (if m.shift { "S-"@ } else { Seq::<char>::empty() })
}

/// The notation of a key stroke.
pub open spec fn key_notation(k: KeyStroke) -> Seq<char> {
    modifier_prefix(k.modifiers) + key_code_label(k.code)
}

impl KeyStroke {
    /// A key stroke of a code with modifiers.
    pub fn new(code: KeyCode, modifiers: KeyModifiers) -> (k: KeyStroke)
        ensures
            k.code == code,
            k.modifiers == modifiers,
    {
        KeyStroke { code, modifiers }
    }

    /// The key stroke of a character key with no modifier.
    pub fn from_char(ch: char) -> (k: KeyStroke)
        ensures
            k.code == KeyCode::Char(ch),
            k.modifiers == no_modifiers(),
    {
        KeyStroke { code: KeyCode::Char(ch), modifiers: KeyModifiers::none() }
    }

    /// The character this key stroke types, if any.
    pub fn as_char(self) -> (r: Option<char>)
        ensures
            r == stroke_char(self),
    {
        if self.modifiers.control || self.modifiers.alt {
            return None;
        }
        match self.code {
            KeyCode::Char(ch) => Some(ch),
            _ => None,
        }
    }

    /// Parses a key notation such as `C-c`, `S-t`, `A-enter`, `space` or `f5`.
    pub fn parse(value: &str) -> (r: Result<KeyStroke, KeymapError>)
        ensures
            match notation_key(value@) {
                Some(k) => r == Ok::<KeyStroke, KeymapError>(k),
                None => r matches Err(KeymapError::InvalidKeyNotation(v, _)) && v@ == value@,
            },
    {
        let mut mods = KeyModifiers::none();
        let mut rest: &str = value;
        proof {
            assert(union_modifiers(no_modifiers(), no_modifiers()) == no_modifiers());
            assert(add_modifiers(notation_key(rest@), mods) == notation_key(rest@));
        }
        loop
            invariant
                notation_key(value@) == add_modifiers(notation_key(rest@), mods),
            ensures
                notation_key(value@) == add_modifiers(notation_key(rest@), mods),
                !modifier_prefixed(rest@),
            decreases rest@.len(),
        {
            let n = rest.unicode_len();
            if n >= 3 && rest.get_char(1) == '-' {
                let c = rest.get_char(0);
                if c == 'C' {
                    mods.control = true;
                } else if c == 'A' {
                    mods.alt = true;
                } else if c == 'S' {
                    mods.shift = true;
                } else {
                    break;
                }
                let next = rest.substring_char(2, n);
                assert(next@ =~= rest@.subrange(2, rest@.len() as int));
                rest = next;
            } else {
                break;
            }
        }
        match parse_key_code(rest) {
            Some(code) => Ok(KeyStroke { code, modifiers: mods }),
            None => Err(KeymapError::InvalidKeyNotation(value.to_owned(), "unknown key".to_owned())),
        }
    }

    /// The notation of this key stroke, as `parse` reads it.
    pub fn to_notation(&self) -> (s: String)
        ensures
            s@ == key_notation(*self),
    {
        let mut out = String::new();
        if self.modifiers.control {
            out.append("C-");
        }
        if self.modifiers.alt {
            out.append("A-");
        }
        if self.modifiers.shift {
            out.append("S-");
        }
        assert(out@ =~= modifier_prefix(self.modifiers));
        self.push_code_label(&mut out);
        out
    }

    fn push_code_label(&self, out: &mut String)
        ensures
            final(out)@ == old(out)@ + key_code_label(self.code),
    {
        let ghost start = out@;
        match self.code {
            KeyCode::F(n) => {
                out.append("f");
                push_decimal(out, n);
                proof {
                    reveal_strlit("f");
                    assert(out@ =~= start + key_code_label(self.code));
                }
            },
            KeyCode::Char(c) => {
                if c == ' ' {
                    out.append("space");
                } else {
                    push_char(out, c);
                    assert(out@ =~= start + key_code_label(self.code));
                }
            },
            KeyCode::Media(m) => {
                out.append("Media(");
                out.append(m.name());
                out.append(")");
                assert(out@ =~= start + key_code_label(self.code));
            },
            KeyCode::Modifier(m) => {
                out.append("Modifier(");
                out.append(m.name());
                out.append(")");
                assert(out@ =~= start + key_code_label(self.code));
            },
            _ => {
                push_named_key(out, self.code);
            },
        }
    }
}

/// Whether a key stroke can be written in notation and read back unchanged:
/// its code is not a media or lone modifier key and it holds no super, hyper or meta.
pub open spec fn notation_expressible(k: KeyStroke) -> bool {
    &&& !(k.code is Media)
    &&& !(k.code is Modifier)
    &&& !k.modifiers.super_key
    &&& !k.modifiers.hyper
    &&& !k.modifiers.meta
}

/// The notation word of a key code reads back as that code.
proof fn lemma_code_label_roundtrip(code: KeyCode)
    requires
        !(code is Media),
        !(code is Modifier),
    ensures
        key_code_named(key_code_label(code)) == Some(code),
        !modifier_prefixed(key_code_label(code)),
        key_code_label(code).len() >= 1,
{
    let label = key_code_label(code);
    if named_key_name(code) is Some {
        lemma_named_key_names(code);
    } else {
        match code {
            KeyCode::F(n) => {
                lemma_decimal_roundtrip(n as nat);
                assert(label[0] == 'f');
                lemma_not_named(label);
                assert(label.drop_first() =~= decimal(n as nat));
                assert(digit_value(label[1]) is Some);
            },
            KeyCode::Char(c) => {
                assert(label.len() == 1);
                lemma_not_named(label);
            },
            _ => {},
        }
    }
}

/// A modifier prefix in front of a notation adds that modifier.
proof fn lemma_prefix_step(c: char, s: Seq<char>)
    requires
        c == 'C' || c == 'A' || c == 'S',
        s.len() >= 1,
    ensures
        notation_key(seq![c, '-'] + s) == match notation_key(s) {
            Some(k) => Some(KeyStroke { code: k.code, modifiers: with_modifier(k.modifiers, c) }),
            None => None,
        },
{
    let t = seq![c, '-'] + s;
    assert(modifier_prefixed(t));
    assert(t.subrange(2, t.len() as int) =~= s);
}

/// Writing a key stroke in notation and parsing it gives the key stroke back.
pub proof fn lemma_notation_roundtrip(k: KeyStroke)
    requires
        notation_expressible(k),
    ensures
        notation_key(key_notation(k)) == Some(k),
{
    reveal_strlit("C-");
    reveal_strlit("A-");
    reveal_strlit("S-");
    lemma_code_label_roundtrip(k.code);
    let label = key_code_label(k.code);
    let m = k.modifiers;
    let base = KeyStroke { code: k.code, modifiers: no_modifiers() };
    assert(notation_key(label) == Some(base));
    let s1 = if m.shift { seq!['S', '-'] + label } else { label };
    if m.shift {
        lemma_prefix_step('S', label);
    }
    let k1 = KeyStroke { code: k.code, modifiers: KeyModifiers { shift: m.shift, ..no_modifiers() } };
    assert(notation_key(s1) == Some(k1));
    let s2 = if m.alt { seq!['A', '-'] + s1 } else { s1 };
    if m.alt {
        lemma_prefix_step('A', s1);
    }
    let k2 = KeyStroke { code: k.code, modifiers: KeyModifiers { shift: m.shift, alt: m.alt, ..no_modifiers() } };
    assert(notation_key(s2) == Some(k2));
    let s3 = if m.control { seq!['C', '-'] + s2 } else { s2 };
    if m.control {
        lemma_prefix_step('C', s2);
    }
    assert(notation_key(s3) == Some(k));
    assert(key_notation(k) =~= s3);
}

/// Ordered key strokes that must be typed to trigger one binding.
#[derive(Debug, PartialEq, Eq, Hash)]
pub struct KeySequence {
    keys: Vec<KeyStroke>,
}

impl Clone for KeySequence {
    fn clone(&self) -> (r: Self)
        ensures
            r@ == self@,
    {
        self.duplicate()
    }
}

impl View for KeySequence {
    type V = Seq<KeyStroke>;

    open spec fn view(&self) -> Seq<KeyStroke> {
        self.keys_view()
    }
}

impl KeySequence {
    /// The key strokes of this sequence.
    pub closed spec fn keys_view(&self) -> Seq<KeyStroke> {
        self.keys@
    }

    #[verifier::type_invariant]
    spec fn non_empty(&self) -> bool {
        self.keys@.len() > 0
    }

    /// A sequence of the given key strokes; refused when empty.
    pub fn new(keys: Vec<KeyStroke>) -> (r: Result<KeySequence, KeymapError>)
        ensures
            keys@.len() == 0 ==> r == Err::<KeySequence, KeymapError>(KeymapError::EmptyKeySequence),
            keys@.len() > 0 ==> (r matches Ok(s) && s@ == keys@),
    {
        if keys.len() == 0 {
            Err(KeymapError::EmptyKeySequence)
        } else {
            Ok(KeySequence { keys })
        }
    }

    /// A sequence of key strokes known to be non-empty.
    pub fn of(keys: Vec<KeyStroke>) -> (s: KeySequence)
        requires
            keys@.len() > 0,
        ensures
            s@ == keys@,
    {
        KeySequence { keys }
    }

    /// The key strokes of this sequence.
    pub fn as_slice(&self) -> (s: &[KeyStroke])
        ensures
            s@ == self@,
            s@.len() > 0,
    {
        proof {
            use_type_invariant(self);
        }
        self.keys.as_slice()
    }

    /// A copy of this sequence.
    pub fn duplicate(&self) -> (r: KeySequence)
        ensures
            r@ == self@,
    {
        proof {
            use_type_invariant(self);
        }
        KeySequence { keys: self.keys.clone() }
    }

    /// Parses a sequence of key notations; refused when empty or when one notation is invalid.
    pub fn parse(keys: &[&str]) -> (r: Result<KeySequence, KeymapError>)
        ensures
            keys@.len() == 0 ==> r == Err::<KeySequence, KeymapError>(KeymapError::EmptyKeySequence),
            (forall|i: int| 0 <= i < keys@.len() ==> notation_key(#[trigger] keys@[i]@) is Some)
                && keys@.len() > 0 ==> (r matches Ok(s) && s@.len() == keys@.len() && (forall|i: int|
                0 <= i < keys@.len() ==> Some(#[trigger] s@[i]) == notation_key(keys@[i]@))),
            r is Ok ==> forall|i: int| 0 <= i < keys@.len() ==> notation_key(#[trigger] keys@[i]@) is Some,
            (exists|i: int| 0 <= i < keys@.len() && notation_key(#[trigger] keys@[i]@) is None)
                ==> (r matches Err(KeymapError::InvalidKeyNotation(_, _))),
            forall|i: int|
                0 <= i < keys@.len() && notation_key(#[trigger] keys@[i]@) is None && (forall|j: int|
                    0 <= j < i ==> notation_key(#[trigger] keys@[j]@) is Some) ==> (r matches Err(
                    KeymapError::InvalidKeyNotation(v, _),
                ) && v@ == keys@[i]@),
    {
        let mut strokes: Vec<KeyStroke> = Vec::new();
        let mut i: usize = 0;
        while i < keys.len()
            invariant
                i <= keys@.len(),
                strokes@.len() == i,
                forall|j: int| 0 <= j < i ==> Some(#[trigger] strokes@[j]) == notation_key(keys@[j]@),
            decreases keys@.len() - i,
        {
            match KeyStroke::parse(keys[i]) {
                Ok(k) => strokes.push(k),
                Err(e) => {
                    proof {
                        assert(notation_key(keys@[i as int]@) is None);
                        assert forall|i2: int|
                            0 <= i2 < keys@.len() && notation_key(#[trigger] keys@[i2]@) is None && (forall|j: int|
                                0 <= j < i2 ==> notation_key(#[trigger] keys@[j]@) is Some) implies i2 == i by {
                            if i2 < i {
                                assert(Some(strokes@[i2]) == notation_key(keys@[i2]@));
                            }
                            if i2 > i {
                                assert(notation_key(keys@[i as int]@) is Some);
                            }
                        }
                    }
                    return Err(e);
                },
            }
            i += 1;
        }
        assert forall|j: int| 0 <= j < keys@.len() implies notation_key(#[trigger] keys@[j]@) is Some by {
            assert(Some(strokes@[j]) == notation_key(keys@[j]@));
        }
        KeySequence::new(strokes)
    }

    /// The notations of the key strokes, separated by spaces.
    pub fn to_notation(&self) -> (s: String)
        ensures
            s@ == sequence_notation(self@),
    {
        let mut out = String::new();
        let mut i: usize = 0;
        while i < self.keys.len()
            invariant
                i <= self.keys@.len(),
                out@ == sequence_notation(self@.take(i as int)),
                self@ == self.keys@,
            decreases self.keys@.len() - i,
        {
            if i > 0 {
                out.append(" ");
            }
            let n = self.keys[i].to_notation();
            out.append(n.as_str());
            proof {
                assert(self@.take(i + 1).drop_last() =~= self@.take(i as int));
                reveal_strlit(" ");
            }
            i += 1;
        }
        assert(self@.take(self@.len() as int) =~= self@);
        out
    }
}

/// The notations of key strokes separated by spaces.
pub open spec fn sequence_notation(keys: Seq<KeyStroke>) -> Seq<char>
    decreases keys.len(),
{
    if keys.len() == 0 {
        Seq::<char>::empty()
    } else if keys.len() == 1 {
        key_notation(keys[0])
    } else {
        sequence_notation(keys.drop_last()) + seq![' '] + key_notation(keys.last())
    }
}

/// The characters of an optional text.
pub open spec fn text_view(t: Option<String>) -> Option<Seq<char>> {
    match t {
        Some(s) => Some(s@),
        None => None,
    }
}

/// The characters of an optional borrowed text.
pub open spec fn str_view(t: Option<&str>) -> Option<Seq<char>> {
    match t {
        Some(s) => Some(s@),
        None => None,
    }
}

/// Static binding from a key sequence to a command id.
#[derive(Debug, PartialEq, Eq)]
pub struct KeyBinding {
    pub on: KeySequence,
    pub command: CommandId,
    pub desc: Option<String>,
}

impl Clone for KeyBinding {
    fn clone(&self) -> (r: Self)
        ensures
            r@ == self@,
    {
        KeyBinding { on: self.on.duplicate(), command: self.command, desc: self.desc.clone() }
    }
}

impl View for KeyBinding {
    type V = (Seq<KeyStroke>, CommandId, Option<Seq<char>>);

    open spec fn view(&self) -> (Seq<KeyStroke>, CommandId, Option<Seq<char>>) {
        (self.on@, self.command, text_view(self.desc))
    }
}

impl KeyBinding {
    /// A binding of a key sequence to a command.
    pub fn new(on: KeySequence, command: CommandId, desc: Option<String>) -> (b: KeyBinding)
        ensures
            b.on == on,
            b.command == command,
            b.desc == desc,
    {
        KeyBinding { on, command, desc }
    }
}

} // verus!
