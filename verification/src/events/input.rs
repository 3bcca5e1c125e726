//! Keys as the application reads them.

use vstd::prelude::*;
use vstd::string::StrSliceExecFns;
use vstd::utf8::encode_utf8;
use crate::text::{
    ascii_uppercase, lowercase_text, parse_u8, parsed_u8, split_on, split_text, str_eq, texts,
    to_ascii_uppercase, to_lowercase,
};

verus! {

/// A key.
#[derive(Debug, Clone, Copy, PartialEq, Eq, Hash, Structural)]
pub enum Key {
    Char(char),
    Enter,
    Escape,
    Backspace,
    Delete,
    Tab,
    BackTab,
    Up,
    Down,
    Left,
    Right,
    Home,
    End,
    PageUp,
    PageDown,
    F(u8),
}

/// The modifier keys held with a key.
#[derive(Debug, Clone, Copy, PartialEq, Eq, Hash, Structural)]
pub struct Modifiers {
    pub ctrl: bool,
    pub alt: bool,
    pub shift: bool,
}

impl Default for Modifiers {
    fn default() -> (r: Self)
        ensures
            !r.ctrl,
            !r.alt,
            !r.shift,
    {
        Modifiers { ctrl: false, alt: false, shift: false }
    }
}

/// A key with its modifiers.
#[derive(Debug, Clone, Copy, PartialEq, Eq, Structural)]
pub struct InputEvent {
    pub key: Key,
    pub modifiers: Modifiers,
}

impl InputEvent {
    pub fn new(key: Key, modifiers: Modifiers) -> (r: Self)
        ensures
            r.key == key,
            r.modifiers == modifiers,
    {
        InputEvent { key, modifiers }
    }

    /// Whether the key is a character.
    pub fn is_char(&self) -> (r: bool)
        ensures
            r == (self.key is Char),
    {
        match self.key {
            Key::Char(_) => true,
            _ => false,
        }
    }

    /// The character, where the key is one.
    pub fn char(&self) -> (r: Option<char>)
        ensures
            r == match self.key {
                Key::Char(c) => Some(c),
                _ => None,
            },
    {
        match self.key {
            Key::Char(c) => Some(c),
            _ => None,
        }
    }

    /// Whether Ctrl is held.
    pub fn ctrl(&self) -> (r: bool)
        ensures
            r == self.modifiers.ctrl,
    {
        self.modifiers.ctrl
    }

    /// Whether Alt is held.
    pub fn alt(&self) -> (r: bool)
        ensures
            r == self.modifiers.alt,
    {
        self.modifiers.alt
    }

    /// Whether Shift is held.
    pub fn shift(&self) -> (r: bool)
        ensures
            r == self.modifiers.shift,
    {
        self.modifiers.shift
    }

    /// Whether the event is the key that `binding` names: a key name, a
    /// single character or `F` with a number, with `Ctrl+`, `Alt+` and
    /// `Shift+` before it in any order and any case. The modifiers must be
    /// exactly those named.
    pub fn matches(&self, binding: &str) -> (r: bool)
        ensures
            r == binding_matches(*self, binding@),
    {
        let parts = split_on(binding, '+');
        let mut expected = Expected { ctrl: false, alt: false, shift: false, key: String::new() };
        let mut i: usize = 0;
        proof {
            reveal_strlit("");
            assert(expected.key@ =~= Seq::<char>::empty());
        }
        while i < parts.len()
            invariant
                i <= parts@.len(),
                texts(parts@) == split_text(binding@, '+'),
                expected@ == expected_of(texts(parts@), i as nat),
            decreases parts@.len() - i,
        {
            let lower = to_lowercase(parts[i].as_str());
            proof {
                assert(texts(parts@)[i as int] == parts@[i as int]@);
            }
            if str_eq(lower.as_str(), "ctrl") {
                expected.ctrl = true;
            } else if str_eq(lower.as_str(), "alt") {
                expected.alt = true;
            } else if str_eq(lower.as_str(), "shift") {
                expected.shift = true;
            } else {
                expected.key = parts[i].clone();
            }
            i += 1;
        }
        if self.modifiers.ctrl != expected.ctrl || self.modifiers.alt != expected.alt
            || self.modifiers.shift != expected.shift {
            return false;
        }
        let name = to_lowercase(expected.key.as_str());
        self.key.is_named(name.as_str())
    }
}

/// What a binding asks for.
pub struct Expected {
    pub ctrl: bool,
    pub alt: bool,
    pub shift: bool,
    pub key: String,
}

/// What a binding asks for, as a value.
pub struct ExpectedView {
    pub ctrl: bool,
    pub alt: bool,
    pub shift: bool,
    pub key: Seq<char>,
}

impl View for Expected {
    type V = ExpectedView;

    open spec fn view(&self) -> ExpectedView {
        ExpectedView { ctrl: self.ctrl, alt: self.alt, shift: self.shift, key: self.key@ }
    }
}

/// What the first `n` pieces of a binding ask for: each piece that is
/// `ctrl`, `alt` or `shift` in any case asks for that modifier, the last
/// other piece is the key.
pub open spec fn expected_of(parts: Seq<Seq<char>>, n: nat) -> ExpectedView
    decreases n,
{
    if n == 0 {
        ExpectedView { ctrl: false, alt: false, shift: false, key: Seq::empty() }
    } else {
        let before = expected_of(parts, (n - 1) as nat);
        let lower = lowercase_text(parts[n - 1]);
        if lower == "ctrl"@ {
            ExpectedView { ctrl: true, ..before }
        } else if lower == "alt"@ {
            ExpectedView { alt: true, ..before }
        } else if lower == "shift"@ {
            ExpectedView { shift: true, ..before }
        } else {
            ExpectedView { key: parts[n - 1], ..before }
        }
    }
}

/// Whether `key` is the key that `name`, a text in lower case, names.
pub open spec fn key_named(key: Key, name: Seq<char>) -> bool {
    if name == "enter"@ {
        key == Key::Enter
    } else if name == "esc"@ || name == "escape"@ {
        key == Key::Escape
    } else if name == "backspace"@ {
        key == Key::Backspace
    } else if name == "delete"@ || name == "del"@ {
        key == Key::Delete
    } else if name == "tab"@ {
        key == Key::Tab
    } else if name == "up"@ {
        key == Key::Up
    } else if name == "down"@ {
        key == Key::Down
    } else if name == "left"@ {
        key == Key::Left
    } else if name == "right"@ {
        key == Key::Right
    } else if name == "home"@ {
        key == Key::Home
    } else if name == "end"@ {
        key == Key::End
    } else if name == "pageup"@ {
        key == Key::PageUp
    } else if name == "pagedown"@ {
        key == Key::PageDown
    } else if name.len() > 0 && name[0] == 'f' && encode_utf8(name).len() <= 3 {
        match parsed_u8(name.subrange(1, name.len() as int)) {
            Some(n) => key == Key::F(n),
            None => false,
        }
    } else if encode_utf8(name).len() == 1 && name.len() > 0 {
        key == Key::Char(name[0]) || key == Key::Char(ascii_uppercase(name[0]))
    } else {
        false
    }
}

/// Whether `event` is the key that `binding` names, with exactly the
/// modifiers that it names.
pub open spec fn binding_matches(event: InputEvent, binding: Seq<char>) -> bool {
    let parts = split_text(binding, '+');
    let expected = expected_of(parts, parts.len());
    event.modifiers.ctrl == expected.ctrl && event.modifiers.alt == expected.alt
        && event.modifiers.shift == expected.shift && key_named(
        event.key,
        lowercase_text(expected.key),
    )
}

impl Key {
    /// Whether this is the key that `name`, a text in lower case, names.
    pub fn is_named(&self, name: &str) -> (r: bool)
        ensures
            r == key_named(*self, name@),
    {
        if str_eq(name, "enter") {
            *self == Key::Enter
        } else if str_eq(name, "esc") || str_eq(name, "escape") {
            *self == Key::Escape
        } else if str_eq(name, "backspace") {
            *self == Key::Backspace
        } else if str_eq(name, "delete") || str_eq(name, "del") {
            *self == Key::Delete
        } else if str_eq(name, "tab") {
            *self == Key::Tab
        } else if str_eq(name, "up") {
            *self == Key::Up
        } else if str_eq(name, "down") {
            *self == Key::Down
        } else if str_eq(name, "left") {
            *self == Key::Left
        } else if str_eq(name, "right") {
            *self == Key::Right
        } else if str_eq(name, "home") {
            *self == Key::Home
        } else if str_eq(name, "end") {
            *self == Key::End
        } else if str_eq(name, "pageup") {
            *self == Key::PageUp
        } else if str_eq(name, "pagedown") {
            *self == Key::PageDown
        } else {
            let chars = name.unicode_len();
            let bytes = name.as_bytes().len();
            if chars > 0 && name.get_char(0) == 'f' && bytes <= 3 {
                match parse_u8(name.substring_char(1, chars)) {
                    Some(n) => *self == Key::F(n),
                    None => false,
                }
            } else if bytes == 1 && chars > 0 {
                let c = name.get_char(0);
                *self == Key::Char(c) || *self == Key::Char(to_ascii_uppercase(c))
            } else {
                false
            }
        }
    }
}

} // verus!
