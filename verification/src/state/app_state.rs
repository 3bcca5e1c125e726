//! What the application itself is doing: the view shown, the input mode,
//! and the line being typed.

use vstd::prelude::*;
use vstd::utf8::{encode_utf8, is_char_boundary};
use crate::state::Notification;

verus! {

/// The view shown.
#[derive(Debug, Clone, Copy, PartialEq, Eq, Structural)]
pub enum Screen {
    Markets,
    MarketDetail,
    OrderBook,
    Orders,
    OrderEntry,
    Positions,
    Portfolio,
    Settings,
}

impl Default for Screen {
    fn default() -> (r: Self)
        ensures
            r == Screen::Markets,
    {
        Screen::Markets
    }
}

/// How keys are read.
#[derive(Debug, Clone, Copy, PartialEq, Eq, Structural)]
pub enum InputMode {
    Normal,
    Insert,
    Command,
    Search,
}

impl Default for InputMode {
    fn default() -> (r: Self)
        ensures
            r == InputMode::Normal,
    {
        InputMode::Normal
    }
}

/// What the user may do.
#[derive(Debug, Clone, Copy, PartialEq, Eq, Structural)]
pub enum AppMode {
    Browse,
    Trade,
    ViewOnly,
}

impl Default for AppMode {
    fn default() -> (r: Self)
        ensures
            r == AppMode::Browse,
    {
        AppMode::Browse
    }
}

/// The state of the application itself.
#[derive(Debug)]
pub struct AppState {
    pub current_view: Screen,
    pub input_mode: InputMode,
    pub mode: AppMode,
    pub show_help: bool,
    pub notification: Option<Notification>,
    pub error: Option<String>,
    pub loading: bool,
    pub connected: bool,
    pub should_quit: bool,
    /// The line being typed.
    pub input_buffer: String,
    /// The cursor, as a byte offset into the line.
    pub cursor_position: usize,
}

/// `String::insert`: puts the character's bytes in at the byte offset `at`,
/// which must lie on a character boundary of the text.
#[verifier::external_body]
fn insert_char(text: &mut String, at: usize, c: char)
    requires
        at <= encode_utf8(old(text)@).len(),
        is_char_boundary(encode_utf8(old(text)@), at as int),
    ensures
        encode_utf8(final(text)@) == encode_utf8(old(text)@).subrange(0, at as int) + encode_utf8(
            seq![c],
        ) + encode_utf8(old(text)@).subrange(at as int, encode_utf8(old(text)@).len() as int),
{
    text.insert(at, c)
}

/// `String::remove`: takes out the character that starts at the byte offset
/// `at`, which must lie on a character boundary before the end of the text,
/// and returns it. The bytes before `at` stay, and those behind the
/// character move up to `at`: the old text is the new one with the
/// character's bytes put in at `at`, which lies within the new text.
#[verifier::external_body]
fn remove_char(text: &mut String, at: usize) -> (c: char)
    requires
        at < encode_utf8(old(text)@).len(),
        is_char_boundary(encode_utf8(old(text)@), at as int),
    ensures
        at <= encode_utf8(final(text)@).len(),
        encode_utf8(old(text)@) == encode_utf8(final(text)@).subrange(0, at as int) + encode_utf8(
            seq![c],
        ) + encode_utf8(final(text)@).subrange(at as int, encode_utf8(final(text)@).len() as int),
{
    text.remove(at)
}

impl AppState {
    /// The state at the start: the markets view, normal input, browsing,
    /// not connected, an empty line.
    pub fn new() -> (r: Self)
        ensures
            r.current_view == Screen::Markets,
            r.input_mode == InputMode::Normal,
            r.mode == AppMode::Browse,
            !r.show_help,
            r.notification is None,
            r.error is None,
            !r.loading,
            !r.connected,
            !r.should_quit,
            r.input_buffer@.len() == 0,
            r.cursor_position == 0,
    {
        AppState {
            current_view: Screen::Markets,
            input_mode: InputMode::Normal,
            mode: AppMode::Browse,
            show_help: false,
            notification: None,
            error: None,
            loading: false,
            connected: false,
            should_quit: false,
            input_buffer: String::new(),
            cursor_position: 0,
        }
    }

    /// Whether a line is being typed: the mode is insert, command or search.
    pub fn is_editing(&self) -> (r: bool)
        ensures
            r == (self.input_mode != InputMode::Normal),
    {
        match self.input_mode {
            InputMode::Insert | InputMode::Command | InputMode::Search => true,
            InputMode::Normal => false,
        }
    }

    /// Empties the line.
    pub fn clear_input(&mut self)
        ensures
            final(self).input_buffer@.len() == 0,
            final(self).cursor_position == 0,
            final(self).same_but_line(old(self)),
    {
        self.input_buffer = String::new();
        self.cursor_position = 0;
    }

    /// Whether `other` is this state but for the line and the cursor.
    pub open spec fn same_but_line(&self, other: &AppState) -> bool {
        &&& self.current_view == other.current_view
        &&& self.input_mode == other.input_mode
        &&& self.mode == other.mode
        &&& self.show_help == other.show_help
        &&& self.notification == other.notification
        &&& self.error == other.error
        &&& self.loading == other.loading
        &&& self.connected == other.connected
        &&& self.should_quit == other.should_quit
    }

    /// The bytes of the line.
    pub open spec fn line(&self) -> Seq<u8> {
        encode_utf8(self.input_buffer@)
    }

    /// Whether the cursor stands where a character can be put in: on a
    /// character boundary of the line.
    pub open spec fn cursor_on_boundary(&self) -> bool {
        self.cursor_position <= self.line().len() && is_char_boundary(
            self.line(),
            self.cursor_position as int,
        )
    }

    /// Puts `c` in at the cursor and moves the cursor one byte on.
    pub fn push_char(&mut self, c: char)
        requires
            old(self).cursor_on_boundary(),
            old(self).cursor_position < usize::MAX,
        ensures
            final(self).line() == Self::line_with(
                old(self).line(),
                old(self).cursor_position as int,
                c,
            ),
            final(self).cursor_position == old(self).cursor_position + 1,
            final(self).same_but_line(old(self)),
    {
        insert_char(&mut self.input_buffer, self.cursor_position, c);
        self.cursor_position += 1;
    }

    /// Whether the byte before the cursor starts a character of the line.
    pub open spec fn can_pop(&self) -> bool {
        self.cursor_position == 0 || (self.cursor_position <= self.line().len()
            && is_char_boundary(self.line(), self.cursor_position - 1))
    }

    /// The line with the character `c` put in at the byte offset `at`.
    pub open spec fn line_with(line: Seq<u8>, at: int, c: char) -> Seq<u8> {
        line.subrange(0, at) + encode_utf8(seq![c]) + line.subrange(at, line.len() as int)
    }

    /// The line without the `n` bytes that start at the byte offset `at`.
    pub open spec fn line_without(line: Seq<u8>, at: int, n: int) -> Seq<u8> {
        line.subrange(0, at) + line.subrange(at + n, line.len() as int)
    }

    /// Whether `short` is `long` without the character `c`, whose bytes
    /// stand in `long` at the byte offset `at`.
    pub open spec fn taken_out(long: Seq<u8>, short: Seq<u8>, at: int, c: char) -> bool {
        let n = encode_utf8(seq![c]).len() as int;
        &&& 0 <= at <= short.len()
        &&& at + n <= long.len()
        &&& long.subrange(at, at + n) == encode_utf8(seq![c])
        &&& short == Self::line_without(long, at, n)
        &&& long == Self::line_with(short, at, c)
    }

    /// Moves the cursor one byte back and takes out the character there:
    /// the line loses that character's bytes and is otherwise as it was.
    /// With the cursor at the start nothing happens.
    pub fn pop_char(&mut self)
        requires
            old(self).can_pop(),
        ensures
            old(self).cursor_position == 0 ==> final(self).line() == old(self).line(),
            old(self).cursor_position == 0 ==> final(self).cursor_position == 0,
            old(self).cursor_position > 0 ==> final(self).cursor_position == old(self).cursor_position
                - 1,
            old(self).cursor_position > 0 ==> final(self).cursor_position <= final(self).line().len(),
            old(self).cursor_position > 0 ==> exists|c: char| #[trigger]
                Self::taken_out(old(self).line(), final(self).line(), old(self).cursor_position - 1, c),
            final(self).same_but_line(old(self)),
    {
        if self.cursor_position > 0 {
            self.cursor_position -= 1;
            let c = remove_char(&mut self.input_buffer, self.cursor_position);
            proof {
                let at = old(self).cursor_position - 1;
                let long = old(self).line();
                let short = self.line();
                let n = encode_utf8(seq![c]).len() as int;
                assert(long == Self::line_with(short, at, c));
                assert(long.len() == short.len() + n);
                assert(long.subrange(at, at + n) =~= encode_utf8(seq![c]));
                assert(short =~= Self::line_without(long, at, n));
                assert(Self::taken_out(long, short, at, c));
            }
        }
    }

    /// Moves the cursor one byte back, if it is not at the start.
    pub fn cursor_left(&mut self)
        ensures
            final(self).cursor_position == if old(self).cursor_position > 0 {
                old(self).cursor_position - 1
            } else {
                0
            },
            final(self).input_buffer == old(self).input_buffer,
            final(self).same_but_line(old(self)),
    {
        if self.cursor_position > 0 {
            self.cursor_position -= 1;
        }
    }

    /// Moves the cursor one byte on, if it is not at the end.
    pub fn cursor_right(&mut self)
        ensures
            final(self).cursor_position == if old(self).cursor_position < old(self).line().len() as usize {
                (old(self).cursor_position + 1) as usize
            } else {
                old(self).cursor_position
            },
            final(self).input_buffer == old(self).input_buffer,
            final(self).same_but_line(old(self)),
    {
        if self.cursor_position < self.input_buffer.as_str().len() {
            self.cursor_position += 1;
        }
    }
}

impl Default for AppState {
    fn default() -> (r: Self)
        ensures
            r.current_view == Screen::Markets,
            r.input_mode == InputMode::Normal,
            r.mode == AppMode::Browse,
            !r.show_help,
            r.notification is None,
            r.error is None,
            !r.loading,
            !r.connected,
            !r.should_quit,
            r.input_buffer@.len() == 0,
            r.cursor_position == 0,
    {
        Self::new()
    }
}

} // verus!
