//! The library's own model of a decoded key event, and the key classes the
//! widgets react to. Modifier-decorated arrows from the terminal decoder are
//! collapsed onto their plain arrow before they reach the widgets; anything
//! the widgets have no use for arrives as `Other`.

use vstd::prelude::*;

verus! {

/// One decoded key event.
#[derive(Debug, Clone, Copy, PartialEq, Eq, Structural)]
pub enum Key {
    /// A character key; Enter arrives as the newline character.
    Char(char),
    Left,
    Right,
    Down,
    Esc,
    Backspace,
    /// Any key the widgets do not react to.
    Other,
}

/// Keys that cancel a selection widget: `q`, `e`, or Escape.
pub open spec fn is_quit_key(key: Key) -> bool {
    key == Key::Char('q') || key == Key::Char('e') || key == Key::Esc
}

/// Keys that move the selection left: `a`, `h`, or the left arrow.
pub open spec fn is_left_key(key: Key) -> bool {
    key == Key::Char('a') || key == Key::Char('h') || key == Key::Left
}

/// Keys that move the selection right: `d`, `l`, or the right arrow.
pub open spec fn is_right_key(key: Key) -> bool {
    key == Key::Char('d') || key == Key::Char('l') || key == Key::Right
}

/// Keys that commit the current value: Enter, `j`, `s`, or the down arrow.
pub open spec fn is_commit_key(key: Key) -> bool {
    key == Key::Char('\n') || key == Key::Char('j') || key == Key::Char('s') || key == Key::Down
}

impl Key {
    pub fn quits(&self) -> (r: bool)
        ensures
            r == is_quit_key(*self),
    {
        match self {
            Key::Char(c) => *c == 'q' || *c == 'e',
            Key::Esc => true,
            _ => false,
        }
    }

    pub fn moves_left(&self) -> (r: bool)
        ensures
            r == is_left_key(*self),
    {
        match self {
            Key::Char(c) => *c == 'a' || *c == 'h',
            Key::Left => true,
            _ => false,
        }
    }

    pub fn moves_right(&self) -> (r: bool)
        ensures
            r == is_right_key(*self),
    {
        match self {
            Key::Char(c) => *c == 'd' || *c == 'l',
            Key::Right => true,
            _ => false,
        }
    }

    pub fn commits(&self) -> (r: bool)
        ensures
            r == is_commit_key(*self),
    {
        match self {
            Key::Char(c) => *c == '\n' || *c == 'j' || *c == 's',
            Key::Down => true,
            _ => false,
        }
    }
}

} // verus!
