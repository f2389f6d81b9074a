//! Render surface: the fixed table of ANSI escape codes, and helpers that
//! append color-on / text / color-reset segments to a frame under
//! construction. A frame is plain bytes (as a `String`); writing it to the
//! terminal and flushing is the caller's side of the boundary.

use vstd::prelude::*;
use vstd::string::StringExecFns;

verus! {

/// Relies on `alloc::string::String::push`: appends the given character to
/// the end of the string.
pub assume_specification[ String::push ](s: &mut String, ch: char)
    ensures
        final(s)@ == old(s)@.push(ch),
;

/// Relies on `alloc::string::String::pop`: removes the last character from
/// the string and returns it, or returns `None` if the string is empty.
pub assume_specification[ String::pop ](s: &mut String) -> (r: Option<char>)
    ensures
        old(s)@.len() == 0 ==> r is None && final(s)@ == old(s)@,
        old(s)@.len() > 0 ==> r == Some(old(s)@.last()) && final(s)@ == old(s)@.drop_last(),
;

/// The closed set of color roles a segment can be drawn in.
#[derive(Debug, Clone, Copy, PartialEq, Eq, Structural)]
pub enum ColorRole {
    /// An unselected, still selectable item.
    Normal,
    /// Separator glyphs between sibling items.
    Separator,
    /// The current selection while still editable.
    Highlight,
    /// The resolved value in a sealed frame.
    SelectedFinal,
    /// A sealed frame with no value chosen, or a lone unchosen option.
    Fail,
}

/// The escape emitted once before the first frame of an interaction.
pub open spec fn save_cursor() -> Seq<char> {
    "\x1b[s"@
}

/// The escape every later frame starts with, returning to the anchor.
pub open spec fn restore_cursor() -> Seq<char> {
    "\x1b[u"@
}

/// The SGR reset emitted after every colored segment.
pub open spec fn reset_color() -> Seq<char> {
    "\x1b[0m"@
}

/// The SGR color-on code of each role.
pub open spec fn role_code(role: ColorRole) -> Seq<char> {
    match role {
        ColorRole::Normal => "\x1b[37m"@,
        ColorRole::Separator => "\x1b[90m"@,
        ColorRole::Highlight => "\x1b[47;30m"@,
        ColorRole::SelectedFinal => "\x1b[32;5;1m"@,
        ColorRole::Fail => "\x1b[38;5;1m"@,
    }
}

/// One rendered segment: color on, the text, color reset.
pub open spec fn segment(role: ColorRole, text: Seq<char>) -> Seq<char> {
    role_code(role) + text + reset_color()
}

/// `text` repeated `n` times.
pub open spec fn repeated(text: Seq<char>, n: nat) -> Seq<char>
    decreases n,
{
    if n == 0 {
        Seq::empty()
    } else {
        repeated(text, (n - 1) as nat) + text
    }
}

pub fn save_cursor_str() -> (r: &'static str)
    ensures
        r@ == save_cursor(),
{
    "\x1b[s"
}

pub fn restore_cursor_str() -> (r: &'static str)
    ensures
        r@ == restore_cursor(),
{
    "\x1b[u"
}

pub fn role_code_str(role: ColorRole) -> (r: &'static str)
    ensures
        r@ == role_code(role),
{
    match role {
        ColorRole::Normal => "\x1b[37m",
        ColorRole::Separator => "\x1b[90m",
        ColorRole::Highlight => "\x1b[47;30m",
        ColorRole::SelectedFinal => "\x1b[32;5;1m",
        ColorRole::Fail => "\x1b[38;5;1m",
    }
}

/// Append one color-on / text / color-reset triple to the frame.
pub fn write_segment(out: &mut String, role: ColorRole, text: &str)
    ensures
        final(out)@ == old(out)@ + segment(role, text@),
{
    out.append(role_code_str(role));
    out.append(text);
    out.append("\x1b[0m");
    assert(out@ =~= old(out)@ + segment(role, text@));
}

/// Append a segment whose text is `glyph` repeated `n` times.
pub fn write_run(out: &mut String, role: ColorRole, glyph: &str, n: usize)
    ensures
        final(out)@ == old(out)@ + segment(role, repeated(glyph@, n as nat)),
{
    out.append(role_code_str(role));
    assert(out@ =~= old(out)@ + role_code(role) + repeated(glyph@, 0));
    let mut i: usize = 0;
    while i < n
        invariant
            i <= n,
            out@ == old(out)@ + role_code(role) + repeated(glyph@, i as nat),
        decreases n - i,
    {
        out.append(glyph);
        assert(repeated(glyph@, (i + 1) as nat) == repeated(glyph@, i as nat) + glyph@);
        assert(out@ =~= old(out)@ + role_code(role) + repeated(glyph@, (i + 1) as nat));
        i = i + 1;
    }
    out.append("\x1b[0m");
    assert(out@ =~= old(out)@ + segment(role, repeated(glyph@, n as nat)));
}

/// Append a segment whose text is `glyph` repeated `n + 1` times; counting
/// one past `n` here keeps the count well-defined even when `n` is the full
/// machine-word range.
pub fn write_run_succ(out: &mut String, role: ColorRole, glyph: &str, n: usize)
    ensures
        final(out)@ == old(out)@ + segment(role, repeated(glyph@, n as nat + 1)),
{
    out.append(role_code_str(role));
    out.append(glyph);
    assert(repeated(glyph@, 0) == Seq::<char>::empty());
    assert(out@ =~= old(out)@ + role_code(role) + repeated(glyph@, 1));
    let mut i: usize = 0;
    while i < n
        invariant
            i <= n,
            out@ == old(out)@ + role_code(role) + repeated(glyph@, i as nat + 1),
        decreases n - i,
    {
        out.append(glyph);
        assert(repeated(glyph@, i as nat + 2) == repeated(glyph@, i as nat + 1) + glyph@);
        assert(out@ =~= old(out)@ + role_code(role) + repeated(glyph@, i as nat + 2));
        i = i + 1;
    }
    out.append("\x1b[0m");
    assert(out@ =~= old(out)@ + segment(role, repeated(glyph@, n as nat + 1)));
}

} // verus!
