//! The free-text line editor: an append/pop character buffer edited with
//! printable keys and backspace, committed with the enter/down family,
//! canceled with escape. Committing an empty buffer is its own outcome,
//! distinct both from an answer and from cancellation.

use vstd::prelude::*;
use vstd::string::StringExecFns;

use crate::key::Key;
use crate::render;
use crate::render::ColorRole;

verus! {

/// What one key event did to the line editor.
#[derive(Debug, Clone, Copy, PartialEq, Eq, Structural)]
pub enum TextStep {
    /// The key is not one the editor reacts to; nothing changed.
    Ignored,
    /// A character was appended; the editor should be re-rendered.
    Edited,
    /// The last character was popped (a no-op on an empty buffer); the
    /// on-screen cell should be erased and the editor re-rendered.
    Erased,
    /// The user committed a non-empty buffer; the interaction is over.
    Committed,
    /// The user committed an empty buffer: the empty-input outcome.
    EmptyCommit,
    /// The user canceled; the interaction is over with no value.
    Canceled,
}

/// Keys that pop the last character: backspace or the left-arrow family.
pub open spec fn is_erase_key(key: Key) -> bool {
    key == Key::Backspace || key == Key::Left
}

/// Keys that commit the buffer: Enter or the down-arrow family.
pub open spec fn is_text_commit_key(key: Key) -> bool {
    key == Key::Char('\n') || key == Key::Down
}

/// The buffer with its last character popped; popping an empty buffer is a
/// no-op.
pub open spec fn popped(buf: Seq<char>) -> Seq<char> {
    if buf.len() == 0 {
        buf
    } else {
        buf.drop_last()
    }
}

/// The full transition relation of the line editor: the buffer after the
/// key, and what the key did. Escape cancels; erase keys pop; commit keys
/// end the interaction, reporting an empty buffer as its own outcome; any
/// other character is appended; named keys the editor has no use for are
/// ignored.
pub open spec fn spec_text_step(buf: Seq<char>, key: Key) -> (Seq<char>, TextStep) {
    if key == Key::Esc {
        (buf, TextStep::Canceled)
    } else if is_erase_key(key) {
        (popped(buf), TextStep::Erased)
    } else if is_text_commit_key(key) {
        if buf.len() == 0 {
            (buf, TextStep::EmptyCommit)
        } else {
            (buf, TextStep::Committed)
        }
    } else {
        match key {
            Key::Char(c) => (buf.push(c), TextStep::Edited),
            _ => (buf, TextStep::Ignored),
        }
    }
}

/// The line editor mid-interaction: the label shown in front of the input,
/// and the buffer typed so far.
#[derive(Debug)]
pub struct Text {
    ask: String,
    buffer: String,
}

/// A live frame: restore to the anchor, then the bracketed label and the
/// buffer as typed, uncolored.
pub open spec fn text_live_frame(ask: Seq<char>, buf: Seq<char>) -> Seq<char> {
    render::restore_cursor() + "["@ + ask + "]: "@ + buf
}

/// A sealed frame. A committed non-empty buffer is shown in the final
/// color; a committed empty buffer seals the bare label in the final color
/// with no content; cancellation seals the label itself in the failure
/// color with no content.
pub open spec fn text_sealed_frame(ask: Seq<char>, buf: Seq<char>, committed: bool) -> Seq<char> {
    if committed {
        if buf.len() == 0 {
            render::restore_cursor() + "["@ + ask + "]"@ + render::segment(
                ColorRole::SelectedFinal,
                ":"@,
            ) + "\r\n"@
        } else {
            render::restore_cursor() + "["@ + ask + "]: "@ + render::segment(
                ColorRole::SelectedFinal,
                buf,
            ) + "\r\n"@
        }
    } else {
        render::restore_cursor() + "["@ + render::segment(ColorRole::Fail, ask) + "]"@
            + render::segment(ColorRole::Fail, ":"@) + "\r\n"@
    }
}

/// The bytes that wipe the on-screen cell of a popped character:
/// backspace, space, backspace.
pub open spec fn erase_cell() -> Seq<char> {
    "\u{8} \u{8}"@
}

pub fn erase_cell_str() -> (r: &'static str)
    ensures
        r@ == erase_cell(),
{
    "\u{8} \u{8}"
}

impl Text {
    /// The label shown in front of the input.
    pub closed spec fn spec_ask(&self) -> Seq<char> {
        self.ask@
    }

    /// The characters typed so far.
    pub closed spec fn spec_buffer(&self) -> Seq<char> {
        self.buffer@
    }

    /// Build a line editor for the label `ask`, with an empty buffer.
    pub fn new(ask: &str) -> (t: Text)
        ensures
            t.spec_ask() == ask@,
            t.spec_buffer() == Seq::<char>::empty(),
    {
        Text { ask: ask.to_owned(), buffer: String::new() }
    }

    /// The buffer typed so far.
    pub fn buffer(&self) -> (r: &String)
        ensures
            r@ == self.spec_buffer(),
    {
        &self.buffer
    }

    /// Give up the editor and keep the typed buffer.
    pub fn into_buffer(self) -> (r: String)
        ensures
            r@ == self.spec_buffer(),
    {
        self.buffer
    }

    /// Apply one key event. The label never changes; the buffer changes
    /// exactly as the transition relation says.
    pub fn step(&mut self, key: Key) -> (r: TextStep)
        ensures
            final(self).spec_ask() == old(self).spec_ask(),
            (final(self).spec_buffer(), r) == spec_text_step(old(self).spec_buffer(), key),
    {
        if key == Key::Esc {
            TextStep::Canceled
        } else if key == Key::Backspace || key == Key::Left {
            self.buffer.pop();
            TextStep::Erased
        } else if key == Key::Char('\n') || key == Key::Down {
            if self.buffer.as_str().is_empty() {
                TextStep::EmptyCommit
            } else {
                TextStep::Committed
            }
        } else {
            match key {
                Key::Char(c) => {
                    self.buffer.push(c);
                    TextStep::Edited
                },
                _ => TextStep::Ignored,
            }
        }
    }

    /// The live frame for the current state.
    pub fn render(&self) -> (r: String)
        ensures
            r@ == text_live_frame(self.spec_ask(), self.spec_buffer()),
    {
        let mut out = String::new();
        out.append(render::restore_cursor_str());
        out.append("[");
        out.append(self.ask.as_str());
        out.append("]: ");
        out.append(self.buffer.as_str());
        assert(out@ =~= text_live_frame(self.spec_ask(), self.spec_buffer()));
        out
    }

    /// The sealed frame: for a commit (empty or not) or for cancellation.
    pub fn seal(&self, committed: bool) -> (r: String)
        ensures
            r@ == text_sealed_frame(self.spec_ask(), self.spec_buffer(), committed),
    {
        let mut out = String::new();
        out.append(render::restore_cursor_str());
        if committed {
            if self.buffer.as_str().is_empty() {
                out.append("[");
                out.append(self.ask.as_str());
                out.append("]");
                render::write_segment(&mut out, ColorRole::SelectedFinal, ":");
            } else {
                out.append("[");
                out.append(self.ask.as_str());
                out.append("]: ");
                render::write_segment(&mut out, ColorRole::SelectedFinal, self.buffer.as_str());
            }
        } else {
            out.append("[");
            render::write_segment(&mut out, ColorRole::Fail, self.ask.as_str());
            out.append("]");
            render::write_segment(&mut out, ColorRole::Fail, ":");
        }
        out.append("\r\n");
        assert(out@ =~= text_sealed_frame(self.spec_ask(), self.spec_buffer(), committed));
        out
    }
}

/// Placeholder for a dispatching front over line editors; it carries no
/// state of its own.
pub struct TextDispatch;

/// The buffer after `n` pops.
pub open spec fn pop_n(buf: Seq<char>, n: nat) -> Seq<char>
    decreases n,
{
    if n == 0 {
        buf
    } else {
        pop_n(popped(buf), (n - 1) as nat)
    }
}

/// The buffer after a whole sequence of key events.
pub open spec fn buffer_after(buf: Seq<char>, keys: Seq<Key>) -> Seq<char>
    decreases keys.len(),
{
    if keys.len() == 0 {
        buf
    } else {
        buffer_after(spec_text_step(buf, keys[0]).0, keys.drop_first())
    }
}

/// The key event that types the character `c`.
pub open spec fn char_key(c: char) -> Key {
    Key::Char(c)
}

/// The key events that type the characters `cs`, in order.
pub open spec fn char_keys(cs: Seq<char>) -> Seq<Key> {
    Seq::new(cs.len(), |i: int| char_key(cs[i]))
}

/// `n` backspace key events.
pub open spec fn erase_keys(n: nat) -> Seq<Key> {
    Seq::new(n, |i: int| Key::Backspace)
}

/// A run of key events splits: feeding `a + b` is feeding `a`, then `b`.
proof fn lemma_buffer_after_split(buf: Seq<char>, a: Seq<Key>, b: Seq<Key>)
    ensures
        buffer_after(buf, a + b) == buffer_after(buffer_after(buf, a), b),
    decreases a.len(),
{
    if a.len() == 0 {
        assert(a + b =~= b);
    } else {
        assert((a + b).drop_first() =~= a.drop_first() + b);
        lemma_buffer_after_split(spec_text_step(buf, a[0]).0, a.drop_first(), b);
    }
}

/// Typing characters appends them, as long as none is the newline that
/// would commit instead.
proof fn lemma_typing_appends(buf: Seq<char>, cs: Seq<char>)
    requires
        forall|i: int| 0 <= i < cs.len() ==> cs[i] != '\n',
    ensures
        buffer_after(buf, char_keys(cs)) == buf + cs,
    decreases cs.len(),
{
    if cs.len() == 0 {
        assert(buf + cs =~= buf);
    } else {
        assert(char_keys(cs).len() == cs.len());
        assert(char_keys(cs)[0] == Key::Char(cs[0]));
        assert(char_keys(cs).drop_first() =~= char_keys(cs.drop_first())) by {
            assert forall|i: int| 0 <= i < cs.len() - 1 implies char_keys(cs).drop_first()[i]
                == char_keys(cs.drop_first())[i] by {
                assert(char_keys(cs).drop_first()[i] == char_keys(cs)[i + 1]);
                assert(cs.drop_first()[i] == cs[i + 1]);
            }
        }
        lemma_typing_appends(buf.push(cs[0]), cs.drop_first());
        assert(buf.push(cs[0]) + cs.drop_first() =~= buf + cs);
    }
}

/// Backspace key events pop, one per event.
proof fn lemma_erasing_pops(buf: Seq<char>, n: nat)
    ensures
        buffer_after(buf, erase_keys(n)) == pop_n(buf, n),
    decreases n,
{
    if n > 0 {
        assert(erase_keys(n).drop_first() =~= erase_keys((n - 1) as nat));
        lemma_erasing_pops(popped(buf), (n - 1) as nat);
    }
}

/// Popping as many times as was appended undoes the appending.
proof fn lemma_pop_undoes_append(buf: Seq<char>, cs: Seq<char>)
    ensures
        pop_n(buf + cs, cs.len()) == buf,
    decreases cs.len(),
{
    if cs.len() > 0 {
        assert(popped(buf + cs) =~= buf + cs.drop_last());
        lemma_pop_undoes_append(buf, cs.drop_last());
    }
}

/// Round trip of the editor: typing any characters (none of them the
/// committing newline) and then erasing as many times returns the buffer
/// to exactly what it was.
pub proof fn lemma_type_then_erase_round_trip(buf: Seq<char>, cs: Seq<char>)
    requires
        forall|i: int| 0 <= i < cs.len() ==> cs[i] != '\n',
    ensures
        buffer_after(buf, char_keys(cs) + erase_keys(cs.len())) == buf,
{
    lemma_buffer_after_split(buf, char_keys(cs), erase_keys(cs.len()));
    lemma_typing_appends(buf, cs);
    lemma_erasing_pops(buf + cs, cs.len());
    lemma_pop_undoes_append(buf, cs);
}

/// Committing an empty buffer is always the empty-input outcome, never a
/// successful answer.
pub proof fn lemma_empty_commit_is_empty_outcome(buf: Seq<char>, key: Key)
    requires
        buf.len() == 0,
        is_text_commit_key(key),
    ensures
        spec_text_step(buf, key) == (buf, TextStep::EmptyCommit),
        spec_text_step(buf, key).1 != TextStep::Committed,
{
}

/// Canceling the editor never returns the value a commit would have: on
/// escape the step reports `Canceled` and the buffer is untouched.
pub proof fn lemma_text_cancel_commits_nothing(buf: Seq<char>)
    ensures
        spec_text_step(buf, Key::Esc) == (buf, TextStep::Canceled),
{
}

} // verus!
