//! The selection state machine shared by the option carousels and the
//! sliders: a zero-based cursor over a fixed non-empty range that wraps
//! modulo the range length, with one transition per key class.

use vstd::prelude::*;

use crate::key::{is_commit_key, is_left_key, is_quit_key, is_right_key, Key};

verus! {

/// What one key event did to a selection widget.
#[derive(Debug, Clone, Copy, PartialEq, Eq, Structural)]
pub enum StepResult {
    /// The key is not one the widget reacts to; nothing changed.
    Ignored,
    /// The cursor moved; the widget should be re-rendered.
    Moved,
    /// The user committed the carried index; the interaction is over.
    Committed(usize),
    /// The user canceled; the interaction is over with no value chosen.
    Canceled,
}

/// The cursor one step to the left of `sel`, wrapping from 0 to `len - 1`.
pub open spec fn left_of(sel: nat, len: nat) -> nat
    recommends
        sel < len,
{
    if sel == 0 {
        (len - 1) as nat
    } else {
        (sel - 1) as nat
    }
}

/// The cursor one step to the right of `sel`, wrapping from `len - 1` to 0.
pub open spec fn right_of(sel: nat, len: nat) -> nat
    recommends
        sel < len,
{
    if sel + 1 == len {
        0
    } else {
        sel + 1
    }
}

/// The full transition relation of a selection widget: the cursor after the
/// key, and what the key did. Quit wins over every other class; keys in no
/// class leave the state untouched.
pub open spec fn spec_step(sel: nat, len: nat, key: Key) -> (nat, StepResult)
    recommends
        sel < len,
{
    if is_quit_key(key) {
        (sel, StepResult::Canceled)
    } else if is_left_key(key) {
        (left_of(sel, len), StepResult::Moved)
    } else if is_right_key(key) {
        (right_of(sel, len), StepResult::Moved)
    } else if is_commit_key(key) {
        (sel, StepResult::Committed(sel as usize))
    } else {
        (sel, StepResult::Ignored)
    }
}

/// Apply one key event to a cursor bounded by `len`.
pub fn step_cursor(sel: &mut usize, len: usize, key: Key) -> (r: StepResult)
    requires
        *old(sel) < len,
    ensures
        *final(sel) < len,
        (*final(sel) as nat, r) == spec_step(*old(sel) as nat, len as nat, key),
{
    if key.quits() {
        StepResult::Canceled
    } else if key.moves_left() {
        *sel = if *sel == 0 {
            len - 1
        } else {
            *sel - 1
        };
        StepResult::Moved
    } else if key.moves_right() {
        *sel = if *sel + 1 == len {
            0
        } else {
            *sel + 1
        };
        StepResult::Moved
    } else if key.commits() {
        StepResult::Committed(*sel)
    } else {
        StepResult::Ignored
    }
}

/// The cursor after `n` successive moves to the right.
pub open spec fn right_iter(sel: nat, len: nat, n: nat) -> nat
    decreases n,
{
    if n == 0 {
        sel
    } else {
        right_of(right_iter(sel, len, (n - 1) as nat), len)
    }
}

/// As long as no move wraps, moving right just adds one per move.
proof fn lemma_right_iter_no_wrap(sel: nat, len: nat, n: nat)
    requires
        sel + n < len,
    ensures
        right_iter(sel, len, n) == sel + n,
    decreases n,
{
    if n > 0 {
        lemma_right_iter_no_wrap(sel, len, (n - 1) as nat);
    }
}

/// Successive runs of right moves compose.
proof fn lemma_right_iter_split(sel: nat, len: nat, a: nat, b: nat)
    ensures
        right_iter(sel, len, a + b) == right_iter(right_iter(sel, len, a), len, b),
    decreases b,
{
    if b > 0 {
        lemma_right_iter_split(sel, len, a, (b - 1) as nat);
        assert(a + b - 1 == a + (b - 1) as nat);
    }
}

/// Wrap-around closure: from any in-range cursor, moving right once per
/// position of the range returns the cursor to where it started.
pub proof fn lemma_right_full_cycle(sel: nat, len: nat)
    requires
        sel < len,
    ensures
        right_iter(sel, len, len) == sel,
{
    let to_edge = (len - 1 - sel) as nat;
    lemma_right_iter_no_wrap(sel, len, to_edge);
    assert(right_iter(sel, len, to_edge) == len - 1);
    lemma_right_iter_split(sel, len, to_edge, 1);
    assert(right_iter(sel, len, to_edge + 1) == right_of((len - 1) as nat, len));
    assert(right_iter(sel, len, to_edge + 1) == 0);
    lemma_right_iter_split(sel, len, to_edge + 1, sel);
    lemma_right_iter_no_wrap(0, len, sel);
    assert(to_edge + 1 + sel == len);
}

/// Wrapping at the ends: moving left from index 0 lands on the last index,
/// and moving right from the last index lands on 0.
pub proof fn lemma_wrap_at_ends(len: nat)
    requires
        len >= 1,
    ensures
        left_of(0, len) == len - 1,
        right_of((len - 1) as nat, len) == 0,
{
}

/// Committing without any navigation commits the starting index 0: on a
/// fresh widget, any commit key yields `Committed(0)` and moves nothing.
pub proof fn lemma_immediate_commit(len: nat, key: Key)
    requires
        len >= 1,
        is_commit_key(key),
    ensures
        spec_step(0, len, key) == (0nat, StepResult::Committed(0)),
{
}

/// Canceling is never mistaken for an answer: on a quit key the step
/// reports `Canceled`, leaves the cursor alone, and in particular never
/// returns the `Committed` outcome that a commit key would have produced.
pub proof fn lemma_cancel_commits_nothing(sel: nat, len: nat, key: Key)
    requires
        sel < len,
        is_quit_key(key),
    ensures
        spec_step(sel, len, key) == (sel, StepResult::Canceled),
        forall|i: usize| spec_step(sel, len, key).1 != StepResult::Committed(i),
{
}

} // verus!
