//! The second option carousel and its batch form. Both the state machine
//! and the frame discipline are the ones every selection widget shares:
//! frames begin at the redraw anchor with the restore-cursor escape, and
//! the sealed frame closes its own line.

use vstd::prelude::*;

use crate::carousel;
use crate::carousel::StepResult;
use crate::error::{PromptError, PromptErrorKind, Result};
use crate::key::Key;
use crate::prompt::options::{build_live_frame, build_sealed_frame, live_frame, sealed_frame};

verus! {

/// A carousel of a batch mid-interaction.
#[derive(Debug)]
pub struct PromptOptions {
    items: Vec<String>,
    selected: usize,
}

impl PromptOptions {
    /// The labels, as sequences of characters.
    pub closed spec fn spec_labels(&self) -> Seq<Seq<char>> {
        self.items.deep_view()
    }

    /// The current cursor.
    pub closed spec fn spec_selected(&self) -> nat {
        self.selected as nat
    }

    /// The cursor is always an index into the labels.
    pub open spec fn wf(&self) -> bool {
        self.spec_selected() < self.spec_labels().len()
    }

    /// Build a carousel over `items` with the cursor on the first entry.
    /// An empty set is rejected as a configuration error before anything
    /// is rendered.
    pub fn new(items: Vec<String>) -> (r: Result<PromptOptions>)
        ensures
            items@.len() == 0 <==> r is Err,
            r is Err ==> r->Err_0 == PromptError::Creation(PromptErrorKind::PassedNoOptions),
            r is Ok ==> r->Ok_0.wf() && r->Ok_0.spec_labels() == items.deep_view()
                && r->Ok_0.spec_selected() == 0,
    {
        if items.is_empty() {
            Err(PromptError::Creation(PromptErrorKind::PassedNoOptions))
        } else {
            Ok(PromptOptions { items, selected: 0 })
        }
    }

    /// How many options there are.
    pub fn len(&self) -> (n: usize)
        ensures
            n == self.spec_labels().len(),
    {
        self.items.len()
    }

    /// The current cursor position.
    pub fn selected(&self) -> (s: usize)
        ensures
            s == self.spec_selected(),
    {
        self.selected
    }

    /// Apply one key event; the transitions are those of every selection
    /// widget.
    pub fn step(&mut self, key: Key) -> (r: StepResult)
        requires
            old(self).wf(),
        ensures
            final(self).wf(),
            final(self).spec_labels() == old(self).spec_labels(),
            (final(self).spec_selected(), r) == carousel::spec_step(
                old(self).spec_selected(),
                old(self).spec_labels().len(),
                key,
            ),
    {
        let len = self.items.len();
        carousel::step_cursor(&mut self.selected, len, key)
    }

    /// The live frame for the current state: the same anchored frame every
    /// carousel draws.
    pub fn render(&self) -> (r: String)
        requires
            self.wf(),
        ensures
            r@ == live_frame(self.spec_labels(), self.spec_selected()),
    {
        build_live_frame(&self.items, self.selected)
    }

    /// The sealed frame for the committed choice, or for cancellation: the
    /// same sealed frame every carousel draws.
    pub fn seal(&self, chosen: Option<usize>) -> (r: String)
        requires
            self.wf(),
        ensures
            r@ == sealed_frame(self.spec_labels(), chosen),
    {
        build_sealed_frame(&self.items, chosen)
    }
}

/// What building one carousel of a batch must have produced: a widget on
/// the given labels with the cursor at the start, or the configuration
/// error exactly when the label set was empty.
pub open spec fn one_built(r: Result<PromptOptions>, labels: Vec<String>) -> bool {
    if labels@.len() == 0 {
        r is Err && r->Err_0 == PromptError::Creation(PromptErrorKind::PassedNoOptions)
    } else {
        r is Ok && r->Ok_0.wf() && r->Ok_0.spec_labels() == labels.deep_view()
            && r->Ok_0.spec_selected() == 0
    }
}

/// Build one carousel per option set of a batch, each validated the same
/// way; the caller then runs them strictly one after another.
pub fn prompt_options_multiple(items: Vec<Vec<String>>) -> (r: Result<Vec<Result<PromptOptions>>>)
    ensures
        r is Ok,
        r->Ok_0@.len() == items@.len(),
        forall|k: int|
            0 <= k < items@.len() ==> one_built(#[trigger] r->Ok_0@[k], items@[k]),
{
    let mut built: Vec<Result<PromptOptions>> = Vec::new();
    let mut i: usize = 0;
    while i < items.len()
        invariant
            i <= items.len(),
            built@.len() == i,
            forall|k: int| 0 <= k < i ==> one_built(#[trigger] built@[k], items@[k]),
        decreases items.len() - i,
    {
        let set = items[i].clone();
        assert(set.deep_view() == items@[i as int].deep_view());
        built.push(PromptOptions::new(set));
        i = i + 1;
    }
    Ok(built)
}

} // verus!
