//! The horizontal option carousel: an ordered, non-empty set of labels, a
//! wrapping selection cursor, live frames that highlight the cursor, and a
//! sealed frame for the committed or canceled outcome.

use vstd::prelude::*;
use vstd::string::StringExecFns;

use crate::carousel;
use crate::carousel::StepResult;
use crate::error::{PromptError, PromptErrorKind, Result};
use crate::key::Key;
use crate::render;
use crate::render::ColorRole;

verus! {

/// An option carousel mid-interaction: the labels and the current cursor.
#[derive(Debug)]
pub struct Options {
    labels: Vec<String>,
    selected: usize,
}

/// The color of an option in a live frame.
pub open spec fn live_role(sel: nat, i: nat) -> ColorRole {
    if i == sel {
        ColorRole::Highlight
    } else {
        ColorRole::Normal
    }
}

/// The color of an option in a sealed frame.
pub open spec fn sealed_role(len: nat, chosen: Option<usize>, i: nat) -> ColorRole {
    match chosen {
        Some(sel) => if i == sel {
            ColorRole::SelectedFinal
        } else {
            ColorRole::Separator
        },
        None => if len == 1 {
            ColorRole::Fail
        } else {
            ColorRole::Separator
        },
    }
}

/// The glyph drawn between sibling options: a spaced, colored `::`.
pub open spec fn option_sep(role: ColorRole) -> Seq<char> {
    " "@ + render::segment(role, "::"@) + " "@
}

/// The first `i` options of a live frame, separators included.
pub open spec fn live_items(labels: Seq<Seq<char>>, sel: nat, i: nat) -> Seq<char>
    decreases i,
{
    if i == 0 {
        Seq::empty()
    } else {
        let j = (i - 1) as nat;
        live_items(labels, sel, j) + render::segment(live_role(sel, j), labels[j as int]) + if i
            < labels.len() {
            option_sep(ColorRole::Separator)
        } else {
            Seq::empty()
        }
    }
}

/// A live frame: restore to the anchor, then every option, the current one
/// highlighted.
pub open spec fn live_frame(labels: Seq<Seq<char>>, sel: nat) -> Seq<char> {
    render::restore_cursor() + live_items(labels, sel, labels.len())
}

/// The first `i` options of a sealed frame, separators included.
pub open spec fn sealed_items(labels: Seq<Seq<char>>, chosen: Option<usize>, i: nat) -> Seq<char>
    decreases i,
{
    if i == 0 {
        Seq::empty()
    } else {
        let j = (i - 1) as nat;
        sealed_items(labels, chosen, j) + render::segment(
            sealed_role(labels.len(), chosen, j),
            labels[j as int],
        ) + if i < labels.len() {
            option_sep(
                if chosen is Some {
                    ColorRole::Separator
                } else {
                    ColorRole::Fail
                },
            )
        } else {
            Seq::empty()
        }
    }
}

/// A sealed frame: restore to the anchor, every option in its final color,
/// then a line break that leaves the sealed line behind.
pub open spec fn sealed_frame(labels: Seq<Seq<char>>, chosen: Option<usize>) -> Seq<char> {
    render::restore_cursor() + sealed_items(labels, chosen, labels.len()) + "\r\n"@
}

/// Build the live frame over `labels` with the cursor on `selected`. Every
/// carousel renders through this one builder: the frame discipline is the
/// same for all of them.
pub fn build_live_frame(labels: &Vec<String>, selected: usize) -> (r: String)
    requires
        (selected as nat) < labels.deep_view().len(),
    ensures
        r@ == live_frame(labels.deep_view(), selected as nat),
{
    let ghost lbls = labels.deep_view();
    let ghost sel = selected as nat;
    let mut out = String::new();
    out.append(render::restore_cursor_str());
    assert(out@ =~= render::restore_cursor() + live_items(lbls, sel, 0));
    let mut i: usize = 0;
    while i < labels.len()
        invariant
            i <= labels.len(),
            lbls == labels.deep_view(),
            sel == selected as nat,
            out@ == render::restore_cursor() + live_items(lbls, sel, i as nat),
        decreases labels.len() - i,
    {
        let role = if i == selected {
            ColorRole::Highlight
        } else {
            ColorRole::Normal
        };
        render::write_segment(&mut out, role, labels[i].as_str());
        if i + 1 < labels.len() {
            out.append(" ");
            render::write_segment(&mut out, ColorRole::Separator, "::");
            out.append(" ");
        }
        assert(out@ =~= render::restore_cursor() + live_items(lbls, sel, (i + 1) as nat));
        i = i + 1;
    }
    out
}

/// Build the sealed frame over `labels` for the committed choice, or for
/// cancellation; shared by every carousel, like the live builder.
pub fn build_sealed_frame(labels: &Vec<String>, chosen: Option<usize>) -> (r: String)
    ensures
        r@ == sealed_frame(labels.deep_view(), chosen),
{
    let ghost lbls = labels.deep_view();
    let mut out = String::new();
    out.append(render::restore_cursor_str());
    assert(out@ =~= render::restore_cursor() + sealed_items(lbls, chosen, 0));
    let mut i: usize = 0;
    while i < labels.len()
        invariant
            i <= labels.len(),
            lbls == labels.deep_view(),
            out@ == render::restore_cursor() + sealed_items(lbls, chosen, i as nat),
        decreases labels.len() - i,
    {
        let role = match chosen {
            Some(sel) => if i == sel {
                ColorRole::SelectedFinal
            } else {
                ColorRole::Separator
            },
            None => if labels.len() == 1 {
                ColorRole::Fail
            } else {
                ColorRole::Separator
            },
        };
        render::write_segment(&mut out, role, labels[i].as_str());
        if i + 1 < labels.len() {
            let sep_role = match chosen {
                Some(_) => ColorRole::Separator,
                None => ColorRole::Fail,
            };
            out.append(" ");
            render::write_segment(&mut out, sep_role, "::");
            out.append(" ");
        }
        assert(out@ =~= render::restore_cursor() + sealed_items(lbls, chosen, (i + 1) as nat));
        i = i + 1;
    }
    out.append("\r\n");
    assert(out@ =~= sealed_frame(lbls, chosen));
    out
}

impl Options {
    /// The labels, as sequences of characters.
    pub closed spec fn spec_labels(&self) -> Seq<Seq<char>> {
        self.labels.deep_view()
    }

    /// The current cursor.
    pub closed spec fn spec_selected(&self) -> nat {
        self.selected as nat
    }

    /// The cursor is always an index into the labels.
    pub open spec fn wf(&self) -> bool {
        self.spec_selected() < self.spec_labels().len()
    }

    /// Build a carousel over `labels` with the cursor on the first entry.
    /// An empty label set is a configuration error: no widget is built, so
    /// nothing is ever rendered for it.
    pub fn new(labels: Vec<String>) -> (r: Result<Options>)
        ensures
            labels@.len() == 0 <==> r is Err,
            r is Err ==> r->Err_0 == PromptError::Creation(PromptErrorKind::PassedNoOptions),
            r is Ok ==> r->Ok_0.wf() && r->Ok_0.spec_labels() == labels.deep_view()
                && r->Ok_0.spec_selected() == 0,
    {
        if labels.len() == 0 {
            Err(PromptError::Creation(PromptErrorKind::PassedNoOptions))
        } else {
            Ok(Options { labels, selected: 0 })
        }
    }

    /// How many options there are.
    pub fn len(&self) -> (n: usize)
        ensures
            n == self.spec_labels().len(),
    {
        self.labels.len()
    }

    /// The current cursor position.
    pub fn selected(&self) -> (s: usize)
        ensures
            s == self.spec_selected(),
    {
        self.selected
    }

    /// Apply one key event: quit cancels, left/right move the cursor with
    /// wrap-around, a commit key commits the current cursor, anything else
    /// is ignored. The labels never change.
    pub fn step(&mut self, key: Key) -> (r: StepResult)
        requires
            old(self).wf(),
        ensures
            final(self).wf(),
            final(self).spec_labels() == old(self).spec_labels(),
            (final(self).spec_selected(), r) == carousel::spec_step(
                old(self).spec_selected(),
                old(self).spec_labels().len(),
                key,
            ),
    {
        let len = self.labels.len();
        carousel::step_cursor(&mut self.selected, len, key)
    }

    /// The live frame for the current state.
    pub fn render(&self) -> (r: String)
        requires
            self.wf(),
        ensures
            r@ == live_frame(self.spec_labels(), self.spec_selected()),
    {
        build_live_frame(&self.labels, self.selected)
    }

    /// The sealed frame: the chosen option in the final color and the rest
    /// dimmed, or, when nothing was chosen, every option dimmed and the
    /// separators in the failure color (a lone option itself turns the
    /// failure color, there being nothing else to dim).
    pub fn seal(&self, chosen: Option<usize>) -> (r: String)
        requires
            self.wf(),
        ensures
            r@ == sealed_frame(self.spec_labels(), chosen),
    {
        build_sealed_frame(&self.labels, chosen)
    }
}

} // verus!
