//! The bounded sliders: a wrapping cursor over a fixed number of discrete
//! positions, in two rendering variants. The marker variant glides a single
//! selection glyph across a row of separators; the fill variant accumulates
//! selection glyphs behind the cursor like a progress bar.

use vstd::prelude::*;
use vstd::string::StringExecFns;

use crate::carousel;
use crate::carousel::StepResult;
use crate::error::{PromptError, PromptErrorKind, Result};
use crate::key::Key;
use crate::render;
use crate::render::{repeated, ColorRole};

verus! {

/// A marker slider mid-interaction.
#[derive(Debug)]
pub struct SliderPos {
    length: usize,
    pos: usize,
}

/// A fill slider mid-interaction.
#[derive(Debug)]
pub struct SliderFill {
    length: usize,
    pos: usize,
}

/// A live marker frame: `pos` separators, one highlighted selection glyph,
/// then the remaining separators.
pub open spec fn marker_live_frame(len: nat, pos: nat) -> Seq<char>
    recommends
        pos < len,
{
    render::restore_cursor() + render::segment(ColorRole::Separator, repeated(":"@, pos))
        + render::segment(ColorRole::Highlight, ";"@) + render::segment(
        ColorRole::Separator,
        repeated(":"@, (len - 1 - pos) as nat),
    )
}

/// A sealed marker frame: the chosen position in the final color, or, when
/// nothing was chosen, a full row of failure-colored separators with no
/// selection glyph at all.
pub open spec fn marker_sealed_frame(len: nat, chosen: Option<usize>) -> Seq<char>
    recommends
        len >= 1,
        chosen is Some ==> chosen->0 < len,
{
    match chosen {
        Some(p) => render::restore_cursor() + render::segment(
            ColorRole::Separator,
            repeated(":"@, p as nat),
        ) + render::segment(ColorRole::SelectedFinal, ";"@) + render::segment(
            ColorRole::Separator,
            repeated(":"@, (len - 1 - p) as nat),
        ),
        None => render::restore_cursor() + render::segment(
            ColorRole::Fail,
            repeated(":"@, len + 1),
        ),
    }
}

/// A live fill frame: `pos + 1` highlighted selection glyphs, then the
/// remaining separators.
pub open spec fn fill_live_frame(len: nat, pos: nat) -> Seq<char>
    recommends
        pos < len,
{
    render::restore_cursor() + render::segment(ColorRole::Highlight, repeated(";"@, pos + 1))
        + render::segment(ColorRole::Separator, repeated(":"@, (len - 1 - pos) as nat))
}

/// A sealed fill frame: the accumulated bar in the final color, or a full
/// row of failure-colored separators when nothing was chosen.
pub open spec fn fill_sealed_frame(len: nat, chosen: Option<usize>) -> Seq<char>
    recommends
        len >= 1,
        chosen is Some ==> chosen->0 < len,
{
    match chosen {
        Some(p) => render::restore_cursor() + render::segment(
            ColorRole::SelectedFinal,
            repeated(";"@, p as nat + 1),
        ) + render::segment(ColorRole::Separator, repeated(":"@, (len - 1 - p) as nat)),
        None => render::restore_cursor() + render::segment(ColorRole::Fail, repeated(":"@, len)),
    }
}

impl SliderPos {
    /// The number of discrete positions.
    pub closed spec fn spec_len(&self) -> nat {
        self.length as nat
    }

    /// The current cursor.
    pub closed spec fn spec_pos(&self) -> nat {
        self.pos as nat
    }

    /// The cursor is always one of the positions.
    pub open spec fn wf(&self) -> bool {
        self.spec_pos() < self.spec_len()
    }

    /// Build a marker slider of `length` positions with the cursor on the
    /// first. A zero-length range is a configuration error: there would be
    /// no position to choose.
    pub fn new(length: usize) -> (r: Result<SliderPos>)
        ensures
            length == 0 <==> r is Err,
            r is Err ==> r->Err_0 == PromptError::Creation(PromptErrorKind::PassedNoOptions),
            r is Ok ==> r->Ok_0.wf() && r->Ok_0.spec_len() == length && r->Ok_0.spec_pos() == 0,
    {
        if length == 0 {
            Err(PromptError::Creation(PromptErrorKind::PassedNoOptions))
        } else {
            Ok(SliderPos { length, pos: 0 })
        }
    }

    /// The number of positions.
    pub fn len(&self) -> (n: usize)
        ensures
            n == self.spec_len(),
    {
        self.length
    }

    /// The current cursor position.
    pub fn selected(&self) -> (p: usize)
        ensures
            p == self.spec_pos(),
    {
        self.pos
    }

    /// Apply one key event; the transitions are those of every selection
    /// widget, over this slider's range.
    pub fn step(&mut self, key: Key) -> (r: StepResult)
        requires
            old(self).wf(),
        ensures
            final(self).wf(),
            final(self).spec_len() == old(self).spec_len(),
            (final(self).spec_pos(), r) == carousel::spec_step(
                old(self).spec_pos(),
                old(self).spec_len(),
                key,
            ),
    {
        let len = self.length;
        carousel::step_cursor(&mut self.pos, len, key)
    }

    /// The live frame for the current state.
    pub fn render(&self) -> (r: String)
        requires
            self.wf(),
        ensures
            r@ == marker_live_frame(self.spec_len(), self.spec_pos()),
    {
        let mut out = String::new();
        out.append(render::restore_cursor_str());
        render::write_run(&mut out, ColorRole::Separator, ":", self.pos);
        render::write_segment(&mut out, ColorRole::Highlight, ";");
        render::write_run(&mut out, ColorRole::Separator, ":", self.length - 1 - self.pos);
        assert(out@ =~= marker_live_frame(self.spec_len(), self.spec_pos()));
        out
    }

    /// The sealed frame for the committed position, or for cancellation.
    pub fn seal(&self, chosen: Option<usize>) -> (r: String)
        requires
            self.wf(),
            chosen is Some ==> chosen->0 < self.spec_len(),
        ensures
            r@ == marker_sealed_frame(self.spec_len(), chosen),
    {
        let mut out = String::new();
        out.append(render::restore_cursor_str());
        match chosen {
            Some(p) => {
                render::write_run(&mut out, ColorRole::Separator, ":", p);
                render::write_segment(&mut out, ColorRole::SelectedFinal, ";");
                render::write_run(&mut out, ColorRole::Separator, ":", self.length - 1 - p);
            },
            None => {
                render::write_run_succ(&mut out, ColorRole::Fail, ":", self.length);
            },
        }
        assert(out@ =~= marker_sealed_frame(self.spec_len(), chosen));
        out
    }
}

impl SliderFill {
    /// The number of discrete positions.
    pub closed spec fn spec_len(&self) -> nat {
        self.length as nat
    }

    /// The current cursor.
    pub closed spec fn spec_pos(&self) -> nat {
        self.pos as nat
    }

    /// The cursor is always one of the positions.
    pub open spec fn wf(&self) -> bool {
        self.spec_pos() < self.spec_len()
    }

    /// Build a fill slider of `length` positions with the cursor on the
    /// first. A zero-length range is a configuration error.
    pub fn new(length: usize) -> (r: Result<SliderFill>)
        ensures
            length == 0 <==> r is Err,
            r is Err ==> r->Err_0 == PromptError::Creation(PromptErrorKind::PassedNoOptions),
            r is Ok ==> r->Ok_0.wf() && r->Ok_0.spec_len() == length && r->Ok_0.spec_pos() == 0,
    {
        if length == 0 {
            Err(PromptError::Creation(PromptErrorKind::PassedNoOptions))
        } else {
            Ok(SliderFill { length, pos: 0 })
        }
    }

    /// The number of positions.
    pub fn len(&self) -> (n: usize)
        ensures
            n == self.spec_len(),
    {
        self.length
    }

    /// The current cursor position.
    pub fn selected(&self) -> (p: usize)
        ensures
            p == self.spec_pos(),
    {
        self.pos
    }

    /// Apply one key event; the transitions are those of every selection
    /// widget, over this slider's range.
    pub fn step(&mut self, key: Key) -> (r: StepResult)
        requires
            old(self).wf(),
        ensures
            final(self).wf(),
            final(self).spec_len() == old(self).spec_len(),
            (final(self).spec_pos(), r) == carousel::spec_step(
                old(self).spec_pos(),
                old(self).spec_len(),
                key,
            ),
    {
        let len = self.length;
        carousel::step_cursor(&mut self.pos, len, key)
    }

    /// The live frame for the current state.
    pub fn render(&self) -> (r: String)
        requires
            self.wf(),
        ensures
            r@ == fill_live_frame(self.spec_len(), self.spec_pos()),
    {
        let mut out = String::new();
        out.append(render::restore_cursor_str());
        render::write_run_succ(&mut out, ColorRole::Highlight, ";", self.pos);
        render::write_run(&mut out, ColorRole::Separator, ":", self.length - 1 - self.pos);
        assert(out@ =~= fill_live_frame(self.spec_len(), self.spec_pos()));
        out
    }

    /// The sealed frame for the committed position, or for cancellation.
    pub fn seal(&self, chosen: Option<usize>) -> (r: String)
        requires
            self.wf(),
            chosen is Some ==> chosen->0 < self.spec_len(),
        ensures
            r@ == fill_sealed_frame(self.spec_len(), chosen),
    {
        let mut out = String::new();
        out.append(render::restore_cursor_str());
        match chosen {
            Some(p) => {
                render::write_run_succ(&mut out, ColorRole::SelectedFinal, ";", p);
                render::write_run(&mut out, ColorRole::Separator, ":", self.length - 1 - p);
            },
            None => {
                render::write_run(&mut out, ColorRole::Fail, ":", self.length);
            },
        }
        assert(out@ =~= fill_sealed_frame(self.spec_len(), chosen));
        out
    }
}

} // verus!
