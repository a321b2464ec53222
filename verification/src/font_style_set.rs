//! The operations of a style set: the style variants of one font family,
//! addressed by index.
//!
//! The engine's collection is live: its count is asked for anew before each
//! access by index, never kept.

use vstd::prelude::*;
use crate::exchange::{Indexed, Pending, Step, StepView};
use crate::handle::FontStyleSet;
use crate::native::{Call, CallView};
use crate::style::FontStyle;

verus! {

impl FontStyleSet {
    /// The first step of `new_empty`.
    pub open spec fn new_empty_requested() -> StepView {
        StepView::Call(CallView::CreateEmpty, Pending::StyleSet)
    }

    /// The first step of `count` on the style set at `set`.
    pub open spec fn count_requested(set: usize) -> StepView {
        StepView::Call(CallView::StyleCount { set }, Pending::Count)
    }

    /// The first step of `style` on the style set at `set`.
    pub open spec fn style_requested(set: usize, index: usize) -> StepView {
        (Indexed::GetStyle { set }).guarded(index)
    }

    /// The first step of `new_typeface` on the style set at `set`.
    pub open spec fn new_typeface_requested(set: usize, index: usize) -> StepView {
        (Indexed::CreateTypeface { set }).guarded(index)
    }

    /// The first step of `match_style` on the style set at `set`.
    pub open spec fn match_style_requested(set: usize, index: usize, pattern: FontStyle) -> StepView {
        (Indexed::MatchStyle { set, pattern }).guarded(index)
    }

    /// Begins the making of a style set without entries. The exchange ends
    /// with the style set; a null pointer from the engine is a violation.
    pub fn new_empty() -> (step: Step)
        ensures
            step@ == Self::new_empty_requested(),
    {
        Step::Call(Call::CreateEmpty, Pending::StyleSet)
    }

    /// Begins the query for the number of styles. The exchange ends with the
    /// count; a negative count from the engine is a violation.
    pub fn count(&self) -> (step: Step)
        ensures
            step@ == Self::count_requested(self@),
    {
        Step::Call(Call::StyleCount { set: self.native() }, Pending::Count)
    }

    /// Begins the query for the style at `index` and its name. The index is
    /// held against the live count first: the exchange ends with the style, and
    /// with its name unless the engine has none for it, if the index is below
    /// that count, and with a violation if it is not.
    pub fn style(&self, index: usize) -> (step: Step)
        ensures
            step@ == Self::style_requested(self@, index),
    {
        (Indexed::GetStyle { set: self.native() }).guard(index)
    }

    /// Begins the making of the typeface for the style at `index`. The index
    /// is held against the live count first: the exchange ends with the
    /// typeface, or with none where the engine made none, if the index is
    /// below that count, and with a violation if it is not.
    pub fn new_typeface(&self, index: usize) -> (step: Step)
        ensures
            step@ == Self::new_typeface_requested(self@, index),
    {
        (Indexed::CreateTypeface { set: self.native() }).guard(index)
    }

    /// Begins the search for the typeface whose style is closest to
    /// `pattern`. The index is held against the live count first, as for the
    /// other accesses; the engine is then asked with the pattern alone.
    pub fn match_style(&self, index: usize, pattern: FontStyle) -> (step: Step)
        ensures
            step@ == Self::match_style_requested(self@, index, pattern),
    {
        (Indexed::MatchStyle { set: self.native(), pattern }).guard(index)
    }
}

} // verus!
