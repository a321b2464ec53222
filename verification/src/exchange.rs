//! The steps of an exchange with the native engine.
//!
//! An operation begins with a `Step`. While the step is a call, the caller
//! performs it and resumes the pending state with the reply, which gives the
//! next step. The exchange ends with an outcome or with a violation. What the
//! host decides between two native calls is `next_step`; `Pending::resume`
//! computes it.

use vstd::prelude::*;
use crate::family_names::FamilyNames;
use crate::handle::{wrapped, FontMgr, FontStyleSet, Typeface};
use crate::marshal::{checked_index, host_count, index_checked, optional_name, reported_name};
use crate::native::{Call, CallView, Reply, ReplyView};
use crate::style::FontStyle;
use crate::violation::Violation;

verus! {

/// A native call that takes an index, before the index is known to be in
/// bounds.
#[derive(Clone, Copy, PartialEq, Eq, Structural, Debug)]
pub enum Indexed {
    /// The name of a family of the font manager at `mgr`.
    FamilyName { mgr: usize },
    /// The style set of a family of the font manager at `mgr`.
    CreateStyleSet { mgr: usize },
    /// A style of the style set at `set`, and its name.
    GetStyle { set: usize },
    /// The typeface of a style of the style set at `set`.
    CreateTypeface { set: usize },
    /// The typeface closest to `pattern` in the style set at `set`. The engine
    /// does not take the index, but the call is made for valid indices only.
    MatchStyle { set: usize, pattern: FontStyle },
}

/// What an exchange waits for after a call.
#[derive(Clone, Copy, PartialEq, Eq, Structural, Debug)]
pub enum Pending {
    /// A pointer to a font manager, which may not be null.
    FontMgr,
    /// A pointer to a style set, which may not be null.
    StyleSet,
    /// A pointer to a typeface, or null for none.
    Typeface,
    /// A count, which ends the exchange.
    Count,
    /// A family name.
    Name,
    /// A style and its name.
    Style,
    /// The live count to hold `index` against, just before `target` is called.
    Bounds { index: usize, target: Indexed },
    /// The number of families whose names are to be enumerated.
    NamesTotal { mgr: usize },
}

/// What an operation gives when its exchange ends well.
#[derive(Debug, PartialEq, Eq)]
pub enum Outcome {
    FontMgr(FontMgr),
    StyleSet(FontStyleSet),
    /// A typeface, or none where the engine found or made none.
    Typeface(Option<Typeface>),
    Count(usize),
    Name(String),
    /// The family names, to be asked for one by one.
    Names(FamilyNames),
    /// A style and its name, or no name where the engine has none for it.
    Style(FontStyle, Option<String>),
}

/// One step of an exchange.
#[derive(Debug, PartialEq, Eq)]
pub enum Step {
    /// Perform the call, then resume the pending state with the reply.
    Call(Call, Pending),
    /// The exchange has ended with this result.
    Done(Outcome),
    /// The exchange is broken off: the caller aborts.
    Abort(Violation),
}

/// An `Outcome` as a mathematical value, each handle as the address of its
/// object.
pub enum OutcomeView {
    FontMgr(usize),
    StyleSet(usize),
    Typeface(Option<usize>),
    Count(usize),
    Name(Seq<char>),
    Names(FamilyNames),
    Style(FontStyle, Option<Seq<char>>),
}

/// A `Step` as a mathematical value.
pub enum StepView {
    Call(CallView, Pending),
    Done(OutcomeView),
    Abort(Violation),
}

impl View for Outcome {
    type V = OutcomeView;

    open spec fn view(&self) -> OutcomeView {
        match *self {
            Outcome::FontMgr(mgr) => OutcomeView::FontMgr(mgr@),
            Outcome::StyleSet(set) => OutcomeView::StyleSet(set@),
            Outcome::Typeface(Some(typeface)) => OutcomeView::Typeface(Some(typeface@)),
            Outcome::Typeface(None) => OutcomeView::Typeface(None),
            Outcome::Count(count) => OutcomeView::Count(count),
            Outcome::Name(name) => OutcomeView::Name(name@),
            Outcome::Names(names) => OutcomeView::Names(names),
            Outcome::Style(style, Some(name)) => OutcomeView::Style(style, Some(name@)),
            Outcome::Style(style, None) => OutcomeView::Style(style, None),
        }
    }
}

impl View for Step {
    type V = StepView;

    open spec fn view(&self) -> StepView {
        match *self {
            Step::Call(call, pending) => StepView::Call(call@, pending),
            Step::Done(outcome) => StepView::Done(outcome@),
            Step::Abort(violation) => StepView::Abort(violation),
        }
    }
}

impl Indexed {
    /// The call of this entry point with an index that was found in bounds.
    pub open spec fn call_at(self, index: i32) -> CallView {
        match self {
            Indexed::FamilyName { mgr } => CallView::FamilyName { mgr, index },
            Indexed::CreateStyleSet { mgr } => CallView::CreateStyleSet { mgr, index },
            Indexed::GetStyle { set } => CallView::GetStyle { set, index },
            Indexed::CreateTypeface { set } => CallView::CreateTypeface { set, index },
            Indexed::MatchStyle { set, pattern } => CallView::MatchStyle { set, pattern },
        }
    }

    /// What the exchange waits for after that call.
    pub open spec fn reply_of(self) -> Pending {
        match self {
            Indexed::FamilyName { .. } => Pending::Name,
            Indexed::CreateStyleSet { .. } => Pending::StyleSet,
            Indexed::GetStyle { .. } => Pending::Style,
            Indexed::CreateTypeface { .. } => Pending::Typeface,
            Indexed::MatchStyle { .. } => Pending::Typeface,
        }
    }

    /// The call that asks for the live count of the collection that this
    /// entry point reads.
    pub open spec fn count_query(self) -> CallView {
        match self {
            Indexed::FamilyName { mgr } => CallView::CountFamilies { mgr },
            Indexed::CreateStyleSet { mgr } => CallView::CountFamilies { mgr },
            Indexed::GetStyle { set } => CallView::StyleCount { set },
            Indexed::CreateTypeface { set } => CallView::StyleCount { set },
            Indexed::MatchStyle { set, .. } => CallView::StyleCount { set },
        }
    }

    /// The query for the live count that `index` is held against, and the
    /// state that waits for it.
    pub open spec fn guarded(self, index: usize) -> StepView {
        StepView::Call(self.count_query(), Pending::Bounds { index, target: self })
    }

    /// Begins an indexed operation: it asks for the live count first, so that
    /// the index reaches the engine only after it was found below that count.
    pub fn guard(self, index: usize) -> (step: Step)
        ensures
            step@ == self.guarded(index),
    {
        let query = match self {
            Indexed::FamilyName { mgr } => Call::CountFamilies { mgr },
            Indexed::CreateStyleSet { mgr } => Call::CountFamilies { mgr },
            Indexed::GetStyle { set } => Call::StyleCount { set },
            Indexed::CreateTypeface { set } => Call::StyleCount { set },
            Indexed::MatchStyle { set, .. } => Call::StyleCount { set },
        };
        Step::Call(query, Pending::Bounds { index, target: self })
    }

    /// The step that makes the call with an index that was found in bounds.
    fn proceed(self, index: i32) -> (step: Step)
        ensures
            step@ == StepView::Call(self.call_at(index), self.reply_of()),
    {
        match self {
            Indexed::FamilyName { mgr } => Step::Call(Call::FamilyName { mgr, index }, Pending::Name),
            Indexed::CreateStyleSet { mgr } => Step::Call(
                Call::CreateStyleSet { mgr, index },
                Pending::StyleSet,
            ),
            Indexed::GetStyle { set } => Step::Call(Call::GetStyle { set, index }, Pending::Style),
            Indexed::CreateTypeface { set } => Step::Call(
                Call::CreateTypeface { set, index },
                Pending::Typeface,
            ),
            Indexed::MatchStyle { set, pattern } => Step::Call(
                Call::MatchStyle { set, pattern },
                Pending::Typeface,
            ),
        }
    }
}

/// The step that follows the live count `count`, reported while `index`
/// waits to be handed to `target`.
pub open spec fn after_bounds(index: usize, target: Indexed, count: i32) -> StepView {
    match index_checked(index, count) {
        Ok(native) => StepView::Call(target.call_at(native), target.reply_of()),
        Err(violation) => StepView::Abort(violation),
    }
}

/// The step that follows the count `count`, reported where a count ends
/// the exchange.
pub open spec fn after_count(count: i32) -> StepView {
    if count >= 0 {
        StepView::Done(OutcomeView::Count(count as usize))
    } else {
        StepView::Abort(Violation::NegativeCount)
    }
}

/// The step that follows when `pending` is resumed with `reply`.
pub open spec fn next_step(pending: Pending, reply: ReplyView) -> StepView {
    match (pending, reply) {
        (Pending::FontMgr, ReplyView::Pointer(address)) => match wrapped(address) {
            Some(mgr) => StepView::Done(OutcomeView::FontMgr(mgr)),
            None => StepView::Abort(Violation::NullObject),
        },
        (Pending::StyleSet, ReplyView::Pointer(address)) => match wrapped(address) {
            Some(set) => StepView::Done(OutcomeView::StyleSet(set)),
            None => StepView::Abort(Violation::NullObject),
        },
        (Pending::Typeface, ReplyView::Pointer(address)) => StepView::Done(
            OutcomeView::Typeface(wrapped(address)),
        ),
        (Pending::Count, ReplyView::Int(count)) => after_count(count),
        (Pending::Name, ReplyView::Text(name)) => StepView::Done(OutcomeView::Name(name)),
        (Pending::Style, ReplyView::Style(style, name)) => StepView::Done(
            OutcomeView::Style(style, reported_name(name)),
        ),
        (Pending::Bounds { index, target }, ReplyView::Int(count)) => after_bounds(
            index,
            target,
            count,
        ),
        (Pending::NamesTotal { mgr }, ReplyView::Int(count)) => if count >= 0 {
            StepView::Done(
                OutcomeView::Names(FamilyNames { mgr, next: 0, total: count as usize }),
            )
        } else {
            StepView::Abort(Violation::NegativeCount)
        },
        _ => StepView::Abort(Violation::UnexpectedReply),
    }
}

impl Pending {
    /// Takes the reply to the call that this state waited for and decides the
    /// next step: the next call, the result, or the violation.
    pub fn resume(self, reply: Reply) -> (step: Step)
        ensures
            step@ == next_step(self, reply@),
    {
        match (self, reply) {
            (Pending::FontMgr, Reply::Pointer(address)) => match FontMgr::from_ptr(address) {
                Some(mgr) => Step::Done(Outcome::FontMgr(mgr)),
                None => Step::Abort(Violation::NullObject),
            },
            (Pending::StyleSet, Reply::Pointer(address)) => match FontStyleSet::from_ptr(address) {
                Some(set) => Step::Done(Outcome::StyleSet(set)),
                None => Step::Abort(Violation::NullObject),
            },
            (Pending::Typeface, Reply::Pointer(address)) => Step::Done(
                Outcome::Typeface(Typeface::from_ptr(address)),
            ),
            (Pending::Count, Reply::Int(raw)) => match host_count(raw) {
                Some(count) => Step::Done(Outcome::Count(count)),
                None => Step::Abort(Violation::NegativeCount),
            },
            (Pending::Name, Reply::Text(name)) => Step::Done(Outcome::Name(name)),
            (Pending::Style, Reply::Style(style, name)) => Step::Done(
                Outcome::Style(style, optional_name(name)),
            ),
            (Pending::Bounds { index, target }, Reply::Int(count)) => {
                match checked_index(index, count) {
                    Ok(native) => target.proceed(native),
                    Err(violation) => Step::Abort(violation),
                }
            },
            (Pending::NamesTotal { mgr }, Reply::Int(raw)) => match host_count(raw) {
                Some(total) => Step::Done(Outcome::Names(FamilyNames { mgr, next: 0, total })),
                None => Step::Abort(Violation::NegativeCount),
            },
            _ => Step::Abort(Violation::UnexpectedReply),
        }
    }
}

} // verus!
