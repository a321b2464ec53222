//! What holds of every exchange, whatever the engine replies.
//!
//! A native font configuration is taken as fixed when the engine's reply is a
//! function of the call alone. `run` then drives an exchange as a caller does,
//! and the laws say how it ends.

use vstd::prelude::*;
use vstd::utf8::encode_utf8;
use crate::exchange::{after_count, next_step, Indexed, OutcomeView, Pending, StepView};
use crate::family_names::FamilyNames;
use crate::handle::{wrapped, FontMgr, FontStyleSet};
use crate::marshal::{
    law_nul_free_text,
    nul_free,
    nul_free_all,
    reported_name,
    without_code_zero,
    NATIVE_INT_MAX,
};
use crate::native::{CallView, ReplyView};
use crate::style::FontStyle;
use crate::violation::Violation;

verus! {

/// The step that an exchange has reached from `step` after at most `calls`
/// native calls, each answered by `engine`.
pub open spec fn run(engine: spec_fn(CallView) -> ReplyView, step: StepView, calls: nat) -> StepView
    decreases calls,
{
    match step {
        StepView::Call(call, pending) => if calls == 0 {
            step
        } else {
            run(engine, next_step(pending, engine(call)), (calls - 1) as nat)
        },
        _ => step,
    }
}

/// The index that `call` hands to the engine, if it hands one.
pub open spec fn index_of(call: CallView) -> Option<i32> {
    match call {
        CallView::FamilyName { index, .. } => Some(index),
        CallView::CreateStyleSet { index, .. } => Some(index),
        CallView::GetStyle { index, .. } => Some(index),
        CallView::CreateTypeface { index, .. } => Some(index),
        _ => None,
    }
}

/// The index that `step` hands to the engine, if it is a call that hands
/// one.
pub open spec fn first_index(step: StepView) -> Option<i32> {
    match step {
        StepView::Call(call, _) => index_of(call),
        _ => None,
    }
}

/// An exchange that has ended stays where it is, however long it is driven.
pub proof fn law_ended_exchange_stays(
    engine: spec_fn(CallView) -> ReplyView,
    step: StepView,
    calls: nat,
)
    requires
        !(step is Call),
    ensures
        run(engine, step, calls) == step,
{
}

/// No index reaches the engine unchecked: a call that hands over an index
/// is made only in reply to a count, and the index is below that count and not
/// negative.
pub proof fn law_index_below_live_count(pending: Pending, reply: ReplyView)
    ensures
        first_index(next_step(pending, reply)) matches Some(index) ==> (reply matches ReplyView::Int(
            count,
        ) && 0 <= index < count),
{
}

/// The only call that follows a reply is the one that waited for its bounds
/// check, made with the index that was found below the count just reported.
/// This holds of the search by pattern too, to which the engine takes no
/// index.
pub proof fn law_later_call_passed_the_bounds_check(pending: Pending, reply: ReplyView)
    ensures
        match next_step(pending, reply) {
            StepView::Call(call, waiting) => match (pending, reply) {
                (Pending::Bounds { index, target }, ReplyView::Int(count)) => {
                    &&& index < count
                    &&& call == target.call_at(index as i32)
                    &&& waiting == target.reply_of()
                },
                _ => false,
            },
            _ => true,
        },
{
}

/// No operation begins with a call that hands over an index: one that takes
/// an index asks for the live count first, and the others take none.
pub proof fn law_no_operation_begins_with_an_index(
    target: Indexed,
    index: usize,
    object: usize,
    name: Seq<u8>,
    style: FontStyle,
    bcp_47: Seq<Seq<u8>>,
    character: i32,
    ttc_index: Option<usize>,
)
    ensures
        first_index(target.guarded(index)) is None,
        first_index(FontMgr::new_requested()) is None,
        first_index(FontMgr::count_families_requested(object)) is None,
        first_index(FontMgr::family_names_requested(object)) is None,
        first_index(FontMgr::match_family_requested(object, name)) is None,
        first_index(FontMgr::match_family_style_requested(object, name, style)) is None,
        first_index(
            FontMgr::match_family_style_character_requested(object, name, style, bcp_47, character),
        ) is None,
        first_index(FontMgr::new_from_data_requested(object, name, ttc_index)) is None,
        first_index(FontStyleSet::new_empty_requested()) is None,
        first_index(FontStyleSet::count_requested(object)) is None,
{
}

/// An exchange is over after two native calls at most.
pub proof fn law_exchange_ends(
    engine: spec_fn(CallView) -> ReplyView,
    call: CallView,
    pending: Pending,
)
    ensures
        !(run(engine, StepView::Call(call, pending), 2) is Call),
{
    let second = next_step(pending, engine(call));
    assert(run(engine, StepView::Call(call, pending), 2) == run(engine, second, 1));
    match second {
        StepView::Call(next, waiting) => {
            assert(pending is Bounds);
            assert(!(waiting is Bounds));
            let third = next_step(waiting, engine(next));
            assert(run(engine, second, 1) == run(engine, third, 0));
            assert(!(third is Call));
        },
        _ => {},
    }
}

/// Under a fixed configuration the name of a family at a valid index is the
/// name that the engine holds at that index, and depends on nothing else.
pub proof fn law_family_name_is_the_engines(
    engine: spec_fn(CallView) -> ReplyView,
    mgr: usize,
    index: usize,
    count: i32,
    name: Seq<char>,
)
    requires
        engine(CallView::CountFamilies { mgr }) == ReplyView::Int(count),
        index < count,
        engine(CallView::FamilyName { mgr, index: index as i32 }) == ReplyView::Text(name),
    ensures
        run(engine, FontMgr::family_name_requested(mgr, index), 2) == StepView::Done(
            OutcomeView::Name(name),
        ),
{
    let target = Indexed::FamilyName { mgr };
    let second = next_step(Pending::Bounds { index, target }, ReplyView::Int(count));
    assert(run(engine, target.guarded(index), 2) == run(engine, second, 1));
    assert(second == StepView::Call(
        CallView::FamilyName { mgr, index: index as i32 },
        Pending::Name,
    ));
    let third = next_step(Pending::Name, ReplyView::Text(name));
    assert(run(engine, second, 1) == run(engine, third, 0));
}

/// An index that is not below the live count ends the exchange with a
/// violation, before anything but the count was asked of the engine. This
/// holds of every operation that takes an index.
pub proof fn law_index_beyond_count_aborts(
    engine: spec_fn(CallView) -> ReplyView,
    target: Indexed,
    index: usize,
    count: i32,
    calls: nat,
)
    requires
        engine(target.count_query()) == ReplyView::Int(count),
        index >= count,
        calls >= 1,
    ensures
        run(engine, target.guarded(index), calls) == StepView::Abort(
            if count < 0 {
                Violation::NegativeCount
            } else {
                Violation::IndexOutOfBounds
            },
        ),
{
    let second = next_step(Pending::Bounds { index, target }, ReplyView::Int(count));
    assert(run(engine, target.guarded(index), calls) == run(engine, second, (calls - 1) as nat));
}

/// A style set of which the engine counts no style reports the count 0, and
/// every access by index ends with a violation.
pub proof fn law_empty_set_rejects_every_index(
    engine: spec_fn(CallView) -> ReplyView,
    set: usize,
    index: usize,
    pattern: FontStyle,
)
    requires
        engine(CallView::StyleCount { set }) == ReplyView::Int(0),
    ensures
        run(engine, FontStyleSet::count_requested(set), 1) == StepView::Done(OutcomeView::Count(0)),
        run(engine, FontStyleSet::style_requested(set, index), 2) == StepView::Abort(
            Violation::IndexOutOfBounds,
        ),
        run(engine, FontStyleSet::new_typeface_requested(set, index), 2) == StepView::Abort(
            Violation::IndexOutOfBounds,
        ),
        run(engine, FontStyleSet::match_style_requested(set, index, pattern), 2) == StepView::Abort(
            Violation::IndexOutOfBounds,
        ),
{
    law_index_beyond_count_aborts(engine, Indexed::GetStyle { set }, index, 0, 2);
    law_index_beyond_count_aborts(engine, Indexed::CreateTypeface { set }, index, 0, 2);
    law_index_beyond_count_aborts(engine, Indexed::MatchStyle { set, pattern }, index, 0, 2);
    let counted = next_step(Pending::Count, ReplyView::Int(0));
    assert(run(engine, FontStyleSet::count_requested(set), 1) == run(engine, counted, 0));
}

/// A count is the count that the engine reported, for families and for
/// styles alike, and a negative one is a violation.
pub proof fn law_count_is_the_engines(
    engine: spec_fn(CallView) -> ReplyView,
    mgr: usize,
    families: i32,
    set: usize,
    styles: i32,
)
    requires
        engine(CallView::CountFamilies { mgr }) == ReplyView::Int(families),
        engine(CallView::StyleCount { set }) == ReplyView::Int(styles),
    ensures
        run(engine, FontMgr::count_families_requested(mgr), 1) == after_count(families),
        run(engine, FontStyleSet::count_requested(set), 1) == after_count(styles),
        after_count(families) is Done <==> families >= 0,
        after_count(families) matches StepView::Done(outcome) ==> outcome == OutcomeView::Count(
            families as usize,
        ),
{
    assert(run(engine, FontMgr::count_families_requested(mgr), 1) == run(
        engine,
        after_count(families),
        0,
    ));
    assert(run(engine, FontStyleSet::count_requested(set), 1) == run(
        engine,
        after_count(styles),
        0,
    ));
}

/// The style set of a family at a valid index is the object that the engine
/// returned. The engine owes one: the null pointer is a violation.
pub proof fn law_style_set_at_valid_index(
    engine: spec_fn(CallView) -> ReplyView,
    mgr: usize,
    index: usize,
    count: i32,
    address: usize,
)
    requires
        engine(CallView::CountFamilies { mgr }) == ReplyView::Int(count),
        index < count,
        engine(CallView::CreateStyleSet { mgr, index: index as i32 }) == ReplyView::Pointer(
            address,
        ),
    ensures
        run(engine, FontMgr::new_style_set_requested(mgr, index), 2) == if address != 0 {
            StepView::Done(OutcomeView::StyleSet(address))
        } else {
            StepView::Abort(Violation::NullObject)
        },
{
    let target = Indexed::CreateStyleSet { mgr };
    let second = next_step(Pending::Bounds { index, target }, ReplyView::Int(count));
    assert(run(engine, target.guarded(index), 2) == run(engine, second, 1));
    assert(second == StepView::Call(
        CallView::CreateStyleSet { mgr, index: index as i32 },
        Pending::StyleSet,
    ));
    let third = next_step(Pending::StyleSet, ReplyView::Pointer(address));
    assert(run(engine, second, 1) == run(engine, third, 0));
}

/// A typeface for a style at a valid index is made without a violation: the
/// exchange ends with the typeface that the engine returned, or with none
/// where it returned the null pointer.
pub proof fn law_typeface_at_valid_index(
    engine: spec_fn(CallView) -> ReplyView,
    set: usize,
    index: usize,
    count: i32,
    address: usize,
)
    requires
        engine(CallView::StyleCount { set }) == ReplyView::Int(count),
        index < count,
        engine(CallView::CreateTypeface { set, index: index as i32 }) == ReplyView::Pointer(
            address,
        ),
    ensures
        run(engine, FontStyleSet::new_typeface_requested(set, index), 2) == StepView::Done(
            OutcomeView::Typeface(wrapped(address)),
        ),
{
    let target = Indexed::CreateTypeface { set };
    let second = next_step(Pending::Bounds { index, target }, ReplyView::Int(count));
    assert(run(engine, target.guarded(index), 2) == run(engine, second, 1));
    assert(second == StepView::Call(
        CallView::CreateTypeface { set, index: index as i32 },
        Pending::Typeface,
    ));
    let third = next_step(Pending::Typeface, ReplyView::Pointer(address));
    assert(run(engine, second, 1) == run(engine, third, 0));
}

/// The style at a valid index is the one that the engine gave, with its name
/// unless that is empty.
pub proof fn law_style_at_valid_index(
    engine: spec_fn(CallView) -> ReplyView,
    set: usize,
    index: usize,
    count: i32,
    style: FontStyle,
    name: Seq<char>,
)
    requires
        engine(CallView::StyleCount { set }) == ReplyView::Int(count),
        index < count,
        engine(CallView::GetStyle { set, index: index as i32 }) == ReplyView::Style(style, name),
    ensures
        run(engine, FontStyleSet::style_requested(set, index), 2) == StepView::Done(
            OutcomeView::Style(style, reported_name(name)),
        ),
{
    let target = Indexed::GetStyle { set };
    let second = next_step(Pending::Bounds { index, target }, ReplyView::Int(count));
    assert(run(engine, target.guarded(index), 2) == run(engine, second, 1));
    assert(second == StepView::Call(
        CallView::GetStyle { set, index: index as i32 },
        Pending::Style,
    ));
    let third = next_step(Pending::Style, ReplyView::Style(style, name));
    assert(run(engine, second, 1) == run(engine, third, 0));
}

/// The family names are asked for in the order of their indices, one index
/// after the other, and the sequence ends after the last of them.
pub proof fn law_names_in_index_order(names: FamilyNames, steps: nat)
    ensures
        steps < names.left() ==> names.advanced_by(steps).requested()
            == FontMgr::family_name_requested(names.mgr, (names.next + steps) as usize),
        steps >= names.left() ==> names.advanced_by(steps).left() == 0,
        names.advanced_by(steps).mgr == names.mgr,
        names.advanced_by(steps).total == names.total,
    decreases steps,
{
    if steps > 0 {
        law_names_in_index_order(names.advanced(), (steps - 1) as nat);
    }
}

/// A family name is refused only for the character with the code 0 in it:
/// every other name reaches the engine.
pub proof fn law_only_code_zero_is_refused(mgr: usize, family_name: Seq<char>, style: FontStyle)
    ensures
        FontMgr::match_family_requested(mgr, encode_utf8(family_name)) is Call <==> without_code_zero(
            family_name,
        ),
        FontMgr::match_family_style_requested(mgr, encode_utf8(family_name), style) is Call
            <==> without_code_zero(family_name),
{
    law_nul_free_text(family_name);
}

/// A typeface from the bytes of a font file is an answer of the engine, never
/// a violation: whatever the bytes are, the exchange ends with the typeface
/// that the engine made of them, or with none where it made none.
pub proof fn law_typeface_from_data_never_aborts(
    engine: spec_fn(CallView) -> ReplyView,
    mgr: usize,
    bytes: Seq<u8>,
    ttc_index: Option<usize>,
    address: usize,
)
    requires
        ttc_index matches Some(face) ==> face <= NATIVE_INT_MAX,
        FontMgr::new_from_data_requested(mgr, bytes, ttc_index) matches StepView::Call(call, _)
            ==> engine(call) == ReplyView::Pointer(address),
    ensures
        run(engine, FontMgr::new_from_data_requested(mgr, bytes, ttc_index), 1)
            == StepView::Done(OutcomeView::Typeface(wrapped(address))),
        address == 0 ==> run(
            engine,
            FontMgr::new_from_data_requested(mgr, bytes, ttc_index),
            1,
        ) == StepView::Done(OutcomeView::Typeface(None)),
{
    let first = FontMgr::new_from_data_requested(mgr, bytes, ttc_index);
    let second = next_step(Pending::Typeface, ReplyView::Pointer(address));
    assert(first is Call);
    assert(run(engine, first, 1) == run(engine, second, 0));
}

/// A character for which the engine finds no family gives no typeface, and
/// no violation: the search ends with the typeface that the engine returned, or
/// with none where it returned the null pointer.
pub proof fn law_unmatched_character_is_none(
    engine: spec_fn(CallView) -> ReplyView,
    mgr: usize,
    family_name: Seq<u8>,
    style: FontStyle,
    bcp_47: Seq<Seq<u8>>,
    character: i32,
    address: usize,
)
    requires
        nul_free(family_name),
        nul_free_all(bcp_47),
        bcp_47.len() <= NATIVE_INT_MAX,
        FontMgr::match_family_style_character_requested(mgr, family_name, style, bcp_47, character)
            matches StepView::Call(call, _) ==> engine(call) == ReplyView::Pointer(address),
    ensures
        run(
            engine,
            FontMgr::match_family_style_character_requested(mgr, family_name, style, bcp_47, character),
            1,
        ) == StepView::Done(OutcomeView::Typeface(wrapped(address))),
        address == 0 ==> run(
            engine,
            FontMgr::match_family_style_character_requested(mgr, family_name, style, bcp_47, character),
            1,
        ) == StepView::Done(OutcomeView::Typeface(None)),
{
    let first = FontMgr::match_family_style_character_requested(
        mgr,
        family_name,
        style,
        bcp_47,
        character,
    );
    let second = next_step(Pending::Typeface, ReplyView::Pointer(address));
    assert(first is Call);
    assert(run(engine, first, 1) == run(engine, second, 0));
}

} // verus!
