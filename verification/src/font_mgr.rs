//! The operations of a font manager: family and style discovery, matching,
//! and typefaces from the bytes of a font file.

use vstd::prelude::*;
use vstd::slice::slice_to_vec;
use vstd::string::StringSliceAdditionalSpecFns;
use crate::exchange::{Indexed, Pending, Step, StepView};
use crate::handle::{FontMgr, Typeface};
use crate::marshal::{
    bytes_of_all,
    c_string,
    c_string_array,
    native_int,
    nul_free,
    nul_free_all,
    terminated,
    terminated_all,
    NATIVE_INT_MAX,
};
use crate::native::{Call, CallView};
use crate::style::FontStyle;
use crate::violation::Violation;

verus! {

impl FontMgr {
    /// The first step of `new`.
    pub open spec fn new_requested() -> StepView {
        StepView::Call(CallView::RefDefault, Pending::FontMgr)
    }

    /// The first step of `count_families` on the font manager at `mgr`.
    pub open spec fn count_families_requested(mgr: usize) -> StepView {
        StepView::Call(CallView::CountFamilies { mgr }, Pending::Count)
    }

    /// The first step of `family_name` on the font manager at `mgr`.
    pub open spec fn family_name_requested(mgr: usize, index: usize) -> StepView {
        (Indexed::FamilyName { mgr }).guarded(index)
    }

    /// The first step of `new_style_set` on the font manager at `mgr`.
    pub open spec fn new_style_set_requested(mgr: usize, index: usize) -> StepView {
        (Indexed::CreateStyleSet { mgr }).guarded(index)
    }

    /// The first step of `family_names`.
    pub open spec fn family_names_requested(mgr: usize) -> StepView {
        StepView::Call(CallView::CountFamilies { mgr }, Pending::NamesTotal { mgr })
    }

    /// The first step of `match_family` for a name with the given bytes.
    pub open spec fn match_family_requested(mgr: usize, family_name: Seq<u8>) -> StepView {
        if nul_free(family_name) {
            StepView::Call(
                CallView::MatchFamily { mgr, family_name: terminated(family_name) },
                Pending::StyleSet,
            )
        } else {
            StepView::Abort(Violation::InteriorNul)
        }
    }

    /// The first step of `match_family_style` for a name with the given
    /// bytes.
    pub open spec fn match_family_style_requested(
        mgr: usize,
        family_name: Seq<u8>,
        style: FontStyle,
    ) -> StepView {
        if nul_free(family_name) {
            StepView::Call(
                CallView::MatchFamilyStyle { mgr, family_name: terminated(family_name), style },
                Pending::Typeface,
            )
        } else {
            StepView::Abort(Violation::InteriorNul)
        }
    }

    /// The first step of `match_family_style_character` for a name and
    /// locale tags with the given bytes.
    pub open spec fn match_family_style_character_requested(
        mgr: usize,
        family_name: Seq<u8>,
        style: FontStyle,
        bcp_47: Seq<Seq<u8>>,
        character: i32,
    ) -> StepView {
        if !nul_free(family_name) || !nul_free_all(bcp_47) {
            StepView::Abort(Violation::InteriorNul)
        } else if bcp_47.len() > NATIVE_INT_MAX {
            StepView::Abort(Violation::ExceedsNativeInt)
        } else {
            StepView::Call(
                CallView::MatchFamilyStyleCharacter {
                    mgr,
                    family_name: terminated(family_name),
                    style,
                    bcp_47: terminated_all(bcp_47),
                    bcp_47_count: bcp_47.len() as i32,
                    character,
                },
                Pending::Typeface,
            )
        }
    }

    /// The first step of `new_from_data`.
    pub open spec fn new_from_data_requested(
        mgr: usize,
        bytes: Seq<u8>,
        ttc_index: Option<usize>,
    ) -> StepView {
        let face: usize = match ttc_index {
            Some(face) => face,
            None => 0,
        };
        if face > NATIVE_INT_MAX {
            StepView::Abort(Violation::ExceedsNativeInt)
        } else {
            StepView::Call(
                CallView::MakeFromStream { mgr, stream: bytes, ttc_index: face as i32 },
                Pending::Typeface,
            )
        }
    }

    /// Begins the request for a reference to the engine's default font
    /// manager. The exchange ends with the font manager; a null pointer from
    /// the engine is a violation.
    pub fn new() -> (step: Step)
        ensures
            step@ == Self::new_requested(),
    {
        Step::Call(Call::RefDefault, Pending::FontMgr)
    }

    /// Begins the query for the number of families. The exchange ends with the
    /// count; a negative count from the engine is a violation.
    pub fn count_families(&self) -> (step: Step)
        ensures
            step@ == Self::count_families_requested(self@),
    {
        Step::Call(Call::CountFamilies { mgr: self.native() }, Pending::Count)
    }

    /// Begins the query for the name of the family at `index`. The index is
    /// held against the live count first: the exchange ends with the name if
    /// the index is below that count, and with a violation if it is not.
    pub fn family_name(&self, index: usize) -> (step: Step)
        ensures
            step@ == Self::family_name_requested(self@, index),
    {
        (Indexed::FamilyName { mgr: self.native() }).guard(index)
    }

    /// Begins the enumeration of the family names. The exchange ends with the
    /// sequence of as many names as the engine counts families now; each name
    /// is asked for only when the sequence is advanced, as `family_name` does.
    /// A negative count from the engine is a violation.
    pub fn family_names(&self) -> (step: Step)
        ensures
            step@ == Self::family_names_requested(self@),
    {
        let mgr: usize = self.native();
        Step::Call(Call::CountFamilies { mgr }, Pending::NamesTotal { mgr })
    }

    /// The former name of `new_style_set`.
    pub fn new_styleset(&self, index: usize) -> (step: Step)
        ensures
            step@ == Self::new_style_set_requested(self@, index),
    {
        self.new_style_set(index)
    }

    /// Begins the making of the style set for the family at `index`. The
    /// index is held against the live count first: the exchange ends with the
    /// style set if the index is below that count, and with a violation if it
    /// is not, or if the engine returns a null pointer.
    pub fn new_style_set(&self, index: usize) -> (step: Step)
        ensures
            step@ == Self::new_style_set_requested(self@, index),
    {
        (Indexed::CreateStyleSet { mgr: self.native() }).guard(index)
    }

    /// Begins the search for the style set of the family that the engine
    /// finds closest to `family_name`. The name is handed over
    /// zero-terminated; a name with a zero byte inside is a violation, and so
    /// is a null pointer from the engine.
    pub fn match_family(&self, family_name: &str) -> (step: Step)
        ensures
            step@ == Self::match_family_requested(self@, family_name.spec_bytes()),
    {
        match c_string(family_name) {
            Some(family_name) => Step::Call(
                Call::MatchFamily { mgr: self.native(), family_name },
                Pending::StyleSet,
            ),
            None => Step::Abort(Violation::InteriorNul),
        }
    }

    /// Begins the search for the typeface closest to `family_name` and
    /// `style`. The exchange ends with the typeface, or with none where the
    /// engine found none. A name with a zero byte inside is a violation.
    pub fn match_family_style(&self, family_name: &str, style: FontStyle) -> (step: Step)
        ensures
            step@ == Self::match_family_style_requested(self@, family_name.spec_bytes(), style),
    {
        match c_string(family_name) {
            Some(family_name) => Step::Call(
                Call::MatchFamilyStyle { mgr: self.native(), family_name, style },
                Pending::Typeface,
            ),
            None => Step::Abort(Violation::InteriorNul),
        }
    }

    /// Begins the search for the typeface closest to `family_name` and
    /// `style` that has a glyph for `character`. The locale tags are handed
    /// over in their order, each zero-terminated, with their number. The
    /// exchange ends with the typeface, or with none where no family has the
    /// glyph. A name or tag with a zero byte inside is a violation, and so are
    /// more tags than the engine's integer counts.
    pub fn match_family_style_character(
        &self,
        family_name: &str,
        style: FontStyle,
        bcp_47: &[&str],
        character: i32,
    ) -> (step: Step)
        ensures
            step@ == Self::match_family_style_character_requested(
                self@,
                family_name.spec_bytes(),
                style,
                bytes_of_all(bcp_47@),
                character,
            ),
    {
        let family_name = match c_string(family_name) {
            Some(family_name) => family_name,
            None => {
                return Step::Abort(Violation::InteriorNul);
            },
        };
        let tags = match c_string_array(bcp_47) {
            Some(tags) => tags,
            None => {
                return Step::Abort(Violation::InteriorNul);
            },
        };
        match native_int(bcp_47.len()) {
            Some(bcp_47_count) => Step::Call(
                Call::MatchFamilyStyleCharacter {
                    mgr: self.native(),
                    family_name,
                    style,
                    bcp_47: tags,
                    bcp_47_count,
                    character,
                },
                Pending::Typeface,
            ),
            None => Step::Abort(Violation::ExceedsNativeInt),
        }
    }

    /// A removed operation, kept for its signature: it is a violation
    /// whatever it is given.
    pub fn match_face_style(&self, typeface: &Typeface, style: FontStyle) -> (step: Step)
        ensures
            step@ == StepView::Abort(Violation::Removed),
    {
        Step::Abort(Violation::Removed)
    }

    /// Begins the making of a typeface from the bytes of a font file. The
    /// bytes are copied into a stream of the call's own, which is handed over
    /// to the engine; `ttc_index` selects a face within a collection and is 0
    /// when not given. The exchange ends with the typeface, or with none where
    /// the engine could make none of the bytes. An index beyond the engine's
    /// integer is a violation.
    pub fn new_from_data(&self, bytes: &[u8], ttc_index: Option<usize>) -> (step: Step)
        ensures
            step@ == Self::new_from_data_requested(self@, bytes@, ttc_index),
    {
        match native_int(ttc_index.unwrap_or(0)) {
            Some(ttc_index) => Step::Call(
                Call::MakeFromStream { mgr: self.native(), stream: slice_to_vec(bytes), ttc_index },
                Pending::Typeface,
            ),
            None => Step::Abort(Violation::ExceedsNativeInt),
        }
    }
}

} // verus!
