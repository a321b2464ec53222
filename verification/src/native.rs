//! The native boundary in values: each entry point of the engine with its
//! encoded arguments, and each kind of reply.

use vstd::prelude::*;
use crate::style::FontStyle;

verus! {

/// One call of a native entry point, with its arguments as the engine takes
/// them: objects by address, names zero-terminated, integers 32-bit signed.
/// The caller that performs the call owns the buffers for as long as the call
/// runs.
#[derive(Debug, PartialEq, Eq)]
pub enum Call {
    /// A new reference to the default font manager.
    RefDefault,
    /// The number of families of `mgr`.
    CountFamilies { mgr: usize },
    /// The name of the family at `index`.
    FamilyName { mgr: usize, index: i32 },
    /// The style set of the family at `index`.
    CreateStyleSet { mgr: usize, index: i32 },
    /// The style set of the family that the engine finds closest to the name.
    MatchFamily { mgr: usize, family_name: Vec<u8> },
    /// The typeface closest to the name and style.
    MatchFamilyStyle { mgr: usize, family_name: Vec<u8>, style: FontStyle },
    /// The typeface closest to the name and style that has a glyph for
    /// `character`, with the locale tags in their order of preference.
    MatchFamilyStyleCharacter {
        mgr: usize,
        family_name: Vec<u8>,
        style: FontStyle,
        bcp_47: Vec<Vec<u8>>,
        bcp_47_count: i32,
        character: i32,
    },
    /// A typeface from the bytes of a font file. The stream is handed over:
    /// the engine owns and releases it.
    MakeFromStream { mgr: usize, stream: Vec<u8>, ttc_index: i32 },
    /// A style set without entries.
    CreateEmpty,
    /// The number of styles of `set`.
    StyleCount { set: usize },
    /// The style at `index` and its name.
    GetStyle { set: usize, index: i32 },
    /// The typeface of the style at `index`.
    CreateTypeface { set: usize, index: i32 },
    /// The typeface of the style closest to `pattern`.
    MatchStyle { set: usize, pattern: FontStyle },
}

/// What a native call gave back.
#[derive(Debug, PartialEq, Eq)]
pub enum Reply {
    /// A count.
    Int(i32),
    /// A name, copied out of the engine's string.
    Text(String),
    /// A style and its name, copied out of the storage that the call filled.
    Style(FontStyle, String),
    /// The address of an object, or zero for the null pointer.
    Pointer(usize),
}

/// A `Call` as a mathematical value.
pub enum CallView {
    RefDefault,
    CountFamilies { mgr: usize },
    FamilyName { mgr: usize, index: i32 },
    CreateStyleSet { mgr: usize, index: i32 },
    MatchFamily { mgr: usize, family_name: Seq<u8> },
    MatchFamilyStyle { mgr: usize, family_name: Seq<u8>, style: FontStyle },
    MatchFamilyStyleCharacter {
        mgr: usize,
        family_name: Seq<u8>,
        style: FontStyle,
        bcp_47: Seq<Seq<u8>>,
        bcp_47_count: i32,
        character: i32,
    },
    MakeFromStream { mgr: usize, stream: Seq<u8>, ttc_index: i32 },
    CreateEmpty,
    StyleCount { set: usize },
    GetStyle { set: usize, index: i32 },
    CreateTypeface { set: usize, index: i32 },
    MatchStyle { set: usize, pattern: FontStyle },
}

/// A `Reply` as a mathematical value.
pub enum ReplyView {
    Int(i32),
    Text(Seq<char>),
    Style(FontStyle, Seq<char>),
    Pointer(usize),
}

impl View for Call {
    type V = CallView;

    open spec fn view(&self) -> CallView {
        match *self {
            Call::RefDefault => CallView::RefDefault,
            Call::CountFamilies { mgr } => CallView::CountFamilies { mgr },
            Call::FamilyName { mgr, index } => CallView::FamilyName { mgr, index },
            Call::CreateStyleSet { mgr, index } => CallView::CreateStyleSet { mgr, index },
            Call::MatchFamily { mgr, family_name } => CallView::MatchFamily {
                mgr,
                family_name: family_name@,
            },
            Call::MatchFamilyStyle { mgr, family_name, style } => CallView::MatchFamilyStyle {
                mgr,
                family_name: family_name@,
                style,
            },
            Call::MatchFamilyStyleCharacter {
                mgr,
                family_name,
                style,
                bcp_47,
                bcp_47_count,
                character,
            } => CallView::MatchFamilyStyleCharacter {
                mgr,
                family_name: family_name@,
                style,
                bcp_47: bcp_47.deep_view(),
                bcp_47_count,
                character,
            },
            Call::MakeFromStream { mgr, stream, ttc_index } => CallView::MakeFromStream {
                mgr,
                stream: stream@,
                ttc_index,
            },
            Call::CreateEmpty => CallView::CreateEmpty,
            Call::StyleCount { set } => CallView::StyleCount { set },
            Call::GetStyle { set, index } => CallView::GetStyle { set, index },
            Call::CreateTypeface { set, index } => CallView::CreateTypeface { set, index },
            Call::MatchStyle { set, pattern } => CallView::MatchStyle { set, pattern },
        }
    }
}

impl View for Reply {
    type V = ReplyView;

    open spec fn view(&self) -> ReplyView {
        match *self {
            Reply::Int(count) => ReplyView::Int(count),
            Reply::Text(text) => ReplyView::Text(text@),
            Reply::Style(style, name) => ReplyView::Style(style, name@),
            Reply::Pointer(address) => ReplyView::Pointer(address),
        }
    }
}

} // verus!
