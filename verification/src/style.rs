//! The style descriptor that matching calls take and style enumeration gives.

use vstd::prelude::*;

verus! {

/// How far the glyphs of a face lean.
#[derive(Clone, Copy, PartialEq, Eq, Structural, Debug)]
pub enum Slant {
    Upright,
    Italic,
    Oblique,
}

/// Weight, width and slant of one font variant. A plain value: it is copied
/// into and out of native calls and owns nothing.
#[derive(Clone, Copy, PartialEq, Eq, Structural, Debug)]
pub struct FontStyle {
    pub weight: i32,
    pub width: i32,
    pub slant: Slant,
}

} // verus!
