//! Host side of a binding to a native font manager.
//!
//! The native engine owns every font object and makes every decision about
//! fonts. This crate holds what the host decides around each native call:
//! how arguments are encoded, which index may be handed over, and how a reply
//! becomes a host value. It never calls the engine itself. Each operation is
//! an exchange: the crate names the next native call, the caller performs it
//! and hands the reply back.
//!
//! - `handle`: the host handles `FontMgr`, `FontStyleSet` and `Typeface`.
//! - `font_mgr`, `font_style_set`: the operations, each as the first step of
//!   its exchange.
//! - `exchange`: the steps of an exchange and the decision between two calls.
//! - `family_names`: the family names as a sequence asked for name by name.
//! - `native`: the calls and replies that cross the boundary.
//! - `marshal`: the encodings of names, integers and indices.
//! - `laws`: what holds of every exchange.

pub mod exchange;
pub mod family_names;
pub mod font_mgr;
pub mod font_style_set;
pub mod handle;
pub mod laws;
pub mod marshal;
pub mod native;
pub mod style;
pub mod violation;

pub use exchange::{Indexed, Outcome, Pending, Step};
pub use family_names::FamilyNames;
pub use handle::{FontMgr, FontStyleSet, Typeface};
pub use native::{Call, Reply};
pub use style::{FontStyle, Slant};
pub use violation::Violation;
