//! Host handles to native objects.
//!
//! A handle stands for one reference to a native object and holds its
//! address, which is never null. It cannot be copied: a second reference is the
//! engine's to count, so the caller that owns the native side makes it.

use vstd::prelude::*;

verus! {

/// One reference to a native typeface: one concrete font face.
#[derive(Debug, PartialEq, Eq)]
pub struct Typeface {
    native: usize,
}

/// One reference to a native style set: the style variants of one family.
#[derive(Debug, PartialEq, Eq)]
pub struct FontStyleSet {
    native: usize,
}

/// One reference to a native font manager.
#[derive(Debug, PartialEq, Eq)]
pub struct FontMgr {
    native: usize,
}

/// The handle that a returned pointer stands for, as its address: none for
/// the null pointer.
pub open spec fn wrapped(address: usize) -> Option<usize> {
    if address == 0 {
        None
    } else {
        Some(address)
    }
}

impl View for Typeface {
    type V = usize;

    /// The address of the native object.
    closed spec fn view(&self) -> usize {
        self.native
    }
}

impl View for FontStyleSet {
    type V = usize;

    /// The address of the native object.
    closed spec fn view(&self) -> usize {
        self.native
    }
}

impl View for FontMgr {
    type V = usize;

    /// The address of the native object.
    closed spec fn view(&self) -> usize {
        self.native
    }
}

impl Typeface {
    #[verifier::type_invariant]
    spec fn non_null(self) -> bool {
        self.native != 0
    }

    /// Wraps the address that the engine returned. The null pointer is no
    /// typeface.
    pub fn from_ptr(address: usize) -> (handle: Option<Typeface>)
        ensures
            handle is Some <==> address != 0,
            handle matches Some(typeface) ==> typeface@ == address,
    {
        if address == 0 {
            None
        } else {
            Some(Typeface { native: address })
        }
    }

    /// The address of the native object.
    pub fn native(&self) -> (address: usize)
        ensures
            address == self@,
            address != 0,
    {
        proof {
            use_type_invariant(self);
        }
        self.native
    }
}

impl FontStyleSet {
    #[verifier::type_invariant]
    spec fn non_null(self) -> bool {
        self.native != 0
    }

    /// Wraps the address that the engine returned. The null pointer is no
    /// style set.
    pub fn from_ptr(address: usize) -> (handle: Option<FontStyleSet>)
        ensures
            handle is Some <==> address != 0,
            handle matches Some(set) ==> set@ == address,
    {
        if address == 0 {
            None
        } else {
            Some(FontStyleSet { native: address })
        }
    }

    /// The address of the native object.
    pub fn native(&self) -> (address: usize)
        ensures
            address == self@,
            address != 0,
    {
        proof {
            use_type_invariant(self);
        }
        self.native
    }
}

impl FontMgr {
    #[verifier::type_invariant]
    spec fn non_null(self) -> bool {
        self.native != 0
    }

    /// Wraps the address that the engine returned. The null pointer is no
    /// font manager.
    pub fn from_ptr(address: usize) -> (handle: Option<FontMgr>)
        ensures
            handle is Some <==> address != 0,
            handle matches Some(mgr) ==> mgr@ == address,
    {
        if address == 0 {
            None
        } else {
            Some(FontMgr { native: address })
        }
    }

    /// The address of the native object.
    pub fn native(&self) -> (address: usize)
        ensures
            address == self@,
            address != 0,
    {
        proof {
            use_type_invariant(self);
        }
        self.native
    }
}

} // verus!
