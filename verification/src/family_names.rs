//! The family names of a font manager as a sequence that is asked for name by
//! name.

use vstd::prelude::*;
use crate::exchange::{Indexed, Step, StepView};
use crate::handle::FontMgr;

verus! {

/// The names of the families at the indices from `next` up to `total`, of the
/// font manager at `mgr`. Nothing is asked of the engine before the sequence
/// is advanced, and no name is kept: a new enumeration asks again.
#[derive(Clone, Copy, PartialEq, Eq, Structural, Debug)]
pub struct FamilyNames {
    pub mgr: usize,
    pub next: usize,
    pub total: usize,
}

impl FamilyNames {
    /// The number of names that the sequence has yet to give.
    pub open spec fn left(self) -> nat {
        if self.next < self.total {
            (self.total - self.next) as nat
        } else {
            0
        }
    }

    /// The first step of the exchange for the next name: that of
    /// `family_name` for the next index.
    pub open spec fn requested(self) -> StepView {
        FontMgr::family_name_requested(self.mgr, self.next)
    }

    /// The sequence after its next name was asked for.
    pub open spec fn advanced(self) -> FamilyNames {
        if self.left() > 0 {
            FamilyNames { mgr: self.mgr, next: (self.next + 1) as usize, total: self.total }
        } else {
            self
        }
    }

    /// The sequence after its next `steps` names were asked for.
    pub open spec fn advanced_by(self, steps: nat) -> FamilyNames
        decreases steps,
    {
        if steps == 0 {
            self
        } else {
            self.advanced().advanced_by((steps - 1) as nat)
        }
    }

    /// The number of names that the sequence has yet to give.
    pub fn remaining(&self) -> (count: usize)
        ensures
            count == self.left(),
    {
        if self.next < self.total {
            self.total - self.next
        } else {
            0
        }
    }

    /// Advances the sequence. While names are left, it begins the exchange
    /// for the name of the family at the next index, which is that of
    /// `family_name` for this index: the live count is asked for first. After
    /// the last name it gives nothing and stays where it is.
    pub fn next(&mut self) -> (step: Option<Step>)
        ensures
            *final(self) == old(self).advanced(),
            match step {
                Some(first) => old(self).left() > 0 && first@ == old(self).requested(),
                None => old(self).left() == 0,
            },
    {
        if self.next < self.total {
            let index: usize = self.next;
            self.next = index + 1;
            Some((Indexed::FamilyName { mgr: self.mgr }).guard(index))
        } else {
            None
        }
    }
}

} // verus!
