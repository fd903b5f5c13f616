//! Memory-ordering selectors for cell operations.
//!
//! Every operation on an exclusive cell takes an explicit ordering.
//! Orderings come in directions: a pure load may be `Relaxed`, `Acquire`
//! or `SeqCst`; a pure store may be `Relaxed`, `Release` or `SeqCst`;
//! a conditional store is a read-modify-write and accepts all five.
//! Passing an ordering that is invalid for an operation's direction is a
//! programming error, so the cell operations reject it by precondition
//! rather than silently substituting a weaker or stronger one.

use vstd::prelude::*;

verus! {

/// A memory ordering requested for a single cell operation.
#[derive(Clone, Copy, Debug, PartialEq, Eq, Structural)]
pub enum Ordering {
    Relaxed,
    Acquire,
    Release,
    AcqRel,
    SeqCst,
}

impl Ordering {
    /// Which orderings a pure load may carry.
    pub open spec fn spec_valid_for_load(self) -> bool {
        self is Relaxed || self is Acquire || self is SeqCst
    }

    /// Which orderings a pure unconditional store may carry.
    pub open spec fn spec_valid_for_store(self) -> bool {
        self is Relaxed || self is Release || self is SeqCst
    }

    /// Tells whether `self` may be used for a pure load.
    /// `Release` and `AcqRel` have no meaning on the load side.
    pub fn valid_for_load(&self) -> (r: bool)
        ensures
            r == self.spec_valid_for_load(),
    {
        match self {
            Ordering::Relaxed => true,
            Ordering::Acquire => true,
            Ordering::SeqCst => true,
            Ordering::Release => false,
            Ordering::AcqRel => false,
        }
    }

    /// Tells whether `self` may be used for a pure unconditional store.
    /// `Acquire` and `AcqRel` have no meaning on the store side.
    pub fn valid_for_store(&self) -> (r: bool)
        ensures
            r == self.spec_valid_for_store(),
    {
        match self {
            Ordering::Relaxed => true,
            Ordering::Release => true,
            Ordering::SeqCst => true,
            Ordering::Acquire => false,
            Ordering::AcqRel => false,
        }
    }
}

} // verus!
