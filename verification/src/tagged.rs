//! The tagged-CAS backend: value and version packed side by side in one
//! double-width atom, updated by a single hardware compare-and-swap.
//!
//! The cell's state is a half-word value and a half-word version tag
//! packed into one `AtomicU64`, so a single compare-exchange replaces
//! both together and no intermediate state is ever observable. A
//! conditional store's expected operand is the snapshot's packed
//! (value, version) pair; its desired operand carries the new value and
//! a version tag never previously installed, drawn from a ticket
//! counter, so a snapshot taken before any successful store can never
//! match the cell again - even when the value was restored bit for bit.
//! On failure, the compare-exchange itself reports the current packed
//! pair, which becomes the fresh retry snapshot without a second memory
//! round trip.
//!
//! Version tags repeat only after the ticket counter wraps, i.e. after
//! 2^32 successful stores between a snapshot and its store attempt;
//! as with the version counter of the fallback backend, that is treated
//! as unreachable in practice.
//!
//! This backend is lock-free but halves the payload width: a payload
//! must fit the half-word beside the tag (see [`Isu32`]). The packed
//! atom is naturally aligned by its own type, as the double-width
//! instruction requires, so no run-time alignment fix-up is needed.

use core::marker::PhantomData;
use core::sync::atomic::Ordering as CoreOrdering;
use core::sync::atomic::{AtomicU32, AtomicU64};
use vstd::arithmetic::div_mod::{lemma_fundamental_div_mod, lemma_fundamental_div_mod_converse};
use vstd::prelude::*;

use crate::codec::Isu32;
use crate::ordering::Ordering;

verus! {

/// The packed double-width word: the version tag in the high half, the
/// value in the low half.
pub open spec fn spec_pack(v: u32, c: u32) -> int {
    c * 0x1_0000_0000 + v
}

/// The value half of a packed word.
pub open spec fn spec_val_of(p: u64) -> int {
    p as int % 0x1_0000_0000
}

/// The version half of a packed word.
pub open spec fn spec_ctr_of(p: u64) -> int {
    p as int / 0x1_0000_0000
}

/// Packing then unpacking recovers the value and the version.
pub proof fn lemma_pack_unpack(v: u32, c: u32)
    ensures
        spec_val_of(spec_pack(v, c) as u64) == v,
        spec_ctr_of(spec_pack(v, c) as u64) == c,
{
    lemma_fundamental_div_mod_converse(spec_pack(v, c), 0x1_0000_0000, c as int, v as int);
}

/// Unpacking then packing recovers the packed word, so packing is a
/// bijection between (value, version) pairs and double-width words.
pub proof fn lemma_unpack_pack(p: u64)
    ensures
        spec_pack(spec_val_of(p) as u32, spec_ctr_of(p) as u32) == p,
{
    lemma_fundamental_div_mod(p as int, 0x1_0000_0000);
}

/// Packs a value and a version tag into one double-width word.
fn pack(v: u32, c: u32) -> (p: u64)
    ensures
        p as int == spec_pack(v, c),
{
    (c as u64) * 0x1_0000_0000u64 + (v as u64)
}

/// The value half of a packed word.
fn val_of(p: u64) -> (v: u32)
    ensures
        v as int == spec_val_of(p),
{
    (p % 0x1_0000_0000u64) as u32
}

/// The version half of a packed word.
fn ctr_of(p: u64) -> (c: u32)
    ensures
        c as int == spec_ctr_of(p),
{
    (p / 0x1_0000_0000u64) as u32
}

/// Relies on core::sync::atomic::Ordering: picks the core ordering with
/// the same name as a load-direction ordering of this crate.
#[verifier::external_body]
fn to_core_load(ord: Ordering) -> CoreOrdering
    requires
        ord.spec_valid_for_load(),
{
    match ord {
        Ordering::Relaxed => CoreOrdering::Relaxed,
        Ordering::Acquire => CoreOrdering::Acquire,
        _ => CoreOrdering::SeqCst,
    }
}

/// Relies on core::sync::atomic::Ordering: picks the core ordering with
/// the same name as a store-direction ordering of this crate.
#[verifier::external_body]
fn to_core_store(ord: Ordering) -> CoreOrdering
    requires
        ord.spec_valid_for_store(),
{
    match ord {
        Ordering::Relaxed => CoreOrdering::Relaxed,
        Ordering::Release => CoreOrdering::Release,
        _ => CoreOrdering::SeqCst,
    }
}

/// Relies on core::sync::atomic::Ordering: picks the core ordering with
/// the same name; read-modify-write operations accept all five.
#[verifier::external_body]
fn to_core_rmw(ord: Ordering) -> CoreOrdering
{
    match ord {
        Ordering::Relaxed => CoreOrdering::Relaxed,
        Ordering::Acquire => CoreOrdering::Acquire,
        Ordering::Release => CoreOrdering::Release,
        Ordering::AcqRel => CoreOrdering::AcqRel,
        Ordering::SeqCst => CoreOrdering::SeqCst,
    }
}

/// Relies on core::sync::atomic::AtomicU64::compare_exchange: the result
/// is `Ok` carrying the previous word exactly when that word equaled
/// `current` (and then `new` was installed), and otherwise `Err`
/// carrying the differing word actually found, with nothing installed.
/// The failure ordering handed to the hardware is the load-direction
/// part of `ord`, as compare_exchange requires.
#[verifier::external_body]
fn cas_u64(cell: &AtomicU64, current: u64, new: u64, ord: Ordering) -> (r: Result<u64, u64>)
    ensures
        r matches Ok(p) ==> p == current,
        r matches Err(p) ==> p != current,
{
    let (succ, fail) = match ord {
        Ordering::Relaxed => (CoreOrdering::Relaxed, CoreOrdering::Relaxed),
        Ordering::Acquire => (CoreOrdering::Acquire, CoreOrdering::Acquire),
        Ordering::Release => (CoreOrdering::Release, CoreOrdering::Relaxed),
        Ordering::AcqRel => (CoreOrdering::AcqRel, CoreOrdering::Acquire),
        Ordering::SeqCst => (CoreOrdering::SeqCst, CoreOrdering::SeqCst),
    };
    cell.compare_exchange(current, new, succ, fail)
}

/// An exclusive-access cell over the tagged-CAS backend.
///
/// The cell is safely shared by reference across threads; all mutation
/// goes through single atomic instructions, so this backend is
/// lock-free.
pub struct ExclusiveData<T: Isu32> {
    cell: AtomicU64,
    ticket: AtomicU32,
    marker: PhantomData<T>,
}

/// A single-use snapshot of a tagged cell's (value, version) state,
/// produced by [`ExclusiveData::load_linked`].
pub struct LinkedData<'a, T: Isu32> {
    val: u32,
    ctr: u32,
    ex_ptr: &'a ExclusiveData<T>,
}

impl<T: Isu32> ExclusiveData<T> {
    /// Creates a cell holding `val`, at version zero.
    pub fn new(val: T) -> ExclusiveData<T>
        requires
            val.spec_fits(),
    {
        let p = pack(val.to_u32(), 0);
        ExclusiveData {
            cell: AtomicU64::new(p),
            ticket: AtomicU32::new(1),
            marker: PhantomData,
        }
    }

    /// Loads the current value. `ord` must be valid for a load.
    pub fn load(&self, ord: Ordering) -> (r: T)
        requires
            ord.spec_valid_for_load(),
        ensures
            exists|w: u32| r == T::of_word(w),
    {
        let p = self.cell.load(to_core_load(ord));
        T::from_u32(val_of(p))
    }

    /// Stores `val` unconditionally, with a version tag never installed
    /// before, so every outstanding snapshot will fail its conditional
    /// store. `ord` must be valid for a store.
    pub fn store_direct(&self, val: T, ord: Ordering)
        requires
            val.spec_fits(),
            ord.spec_valid_for_store(),
    {
        let c = self.ticket.fetch_add(1, to_core_rmw(Ordering::Relaxed));
        let _ = self.cell.swap(pack(val.to_u32(), c), to_core_store(ord));
    }

    /// Stores `val` unconditionally and returns the value it replaced.
    /// `ord` must be valid for a store. Poisons outstanding snapshots
    /// exactly as [`Self::store_direct`] does.
    pub fn exchange_direct(&self, val: T, ord: Ordering) -> (r: T)
        requires
            val.spec_fits(),
            ord.spec_valid_for_store(),
        ensures
            exists|w: u32| r == T::of_word(w),
    {
        let c = self.ticket.fetch_add(1, to_core_rmw(Ordering::Relaxed));
        let prev = self.cell.swap(pack(val.to_u32(), c), to_core_store(ord));
        T::from_u32(val_of(prev))
    }

    /// Captures the current (value, version) state as one unit - both
    /// halves come from a single atomic read of the packed word. `ord`
    /// must be valid for a load.
    pub fn load_linked(&self, ord: Ordering) -> (r: LinkedData<'_, T>)
        requires
            ord.spec_valid_for_load(),
        ensures
            r.cell() == self,
    {
        let p = self.cell.load(to_core_load(ord));
        LinkedData { val: val_of(p), ctr: ctr_of(p), ex_ptr: self }
    }
}

impl<'a, T: Isu32> LinkedData<'a, T> {
    /// The captured half-word.
    pub closed spec fn word(self) -> u32 {
        self.val
    }

    /// The captured version tag.
    pub closed spec fn version(self) -> u32 {
        self.ctr
    }

    /// The cell this snapshot was taken from.
    pub closed spec fn cell(self) -> &'a ExclusiveData<T> {
        self.ex_ptr
    }

    /// The value captured at the load-linked; pure, no synchronization.
    pub fn get(&self) -> (r: T)
        ensures
            r == T::of_word(self.word()),
    {
        T::from_u32(self.val)
    }

    /// Attempts to replace the cell's value with `val` by one
    /// double-width compare-and-swap, succeeding if and only if the
    /// cell still holds this snapshot's packed (value, version) pair.
    /// Being a read-modify-write, it accepts every ordering.
    ///
    /// Returns `None` on success. On failure returns a fresh snapshot
    /// of the pair that defeated the attempt - which therefore differs
    /// from the consumed snapshot - reported by the hardware
    /// compare-and-swap itself.
    pub fn store_conditional(self, val: T, ord: Ordering) -> (r: Option<LinkedData<'a, T>>)
        requires
            val.spec_fits(),
        ensures
            r matches Some(nll) ==> nll.cell() == self.cell() && (nll.word(), nll.version())
                != (self.word(), self.version()),
    {
        let c = self.ex_ptr.ticket.fetch_add(1, to_core_rmw(Ordering::Relaxed));
        let expected = pack(self.val, self.ctr);
        let desired = pack(val.to_u32(), c);
        match cas_u64(&self.ex_ptr.cell, expected, desired, ord) {
            Ok(_) => None,
            Err(p) => {
                proof {
                    lemma_pack_unpack(self.val, self.ctr);
                    lemma_unpack_pack(p);
                }
                Some(LinkedData { val: val_of(p), ctr: ctr_of(p), ex_ptr: self.ex_ptr })
            },
        }
    }

    /// Same success condition as [`Self::store_conditional`], but
    /// reports only success or failure, discarding the retry snapshot;
    /// for callers who will reissue `load_linked` themselves.
    pub fn try_store_conditional(self, val: T, ord: Ordering) -> (r: bool)
        requires
            val.spec_fits(),
    {
        let c = self.ex_ptr.ticket.fetch_add(1, to_core_rmw(Ordering::Relaxed));
        let expected = pack(self.val, self.ctr);
        let desired = pack(val.to_u32(), c);
        cas_u64(&self.ex_ptr.cell, expected, desired, ord).is_ok()
    }
}

/// A tagged cell holding an opaque address (half-word sized).
pub type ExclusivePtr = ExclusiveData<crate::codec::Addr>;

/// A tagged cell holding an unsigned integer (half-word sized).
pub type ExclusiveUsize = ExclusiveData<usize>;

/// A tagged cell holding a signed integer (half-word sized).
pub type ExclusiveIsize = ExclusiveData<isize>;

/// A snapshot of a tagged [`ExclusivePtr`].
pub type LinkedPtr<'a> = LinkedData<'a, crate::codec::Addr>;

/// A snapshot of a tagged [`ExclusiveUsize`].
pub type LinkedUsize<'a> = LinkedData<'a, usize>;

/// A snapshot of a tagged [`ExclusiveIsize`].
pub type LinkedIsize<'a> = LinkedData<'a, isize>;

} // verus!
