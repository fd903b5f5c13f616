//! A portable exclusive-access memory cell with load-linked /
//! store-conditional (LL/SC) semantics.
//!
//! The cell holds one word-sized value. Besides atomic reads and
//! unconditional writes, it offers a load-linked / store-conditional
//! protocol: [`load_linked`](generic::ExclusiveData::load_linked)
//! captures the cell's state, and a later
//! [`store_conditional`](generic::LinkedData::store_conditional)
//! succeeds only if no successful store of any kind has intervened since
//! the capture - even when the intervening stores restored the original
//! value bit for bit. This is strictly stronger than compare-and-swap
//! and closes the ABA problem; in exchange, a conditional store cannot
//! succeed merely because the value is unchanged. Spurious failure is
//! not permitted: a conditional store fails only on genuine
//! interference.
//!
//! Two backends implement the one contract:
//! - [`generic`], the portable fallback: a (value, version) pair under a
//!   lock, full word width, works anywhere;
//! - [`tagged`], lock-free: value and version packed into a double-width
//!   atom updated by one compare-and-swap, at half the payload width.
//!
//! The crate-level cell types select the portable fallback, so they hold
//! full-width payloads on every platform; [`is_lock_free`] reports that
//! choice. The tagged backend is available explicitly through its
//! module.

pub mod codec;
pub mod generic;
pub mod ordering;
pub mod tagged;

pub use codec::Addr;
pub use ordering::Ordering;

use vstd::prelude::*;

verus! {

/// An exclusive cell holding an opaque address.
pub type ExclusivePtr = generic::ExclusiveData<Addr>;

/// An exclusive cell holding a word-sized unsigned integer.
pub type ExclusiveUsize = generic::ExclusiveData<usize>;

/// An exclusive cell holding a word-sized signed integer.
pub type ExclusiveIsize = generic::ExclusiveData<isize>;

/// An exclusive cell holding a boolean.
pub type ExclusiveBool = generic::ExclusiveData<bool>;

/// A snapshot of an [`ExclusivePtr`].
pub type LinkedPtr<'a> = generic::LinkedData<'a, Addr>;

/// A snapshot of an [`ExclusiveUsize`].
pub type LinkedUsize<'a> = generic::LinkedData<'a, usize>;

/// A snapshot of an [`ExclusiveIsize`].
pub type LinkedIsize<'a> = generic::LinkedData<'a, isize>;

/// A snapshot of an [`ExclusiveBool`].
pub type LinkedBool<'a> = generic::LinkedData<'a, bool>;

/// Whether the backend behind the crate-level cell types is lock-free.
///
/// The crate-level types use the portable fallback backend, whose
/// mutations go through a lock, so this reports `false`; higher layers
/// can use it to steer latency-critical code toward other primitives.
/// The [`tagged`] backend, used explicitly, is lock-free.
pub fn is_lock_free() -> (r: bool)
    ensures
        r == false,
{
    false
}

} // verus!
