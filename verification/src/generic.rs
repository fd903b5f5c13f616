//! The portable fallback backend: a (value, version) pair guarded by a
//! reader-writer lock.
//!
//! This backend works on any platform and is the behavioural reference
//! for the others. The cell's state is an [`Llsc`] pair: the current
//! value and a version counter. Every mutation - an unconditional store,
//! an exchange, or a successful conditional store - advances the version,
//! never only on a value change, so a snapshot taken before any store
//! can never match the cell again even when the value is restored bit
//! for bit. That closes the ABA problem that plain compare-and-swap
//! leaves open.
//!
//! The version counter wraps on overflow. A stale snapshot could
//! therefore match again after exactly a multiple of 2^word-width
//! successful stores between its load-linked and its store attempt;
//! this is treated as unreachable in practice, and the laws below state
//! the guarantee precisely up to that bound.
//!
//! The lock serializes every access, which is at least as strong as any
//! requested memory ordering; the ordering arguments are still validated
//! against the operation's direction, as the specialized backends require.

use core::marker::PhantomData;
use vstd::arithmetic::div_mod::{
    lemma_add_mod_noop, lemma_fundamental_div_mod_converse, lemma_mod_self_0, lemma_mod_twice,
    lemma_small_mod,
};
use vstd::prelude::*;
use vstd::rwlock::{RwLock, RwLockPredicate};

use crate::codec::IsUsize;
use crate::ordering::Ordering;

verus! {

/// The version counter after one more successful store: one step up,
/// wrapping to zero at the top.
pub open spec fn bump(c: usize) -> usize {
    if c == usize::MAX {
        0
    } else {
        (c + 1) as usize
    }
}

/// State after an unconditional store of `v`: the value is replaced and
/// the version advances, whether or not the value changed.
pub open spec fn spec_store(s: Llsc, v: usize) -> Llsc {
    Llsc { val: v, counter: bump(s.counter) }
}

/// Whether a conditional store whose snapshot captured `(oval, ctr)`
/// succeeds on state `s`: both the value and the version must still
/// match.
pub open spec fn spec_sc_ok(s: Llsc, oval: usize, ctr: usize) -> bool {
    s.val == oval && s.counter == ctr
}

/// State after a conditional store of `nval` against snapshot
/// `(oval, ctr)`: on success the value is replaced and the version
/// advances; on failure the state is untouched.
pub open spec fn spec_sc(s: Llsc, oval: usize, ctr: usize, nval: usize) -> Llsc {
    if spec_sc_ok(s, oval, ctr) {
        Llsc { val: nval, counter: bump(ctr) }
    } else {
        s
    }
}

/// The fallback cell state: the current value and its version counter.
pub struct Llsc {
    pub val: usize,
    pub counter: usize,
}

impl Llsc {
    /// The (value, version) pair as one unit.
    pub open spec fn pair(self) -> (usize, usize) {
        (self.val, self.counter)
    }

    /// Reads the value and version together.
    pub fn get_vals(&self) -> (r: (usize, usize))
        ensures
            r == self.pair(),
    {
        (self.val, self.counter)
    }

    /// Unconditional store: replaces the value and advances the version.
    pub fn set_val(&mut self, val: usize)
        ensures
            *final(self) == spec_store(*old(self), val),
    {
        self.val = val;
        self.counter = if self.counter == usize::MAX {
            0
        } else {
            self.counter + 1
        };
    }

    /// Exchange: replaces the value, advances the version, and returns
    /// the value that was replaced.
    pub fn xchg_val(&mut self, val: usize) -> (r: usize)
        ensures
            r == old(self).val,
            *final(self) == spec_store(*old(self), val),
    {
        let rval = self.val;
        self.set_val(val);
        rval
    }

    /// Conditional store against the snapshot `(oval, ctr)`. Succeeds
    /// if and only if both the value and the version still match; on
    /// success installs `nval` with the next version. Returns the
    /// success flag and the (value, version) pair the cell holds after
    /// the attempt - on failure that is the untouched current state,
    /// handed back so a retrying caller holds a fresh snapshot.
    pub fn cas(&mut self, oval: usize, ctr: usize, nval: usize) -> (r: (bool, (usize, usize)))
        ensures
            r.0 == spec_sc_ok(*old(self), oval, ctr),
            *final(self) == spec_sc(*old(self), oval, ctr, nval),
            r.1 == final(self).pair(),
    {
        if self.val == oval && self.counter == ctr {
            self.val = nval;
            self.counter = if ctr == usize::MAX {
                0
            } else {
                ctr + 1
            };
            (true, (self.val, self.counter))
        } else {
            (false, (self.val, self.counter))
        }
    }
}

/// Lock invariant of a cell with payload type `T`: the stored word is
/// always a well-formed encoding for `T`.
pub struct WordInv<T: IsUsize> {
    marker: PhantomData<T>,
}

impl<T: IsUsize> RwLockPredicate<Llsc> for WordInv<T> {
    open spec fn inv(self, s: Llsc) -> bool {
        T::wf_word(s.val)
    }
}

/// An exclusive-access cell over the fallback backend.
///
/// The cell is safely shared by reference across threads; all mutation
/// goes through its internal lock.
pub struct ExclusiveData<T: IsUsize> {
    data: RwLock<Llsc, WordInv<T>>,
}

/// A single-use snapshot of a cell's (value, version) state, produced by
/// [`ExclusiveData::load_linked`]. A conditional store consumes the
/// snapshot; on failure it hands back a fresh one reflecting the state
/// that defeated it, so retry loops need not reissue the load-linked.
pub struct LinkedData<'a, T: IsUsize> {
    val: usize,
    ctr: usize,
    ex_ptr: &'a ExclusiveData<T>,
}

impl<T: IsUsize> ExclusiveData<T> {
    /// Creates a cell holding `val`, at version zero.
    pub fn new(val: T) -> ExclusiveData<T> {
        let w = val.to_usize();
        ExclusiveData {
            data: RwLock::new(
                Llsc { val: w, counter: 0 },
                Ghost(WordInv { marker: PhantomData }),
            ),
        }
    }

    /// Loads the current value. `ord` must be valid for a load.
    ///
    /// The result is always the decoding of some well-formed stored
    /// word; which word is read depends on what other threads have
    /// stored.
    pub fn load(&self, ord: Ordering) -> (r: T)
        requires
            ord.spec_valid_for_load(),
        ensures
            exists|w: usize| T::wf_word(w) && r == T::of_word(w),
    {
        let handle = self.data.acquire_read();
        let w = handle.borrow().val;
        handle.release_read();
        T::from_usize(w)
    }

    /// Stores `val` unconditionally. `ord` must be valid for a store.
    ///
    /// The version advances even when `val` equals the stored value, so
    /// every snapshot taken before this call will fail its conditional
    /// store.
    pub fn store_direct(&self, val: T, ord: Ordering)
        requires
            ord.spec_valid_for_store(),
    {
        let w = val.to_usize();
        let (mut s, handle) = self.data.acquire_write();
        s.set_val(w);
        handle.release_write(s);
    }

    /// Stores `val` unconditionally and returns the value it replaced.
    /// `ord` must be valid for a store. Poisons outstanding snapshots
    /// exactly as [`Self::store_direct`] does.
    pub fn exchange_direct(&self, val: T, ord: Ordering) -> (r: T)
        requires
            ord.spec_valid_for_store(),
        ensures
            exists|w: usize| T::wf_word(w) && r == T::of_word(w),
    {
        let w = val.to_usize();
        let (mut s, handle) = self.data.acquire_write();
        let prev = s.xchg_val(w);
        handle.release_write(s);
        T::from_usize(prev)
    }

    /// Captures the current (value, version) state as one unit.
    /// `ord` must be valid for a load. Never fails; concurrent captures
    /// do not block one another, and many snapshots of one cell may be
    /// outstanding at once.
    pub fn load_linked(&self, ord: Ordering) -> (r: LinkedData<'_, T>)
        requires
            ord.spec_valid_for_load(),
        ensures
            r.cell() == self,
    {
        let handle = self.data.acquire_read();
        let vals = handle.borrow().get_vals();
        handle.release_read();
        LinkedData { val: vals.0, ctr: vals.1, ex_ptr: self }
    }
}

impl<'a, T: IsUsize> LinkedData<'a, T> {
    #[verifier::type_invariant]
    spec fn wf(self) -> bool {
        T::wf_word(self.val)
    }

    /// The captured word.
    pub closed spec fn word(self) -> usize {
        self.val
    }

    /// The captured version.
    pub closed spec fn version(self) -> usize {
        self.ctr
    }

    /// The cell this snapshot was taken from.
    pub closed spec fn cell(self) -> &'a ExclusiveData<T> {
        self.ex_ptr
    }

    /// The value captured at the load-linked; pure, no synchronization.
    pub fn get(&self) -> (r: T)
        ensures
            r == T::of_word(self.word()),
    {
        proof {
            use_type_invariant(self);
        }
        T::from_usize(self.val)
    }

    /// Attempts to replace the cell's value with `val`, succeeding if
    /// and only if no store of any kind has completed on the cell since
    /// this snapshot was captured. Being a read-modify-write, it accepts
    /// every ordering.
    ///
    /// Returns `None` on success. On failure returns a fresh snapshot of
    /// the (value, version) state that defeated the attempt - which
    /// therefore differs from the consumed snapshot - so the caller can
    /// retry without reissuing `load_linked`.
    pub fn store_conditional(self, val: T, ord: Ordering) -> (r: Option<
        LinkedData<'a, T>,
    >)
        ensures
            r matches Some(nll) ==> nll.cell() == self.cell() && (nll.word(), nll.version())
                != (self.word(), self.version()),
    {
        let w = val.to_usize();
        let (mut s, handle) = self.ex_ptr.data.acquire_write();
        let (succ, cur) = s.cas(self.val, self.ctr, w);
        handle.release_write(s);
        if succ {
            None
        } else {
            Some(LinkedData { val: cur.0, ctr: cur.1, ex_ptr: self.ex_ptr })
        }
    }

    /// Same success condition as [`Self::store_conditional`], but
    /// reports only success or failure, discarding the retry snapshot;
    /// for callers who will reissue `load_linked` themselves.
    pub fn try_store_conditional(self, val: T, ord: Ordering) -> bool {
        let w = val.to_usize();
        let (mut s, handle) = self.ex_ptr.data.acquire_write();
        let (succ, _cur) = s.cas(self.val, self.ctr, w);
        handle.release_write(s);
        succ
    }
}

/// An exclusive cell holding an opaque address.
pub type ExclusivePtr = ExclusiveData<crate::codec::Addr>;

/// An exclusive cell holding a word-sized unsigned integer.
pub type ExclusiveUsize = ExclusiveData<usize>;

/// An exclusive cell holding a word-sized signed integer.
pub type ExclusiveIsize = ExclusiveData<isize>;

/// An exclusive cell holding a boolean.
pub type ExclusiveBool = ExclusiveData<bool>;

/// A snapshot of an [`ExclusivePtr`].
pub type LinkedPtr<'a> = LinkedData<'a, crate::codec::Addr>;

/// A snapshot of an [`ExclusiveUsize`].
pub type LinkedUsize<'a> = LinkedData<'a, usize>;

/// A snapshot of an [`ExclusiveIsize`].
pub type LinkedIsize<'a> = LinkedData<'a, isize>;

/// A snapshot of an [`ExclusiveBool`].
pub type LinkedBool<'a> = LinkedData<'a, bool>;

// ------------------------------------------------------------------
// Laws of the LL/SC protocol, stated over the state transitions that
// the executable operations are specified against.
// ------------------------------------------------------------------

/// Uncontended success: a conditional store whose snapshot captured the
/// state it runs against succeeds, and installs the new value. This is
/// the single-thread load-linked / store-conditional round trip.
pub proof fn law_uncontended_sc_succeeds(s: Llsc, w: usize)
    ensures
        spec_sc_ok(s, s.val, s.counter),
        spec_sc(s, s.val, s.counter, w).val == w,
{
}

/// ABA closure: a snapshot of `s`, followed by a store of some other
/// value `a` and a store that puts `s.val` back bit for bit, still
/// fails its conditional store - the value matches but the version has
/// moved on.
pub proof fn law_aba_round_trip_fails(s: Llsc, a: usize)
    ensures
        spec_store(spec_store(s, a), s.val).val == s.val,
        !spec_sc_ok(spec_store(spec_store(s, a), s.val), s.val, s.counter),
{
}

/// A failed conditional store leaves the cell untouched; together with
/// the contract of [`Llsc::cas`], the pair reported on failure is the
/// cell's state at the instant of the attempt.
pub proof fn law_failed_sc_is_harmless(s: Llsc, oval: usize, ctr: usize, nval: usize)
    requires
        !spec_sc_ok(s, oval, ctr),
    ensures
        spec_sc(s, oval, ctr, nval) == s,
{
}

/// Exchange installs the new value (and, per the contract of
/// [`Llsc::xchg_val`], reports the value that was replaced).
pub proof fn law_exchange_installs(s: Llsc, w: usize)
    ensures
        spec_store(s, w).val == w,
        spec_store(s, w).counter == bump(s.counter),
{
}

/// The state after a sequence of unconditional stores: each store in
/// turn, front to back.
pub open spec fn spec_store_all(s: Llsc, ws: Seq<usize>) -> Llsc
    decreases ws.len(),
{
    if ws.len() == 0 {
        s
    } else {
        spec_store_all(spec_store(s, ws[0]), ws.skip(1))
    }
}

/// One more than the largest version: the modulus the version counter
/// wraps at.
pub open spec fn wrap_modulus() -> int {
    usize::MAX as int + 1
}

/// After `k` stores the version counter has advanced by exactly `k`,
/// modulo the wrap.
proof fn lemma_store_all_counter(s: Llsc, ws: Seq<usize>)
    ensures
        spec_store_all(s, ws).counter as int == (s.counter + ws.len()) % wrap_modulus(),
    decreases ws.len(),
{
    let m = wrap_modulus();
    if ws.len() == 0 {
        lemma_small_mod(s.counter as nat, m as nat);
    } else {
        let s1 = spec_store(s, ws[0]);
        lemma_store_all_counter(s1, ws.skip(1));
        // s1.counter == (s.counter + 1) % m
        if s.counter == usize::MAX {
            lemma_mod_self_0(m);
            assert(s1.counter as int == (s.counter + 1) % m);
        } else {
            lemma_small_mod((s.counter + 1) as nat, m as nat);
            assert(s1.counter as int == (s.counter + 1) % m);
        }
        // ((s.counter + 1) % m + (ws.len() - 1)) % m == (s.counter + ws.len()) % m
        let a = s.counter + 1;
        let b = ws.len() - 1;
        lemma_mod_shift(a, b, m);
        assert(spec_store_all(s, ws) == spec_store_all(s1, ws.skip(1)));
    }
}

/// `(a % m + b) % m == (a + b) % m` for a positive modulus.
proof fn lemma_mod_shift(a: int, b: int, m: int)
    requires
        0 < m,
    ensures
        (a % m + b) % m == (a + b) % m,
{
    lemma_add_mod_noop(a, b, m);
    lemma_add_mod_noop(a % m, b, m);
    lemma_mod_twice(a, m);
}

/// A counter that advanced `k` times from `c` - with `0 < k` and no
/// wrap-around of the whole modulus - never equals `c` again.
proof fn lemma_advanced_counter_differs(c: usize, k: int)
    requires
        0 < k <= usize::MAX,
    ensures
        (c + k) % wrap_modulus() != c,
{
    let m = wrap_modulus();
    if (c + k) % m == c {
        if c + k < m {
            lemma_small_mod((c + k) as nat, m as nat);
        } else {
            lemma_fundamental_div_mod_converse(c + k, m, 1, c + k - m);
        }
        assert(false);
    }
}

/// ABA closure in full generality: after any nonempty sequence of
/// unconditional stores - up to the astronomically large wrap bound of
/// the version counter - a snapshot taken before the first store fails
/// its conditional store, whatever values the stores wrote and whatever
/// value the cell ends up holding.
pub proof fn law_intervening_stores_poison_snapshot(s: Llsc, ws: Seq<usize>)
    requires
        0 < ws.len() <= usize::MAX,
    ensures
        !spec_sc_ok(spec_store_all(s, ws), s.val, s.counter),
{
    lemma_store_all_counter(s, ws);
    lemma_advanced_counter_differs(s.counter, ws.len() as int);
}

/// A run of cell states in which every step advances the version
/// counter. Per the contracts of [`Llsc::set_val`], [`Llsc::xchg_val`]
/// and [`Llsc::cas`], each successful mutation of any kind - an
/// unconditional store, an exchange, or a successful conditional store -
/// is such a step.
pub open spec fn counter_advances_along(chain: Seq<Llsc>) -> bool {
    forall|i: int|
        0 <= i < chain.len() - 1 ==> (#[trigger] chain[i + 1]).counter == bump(chain[i].counter)
}

/// Along a run of counter-advancing steps the counter has advanced by
/// exactly the number of steps, modulo the wrap.
proof fn lemma_chain_counter(chain: Seq<Llsc>)
    requires
        chain.len() > 0,
        counter_advances_along(chain),
    ensures
        chain.last().counter as int == (chain[0].counter + chain.len() - 1) % wrap_modulus(),
    decreases chain.len(),
{
    let m = wrap_modulus();
    if chain.len() == 1 {
        lemma_small_mod(chain[0].counter as nat, m as nat);
    } else {
        let pre = chain.drop_last();
        assert(counter_advances_along(pre)) by {
            assert(forall|i: int|
                0 <= i < pre.len() - 1 ==> (#[trigger] pre[i + 1]).counter == bump(
                    pre[i].counter,
                )) by {
                assert(forall|i: int|
                    0 <= i < pre.len() - 1 ==> (#[trigger] pre[i + 1]) == chain[i + 1] && pre[i]
                        == chain[i]);
            }
        }
        lemma_chain_counter(pre);
        let c0 = chain[0].counter as int;
        let prev = pre.last();
        // The final step advances the counter once more.
        let j = chain.len() - 2;
        assert(chain[j + 1].counter == bump(chain[j].counter));
        assert(chain.last().counter == bump(prev.counter));
        if prev.counter == usize::MAX {
            lemma_mod_self_0(m);
        } else {
            lemma_small_mod((prev.counter + 1) as nat, m as nat);
        }
        lemma_mod_shift(c0 + chain.len() - 2, 1, m);
    }
}

/// ABA closure over every kind of successful mutation: a run of one or
/// more counter-advancing steps - unconditional stores, exchanges, or
/// successful conditional stores, in any mixture, up to the wrap bound -
/// leaves the cell where the snapshot of the run's first state can no
/// longer succeed, whatever value the cell ends up holding.
pub proof fn law_any_mutations_poison_snapshot(chain: Seq<Llsc>)
    requires
        2 <= chain.len(),
        chain.len() - 1 <= usize::MAX,
        counter_advances_along(chain),
    ensures
        !spec_sc_ok(chain.last(), chain[0].val, chain[0].counter),
{
    lemma_chain_counter(chain);
    lemma_advanced_counter_differs(chain[0].counter, chain.len() - 1);
}

} // verus!
