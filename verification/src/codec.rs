//! Word codecs: lossless conversion between payload types and the opaque
//! machine words a cell stores.
//!
//! A cell manipulates only opaque words. Each supported payload type
//! (word-sized unsigned integer, word-sized signed integer, raw address,
//! boolean) provides a bidirectional codec: `to_usize` encodes, and
//! `from_usize` decodes. Encoding is total; decoding accepts exactly the
//! well-formed words ([`IsUsize::wf_word`]) and is the inverse of
//! encoding. The boolean codec reserves exactly two words, `0` and `1`;
//! handing any other word to the boolean decoder is a programming error,
//! not a silent coercion, so the decoder's precondition rejects it.
//!
//! A second codec, [`Isu32`], targets the half-word cells of the
//! tagged-CAS backend, which stores a version tag in the other half.

use vstd::prelude::*;

verus! {

/// An opaque machine address.
///
/// Addresses pass through a cell as plain address-sized words and are
/// never dereferenced at this layer. Callers who store pointers convert
/// them to and from `Addr` at their own layer, with their own ownership
/// discipline.
#[derive(Clone, Copy, Debug, PartialEq, Eq, Structural)]
pub struct Addr(pub usize);

/// A payload type that round-trips losslessly through a machine word.
pub trait IsUsize: Sized {
    /// Which words are a valid encoding of some payload value.
    spec fn wf_word(w: usize) -> bool;

    /// The word that encodes `self`.
    spec fn as_word(self) -> usize;

    /// The payload value a well-formed word decodes to.
    spec fn of_word(w: usize) -> Self;

    /// The codec law: encoding always yields a well-formed word, and
    /// decoding it gives the original value back.
    proof fn lemma_codec(self)
        ensures
            Self::wf_word(self.as_word()),
            Self::of_word(self.as_word()) == self;

    /// Encodes `self` as a machine word.
    fn to_usize(&self) -> (w: usize)
        ensures
            w == self.as_word(),
            Self::wf_word(w),
            Self::of_word(w) == *self;

    /// Decodes a well-formed machine word.
    fn from_usize(w: usize) -> (r: Self)
        requires
            Self::wf_word(w),
        ensures
            r == Self::of_word(w);
}

impl IsUsize for usize {
    open spec fn wf_word(w: usize) -> bool {
        true
    }

    open spec fn as_word(self) -> usize {
        self
    }

    open spec fn of_word(w: usize) -> usize {
        w
    }

    proof fn lemma_codec(self) {
    }

    fn to_usize(&self) -> (w: usize) {
        *self
    }

    fn from_usize(w: usize) -> (r: usize) {
        w
    }
}

impl IsUsize for isize {
    open spec fn wf_word(w: usize) -> bool {
        true
    }

    open spec fn as_word(self) -> usize {
        self as usize
    }

    open spec fn of_word(w: usize) -> isize {
        w as isize
    }

    proof fn lemma_codec(self) {
        assert((self as usize) as isize == self) by (bit_vector);
    }

    fn to_usize(&self) -> (w: usize) {
        proof {
            IsUsize::lemma_codec(*self);
        }
        *self as usize
    }

    fn from_usize(w: usize) -> (r: isize) {
        w as isize
    }
}

impl IsUsize for bool {
    open spec fn wf_word(w: usize) -> bool {
        w == 0 || w == 1
    }

    open spec fn as_word(self) -> usize {
        if self {
            1
        } else {
            0
        }
    }

    open spec fn of_word(w: usize) -> bool {
        w == 1
    }

    proof fn lemma_codec(self) {
    }

    fn to_usize(&self) -> (w: usize) {
        if *self {
            1
        } else {
            0
        }
    }

    fn from_usize(w: usize) -> (r: bool) {
        w == 1
    }
}

/// A payload type that round-trips through a half-word, for the
/// tagged-CAS backend, which packs the value beside a version counter in
/// one double-width atom.
///
/// Because the tagged backend reads its words back out of a shared
/// atom, its decoder must be total: every half-word decodes to some
/// payload value. Payloads narrower than the half-word carry a
/// [`Isu32::spec_fits`] bound on the encoding side instead. The strict
/// boolean codec (exactly two words accepted) has no total decoder, so
/// booleans are supported by the fallback backend only.
pub trait Isu32: Sized {
    /// Which payload values the half-word can represent.
    spec fn spec_fits(self) -> bool;

    /// The half-word that encodes `self`.
    spec fn as_word(self) -> u32;

    /// The payload value a half-word decodes to; total.
    spec fn of_word(w: u32) -> Self;

    /// The codec law: for representable values, decoding the encoding
    /// gives the original value back.
    proof fn lemma_codec(self)
        requires
            self.spec_fits(),
        ensures
            Self::of_word(self.as_word()) == self;

    /// Tells whether `self` is representable in the half-word.
    fn fits(&self) -> (r: bool)
        ensures
            r == self.spec_fits();

    /// Encodes a representable value as a half-word.
    fn to_u32(&self) -> (w: u32)
        requires
            self.spec_fits(),
        ensures
            w == self.as_word(),
            Self::of_word(w) == *self;

    /// Decodes any half-word.
    fn from_u32(w: u32) -> (r: Self)
        ensures
            r == Self::of_word(w);
}

impl Isu32 for usize {
    open spec fn spec_fits(self) -> bool {
        self <= 0xffff_ffffusize
    }

    open spec fn as_word(self) -> u32 {
        self as u32
    }

    open spec fn of_word(w: u32) -> usize {
        w as usize
    }

    proof fn lemma_codec(self) {
        assert(self <= 0xffff_ffffusize ==> (self as u32) as usize == self) by (bit_vector);
    }

    fn fits(&self) -> (r: bool) {
        *self <= 0xffff_ffffusize
    }

    fn to_u32(&self) -> (w: u32) {
        proof {
            Isu32::lemma_codec(*self);
        }
        *self as u32
    }

    fn from_u32(w: u32) -> (r: usize) {
        w as usize
    }
}

impl Isu32 for isize {
    open spec fn spec_fits(self) -> bool {
        -0x8000_0000isize <= self <= 0x7fff_ffffisize
    }

    open spec fn as_word(self) -> u32 {
        self as u32
    }

    open spec fn of_word(w: u32) -> isize {
        (w as i32) as isize
    }

    proof fn lemma_codec(self) {
        assert(-0x8000_0000isize <= self <= 0x7fff_ffffisize ==> ((self as u32) as i32) as isize
            == self) by (bit_vector);
    }

    fn fits(&self) -> (r: bool) {
        -0x8000_0000isize <= *self && *self <= 0x7fff_ffffisize
    }

    fn to_u32(&self) -> (w: u32) {
        proof {
            Isu32::lemma_codec(*self);
        }
        *self as u32
    }

    fn from_u32(w: u32) -> (r: isize) {
        (w as i32) as isize
    }
}

impl Isu32 for Addr {
    open spec fn spec_fits(self) -> bool {
        self.0 <= 0xffff_ffffusize
    }

    open spec fn as_word(self) -> u32 {
        self.0 as u32
    }

    open spec fn of_word(w: u32) -> Addr {
        Addr(w as usize)
    }

    proof fn lemma_codec(self) {
        let a = self.0;
        assert(a <= 0xffff_ffffusize ==> (a as u32) as usize == a) by (bit_vector);
    }

    fn fits(&self) -> (r: bool) {
        self.0 <= 0xffff_ffffusize
    }

    fn to_u32(&self) -> (w: u32) {
        proof {
            Isu32::lemma_codec(*self);
        }
        self.0 as u32
    }

    fn from_u32(w: u32) -> (r: Addr) {
        Addr(w as usize)
    }
}

impl IsUsize for Addr {
    open spec fn wf_word(w: usize) -> bool {
        true
    }

    open spec fn as_word(self) -> usize {
        self.0
    }

    open spec fn of_word(w: usize) -> Addr {
        Addr(w)
    }

    proof fn lemma_codec(self) {
    }

    fn to_usize(&self) -> (w: usize) {
        self.0
    }

    fn from_usize(w: usize) -> (r: Addr) {
        Addr(w)
    }
}

} // verus!
