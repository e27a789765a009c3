//! Span
//!
//! A span is a region of the input: a start position together with a length.
//! Spans are modelled by two integers, the start ([`Span::lo_val`]) and the
//! length ([`Span::size_val`]); all span arithmetic is specified over that
//! model.  Arithmetic that would leave the representable range is guarded
//! explicitly: the checked constructors return `None` instead of wrapping.

use crate::input::Input;
use crate::position::Position;
use vstd::prelude::*;

verus! {

/// Length types: how long a span is, possibly narrower than the position
/// type so that trees stay compact.
///
/// A length is modelled by the integer [`Len::len_val`], with the same
/// integer round-trip obligations as [`Position`].
pub trait Len<I, P>: Sized + Copy where I: Input + ?Sized, P: Position {
    /// The integer this length stands for.
    spec fn len_val(&self) -> int;

    /// The largest integer a length of this type can stand for.
    spec fn max_len_val() -> int;

    /// The length that stands for the integer `n`.
    spec fn len_from_int(n: int) -> Self;

    /// Every length stands for an integer in the representable range.
    proof fn lemma_len_val_in_range(&self)
        ensures
            0 <= self.len_val() <= Self::max_len_val(),
    ;

    /// On the representable range, `len_from_int` yields the asked-for value.
    proof fn lemma_len_from_int_val(n: int)
        requires
            0 <= n <= Self::max_len_val(),
        ensures
            Self::len_from_int(n).len_val() == n,
    ;

    /// A length is determined by the integer it stands for.
    proof fn lemma_len_roundtrip(&self)
        ensures
            Self::len_from_int(self.len_val()) == *self,
    ;

    /// The length standing for `len`, which must be representable.
    fn from_usize(lo: P, len: usize, input: &I) -> (r: Self)
        requires
            len as int <= Self::max_len_val(),
        ensures
            r.len_val() == len as int,
    ;

    /// The length standing for `len`, or `None` when `len` is out of range.
    fn checked_from_usize(lo: P, len: usize, input: &I) -> (r: Option<Self>)
        ensures
            match r {
                Some(l) => len as int <= Self::max_len_val() && l.len_val() == len as int,
                None => len as int > Self::max_len_val(),
            },
    ;

    /// The length of the region between two positions.
    fn len_from_lo_and_hi(lo: P, hi: P, input: &I) -> (r: Self)
        requires
            lo.pos_val() <= hi.pos_val(),
            hi.pos_val() - lo.pos_val() <= Self::max_len_val(),
        ensures
            r.len_val() == hi.pos_val() - lo.pos_val(),
    ;

    /// Lengths of this type fit in a `usize`.
    proof fn lemma_max_len_fits_usize()
        ensures
            Self::max_len_val() <= usize::MAX as int,
    ;

    /// This length, as a count of input units.
    fn len_as_usize(&self) -> (n: usize)
        ensures
            n as int == self.len_val(),
    ;

    /// The sum of two lengths, which must be representable.
    fn len_add(&self, other: &Self) -> (r: Self)
        requires
            self.len_val() + other.len_val() <= Self::max_len_val(),
        ensures
            r.len_val() == self.len_val() + other.len_val(),
    ;

    /// Tests two lengths for equality.
    fn len_eq(&self, other: &Self) -> (b: bool)
        ensures
            b == (self.len_val() == other.len_val()),
    ;
}

/// Position types that can start a span whose length has type `L`.
pub trait Start<I, L>: Position where I: Input + ?Sized, L: Len<I, Self> {
    /// Positions of this type fit in a `usize`.
    proof fn lemma_max_pos_fits_usize()
        ensures
            Self::max_pos_val() <= usize::MAX as int,
    ;

    /// This position, as an index into the input.
    fn into_usize(start: Self, input: &I) -> (r: usize)
        ensures
            r as int == start.pos_val(),
    ;

    /// The position of the start of the input.
    fn start(input: &I) -> (r: Self)
        ensures
            r.pos_val() == 0,
    ;

    /// The position just past a span, which must be representable.
    fn hi_from_start_and_len(start: Self, len: L, input: &I) -> (r: Self)
        requires
            start.pos_val() + len.len_val() <= Self::max_pos_val(),
        ensures
            r.pos_val() == start.pos_val() + len.len_val(),
    ;

    /// The position just past a span, or `None` when it is out of range.
    fn checked_hi_from_start_and_len(start: Self, len: L, input: &I) -> (r: Option<Self>)
        ensures
            match r {
                Some(p) => start.pos_val() + len.len_val() <= Self::max_pos_val() && p.pos_val()
                    == start.pos_val() + len.len_val(),
                None => start.pos_val() + len.len_val() > Self::max_pos_val(),
            },
    ;
}

/// Span types: a region of the input between two positions.
///
/// A span is modelled by its start ([`Span::lo_val`]) and its length
/// ([`Span::size_val`]); both are integers.  [`Span::wf_span`] says that the
/// end of the region is itself a representable position, and
/// [`Span::len_fits`] says which lengths the span type can record.
pub trait Span<I, P>: Sized + Copy where I: Input + ?Sized, P: Position {
    /// The integer where this span starts.
    spec fn lo_val(&self) -> int;

    /// The length of this span, as an integer.
    spec fn size_val(&self) -> int;

    /// The span with the given start and length.
    spec fn spec_span(lo: int, size: int) -> Self;

    /// Whether a length of `n` input units is representable.
    spec fn len_fits(n: int) -> bool;

    /// Whether the end of this span is itself a representable position.
    spec fn wf_span(&self) -> bool;

    /// A span is determined by its start and its length.
    proof fn lemma_span_injective(a: Self, b: Self)
        requires
            a.lo_val() == b.lo_val(),
            a.size_val() == b.size_val(),
        ensures
            a == b,
    ;

    /// On representable values, `spec_span` has the asked-for start and length.
    proof fn lemma_spec_span_vals(lo: int, size: int)
        requires
            0 <= lo <= P::max_pos_val(),
            Self::len_fits(size),
        ensures
            Self::spec_span(lo, size).lo_val() == lo,
            Self::spec_span(lo, size).size_val() == size,
            lo + size <= P::max_pos_val() ==> Self::spec_span(lo, size).wf_span(),
    ;

    /// A zero length is always representable.
    proof fn lemma_len_fits_zero()
        ensures
            Self::len_fits(0),
    ;

    /// Any length below a representable one is representable.
    proof fn lemma_len_fits_mono(a: int, b: int)
        requires
            Self::len_fits(a),
            0 <= b <= a,
        ensures
            Self::len_fits(b),
    ;

    /// The length of any span value is representable, and its start is a
    /// position value.
    proof fn lemma_span_vals_in_range(&self)
        ensures
            Self::len_fits(self.size_val()),
            0 <= self.lo_val() <= P::max_pos_val(),
    ;

    /// The start of this span.
    fn lo(&self, input: &I) -> (p: P)
        ensures
            p.pos_val() == self.lo_val(),
    ;

    /// The length of this span, as a count of input units.
    fn size(&self, input: &I) -> (n: usize)
        ensures
            n as int == self.size_val(),
    ;

    /// The position just past this span.
    fn hi(&self, input: &I) -> (p: P)
        requires
            self.wf_span(),
        ensures
            p.pos_val() == self.lo_val() + self.size_val(),
    ;

    /// The span starting at `lo` with length `len`, which must be
    /// representable.
    fn from_lo_len(lo: P, len: usize, input: &I) -> (s: Self)
        requires
            Self::len_fits(len as int),
            lo.pos_val() + len as int <= P::max_pos_val(),
        ensures
            s.lo_val() == lo.pos_val(),
            s.size_val() == len as int,
            s.wf_span(),
    ;

    /// The span starting at `lo` with length `len`, or `None` when that span
    /// is not representable.
    fn checked_from_lo_len(lo: P, len: usize, input: &I) -> (r: Option<Self>)
        ensures
            match r {
                Some(s) => {
                    &&& Self::len_fits(len as int)
                    &&& lo.pos_val() + len as int <= P::max_pos_val()
                    &&& s.lo_val() == lo.pos_val()
                    &&& s.size_val() == len as int
                    &&& s.wf_span()
                },
                None => !(Self::len_fits(len as int) && lo.pos_val() + len as int
                    <= P::max_pos_val()),
            },
    ;

    /// The span between the positions `lo` and `hi`.
    fn from_lo_hi(lo: P, hi: P, input: &I) -> (s: Self)
        requires
            lo.pos_val() <= hi.pos_val(),
            Self::len_fits(hi.pos_val() - lo.pos_val()),
        ensures
            s.lo_val() == lo.pos_val(),
            s.size_val() == hi.pos_val() - lo.pos_val(),
            s.wf_span(),
    ;

    /// The union of two adjacent spans.  `lhs` must end exactly where `rhs`
    /// starts: the evaluator only merges the two halves of a sequence
    /// alternative, whose spans are contiguous by construction.
    fn merge_lhs_and_rhs(lhs: &Self, rhs: &Self, input: &I) -> (s: Self)
        requires
            lhs.wf_span(),
            rhs.wf_span(),
            lhs.lo_val() + lhs.size_val() == rhs.lo_val(),
            Self::len_fits(lhs.size_val() + rhs.size_val()),
        ensures
            s.lo_val() == lhs.lo_val(),
            s.size_val() == lhs.size_val() + rhs.size_val(),
            s.wf_span(),
    ;

    /// Tests two spans for equality of start and length.
    fn eq_span(&self, other: &Self) -> (b: bool)
        ensures
            b == (self.lo_val() == other.lo_val() && self.size_val() == other.size_val()),
    ;
}

/// A value of the input decorated with the span it came from.
#[derive(Clone, Debug, PartialEq)]
pub struct Spanned<N, S> {
    pub node: N,
    pub span: S,
}

impl<N, S> Spanned<N, S> {
    /// Pairs a node with its span.
    pub fn new(node: N, span: S) -> (r: Self)
        ensures
            r.node == node,
            r.span == span,
    {
        Spanned { node, span }
    }
}

/// The default span type: a start position of type `P` and a length of the
/// possibly narrower type `L`.
#[derive(Clone, Copy, Debug, Eq, Hash, PartialEq)]
pub struct StartAndLenSpan<P, L> {
    pub start: P,
    pub len: L,
}

impl<P, L> StartAndLenSpan<P, L> {
    /// The span with the given start and length.
    pub fn from_start_len(start: P, len: L) -> (r: Self)
        ensures
            r.start == start,
            r.len == len,
    {
        StartAndLenSpan { start, len }
    }
}

impl<I, P, L> Span<I, P> for StartAndLenSpan<P, L> where
    I: Input + ?Sized,
    P: Start<I, L>,
    L: Len<I, P>,
 {
    open spec fn lo_val(&self) -> int {
        self.start.pos_val()
    }

    open spec fn size_val(&self) -> int {
        self.len.len_val()
    }

    open spec fn spec_span(lo: int, size: int) -> Self {
        StartAndLenSpan { start: P::pos_from_int(lo), len: L::len_from_int(size) }
    }

    open spec fn len_fits(n: int) -> bool {
        0 <= n <= L::max_len_val()
    }

    open spec fn wf_span(&self) -> bool {
        self.start.pos_val() + self.len.len_val() <= P::max_pos_val()
    }

    proof fn lemma_span_injective(a: Self, b: Self) {
        a.start.lemma_pos_roundtrip();
        b.start.lemma_pos_roundtrip();
        a.len.lemma_len_roundtrip();
        b.len.lemma_len_roundtrip();
    }

    proof fn lemma_spec_span_vals(lo: int, size: int) {
        P::lemma_pos_from_int_val(lo);
        L::lemma_len_from_int_val(size);
    }

    proof fn lemma_len_fits_zero() {
        let l = L::len_from_int(0);
        l.lemma_len_val_in_range();
        L::lemma_len_from_int_val(0);
    }

    proof fn lemma_len_fits_mono(a: int, b: int) {
    }

    proof fn lemma_span_vals_in_range(&self) {
        self.len.lemma_len_val_in_range();
        self.start.lemma_pos_val_in_range();
    }

    fn lo(&self, input: &I) -> (p: P) {
        self.start
    }

    fn size(&self, input: &I) -> (n: usize) {
        self.len.len_as_usize()
    }

    fn hi(&self, input: &I) -> (p: P) {
        P::hi_from_start_and_len(self.start, self.len, input)
    }

    fn from_lo_len(lo: P, len: usize, input: &I) -> (s: Self) {
        StartAndLenSpan { start: lo, len: L::from_usize(lo, len, input) }
    }

    fn checked_from_lo_len(lo: P, len: usize, input: &I) -> (r: Option<Self>) {
        match L::checked_from_usize(lo, len, input) {
            Some(l) => {
                match P::checked_hi_from_start_and_len(lo, l, input) {
                    Some(_) => Some(StartAndLenSpan { start: lo, len: l }),
                    None => None,
                }
            },
            None => {
                proof {
                    lo.lemma_pos_val_in_range();
                }
                None
            },
        }
    }

    fn from_lo_hi(lo: P, hi: P, input: &I) -> (s: Self) {
        proof {
            hi.lemma_pos_val_in_range();
        }
        StartAndLenSpan { start: lo, len: L::len_from_lo_and_hi(lo, hi, input) }
    }

    fn merge_lhs_and_rhs(lhs: &Self, rhs: &Self, input: &I) -> (s: Self) {
        proof {
            lhs.len.lemma_len_val_in_range();
            rhs.len.lemma_len_val_in_range();
        }
        StartAndLenSpan { start: lhs.start, len: lhs.len.len_add(&rhs.len) }
    }

    fn eq_span(&self, other: &Self) -> (b: bool) {
        self.start.pos_eq(&other.start) && self.len.len_eq(&other.len)
    }
}

impl<I> Len<I, u32> for u16 where I: Input + ?Sized {
    open spec fn len_val(&self) -> int {
        *self as int
    }

    open spec fn max_len_val() -> int {
        u16::MAX as int
    }

    open spec fn len_from_int(n: int) -> Self {
        n as u16
    }

    proof fn lemma_len_val_in_range(&self) {
    }

    proof fn lemma_len_from_int_val(n: int) {
    }

    proof fn lemma_len_roundtrip(&self) {
    }

    proof fn lemma_max_len_fits_usize() {
    }

    fn len_as_usize(&self) -> (n: usize) {
        *self as usize
    }

    fn from_usize(lo: u32, len: usize, input: &I) -> (r: Self) {
        len as u16
    }

    fn checked_from_usize(lo: u32, len: usize, input: &I) -> (r: Option<Self>) {
        if len <= u16::MAX as usize {
            Some(len as u16)
        } else {
            None
        }
    }

    fn len_from_lo_and_hi(lo: u32, hi: u32, input: &I) -> (r: Self) {
        (hi - lo) as u16
    }

    fn len_add(&self, other: &Self) -> (r: Self) {
        *self + *other
    }

    fn len_eq(&self, other: &Self) -> (b: bool) {
        *self == *other
    }
}

impl<I> Len<I, u16> for u16 where I: Input + ?Sized {
    open spec fn len_val(&self) -> int {
        *self as int
    }

    open spec fn max_len_val() -> int {
        u16::MAX as int
    }

    open spec fn len_from_int(n: int) -> Self {
        n as u16
    }

    proof fn lemma_len_val_in_range(&self) {
    }

    proof fn lemma_len_from_int_val(n: int) {
    }

    proof fn lemma_len_roundtrip(&self) {
    }

    proof fn lemma_max_len_fits_usize() {
    }

    fn len_as_usize(&self) -> (n: usize) {
        *self as usize
    }

    fn from_usize(lo: u16, len: usize, input: &I) -> (r: Self) {
        len as u16
    }

    fn checked_from_usize(lo: u16, len: usize, input: &I) -> (r: Option<Self>) {
        if len <= u16::MAX as usize {
            Some(len as u16)
        } else {
            None
        }
    }

    fn len_from_lo_and_hi(lo: u16, hi: u16, input: &I) -> (r: Self) {
        hi - lo
    }

    fn len_add(&self, other: &Self) -> (r: Self) {
        *self + *other
    }

    fn len_eq(&self, other: &Self) -> (b: bool) {
        *self == *other
    }
}

impl<I> Len<I, u32> for u32 where I: Input + ?Sized {
    open spec fn len_val(&self) -> int {
        *self as int
    }

    open spec fn max_len_val() -> int {
        u32::MAX as int
    }

    open spec fn len_from_int(n: int) -> Self {
        n as u32
    }

    proof fn lemma_len_val_in_range(&self) {
    }

    proof fn lemma_len_from_int_val(n: int) {
    }

    proof fn lemma_len_roundtrip(&self) {
    }

    proof fn lemma_max_len_fits_usize() {
    }

    fn len_as_usize(&self) -> (n: usize) {
        *self as usize
    }

    fn from_usize(lo: u32, len: usize, input: &I) -> (r: Self) {
        len as u32
    }

    fn checked_from_usize(lo: u32, len: usize, input: &I) -> (r: Option<Self>) {
        if len <= u32::MAX as usize {
            Some(len as u32)
        } else {
            None
        }
    }

    fn len_from_lo_and_hi(lo: u32, hi: u32, input: &I) -> (r: Self) {
        hi - lo
    }

    fn len_add(&self, other: &Self) -> (r: Self) {
        *self + *other
    }

    fn len_eq(&self, other: &Self) -> (b: bool) {
        *self == *other
    }
}

impl<I> Len<I, usize> for usize where I: Input + ?Sized {
    open spec fn len_val(&self) -> int {
        *self as int
    }

    open spec fn max_len_val() -> int {
        usize::MAX as int
    }

    open spec fn len_from_int(n: int) -> Self {
        n as usize
    }

    proof fn lemma_len_val_in_range(&self) {
    }

    proof fn lemma_len_from_int_val(n: int) {
    }

    proof fn lemma_len_roundtrip(&self) {
    }

    proof fn lemma_max_len_fits_usize() {
    }

    fn len_as_usize(&self) -> (n: usize) {
        *self
    }

    fn from_usize(lo: usize, len: usize, input: &I) -> (r: Self) {
        len
    }

    fn checked_from_usize(lo: usize, len: usize, input: &I) -> (r: Option<Self>) {
        Some(len)
    }

    fn len_from_lo_and_hi(lo: usize, hi: usize, input: &I) -> (r: Self) {
        hi - lo
    }

    fn len_add(&self, other: &Self) -> (r: Self) {
        *self + *other
    }

    fn len_eq(&self, other: &Self) -> (b: bool) {
        *self == *other
    }
}

impl<I> Start<I, u16> for u32 where I: Input + ?Sized {
    proof fn lemma_max_pos_fits_usize() {
    }

    fn into_usize(start: Self, input: &I) -> (r: usize) {
        start as usize
    }

    fn start(input: &I) -> (r: Self) {
        0
    }

    fn hi_from_start_and_len(start: Self, len: u16, input: &I) -> (r: Self) {
        start + len as u32
    }

    fn checked_hi_from_start_and_len(start: Self, len: u16, input: &I) -> (r: Option<Self>) {
        start.checked_add(len as u32)
    }
}

impl<I> Start<I, u16> for u16 where I: Input + ?Sized {
    proof fn lemma_max_pos_fits_usize() {
    }

    fn into_usize(start: Self, input: &I) -> (r: usize) {
        start as usize
    }

    fn start(input: &I) -> (r: Self) {
        0
    }

    fn hi_from_start_and_len(start: Self, len: u16, input: &I) -> (r: Self) {
        start + len
    }

    fn checked_hi_from_start_and_len(start: Self, len: u16, input: &I) -> (r: Option<Self>) {
        start.checked_add(len)
    }
}

impl<I> Start<I, u32> for u32 where I: Input + ?Sized {
    proof fn lemma_max_pos_fits_usize() {
    }

    fn into_usize(start: Self, input: &I) -> (r: usize) {
        start as usize
    }

    fn start(input: &I) -> (r: Self) {
        0
    }

    fn hi_from_start_and_len(start: Self, len: u32, input: &I) -> (r: Self) {
        start + len
    }

    fn checked_hi_from_start_and_len(start: Self, len: u32, input: &I) -> (r: Option<Self>) {
        start.checked_add(len)
    }
}

impl<I> Start<I, usize> for usize where I: Input + ?Sized {
    proof fn lemma_max_pos_fits_usize() {
    }

    fn into_usize(start: Self, input: &I) -> (r: usize) {
        start
    }

    fn start(input: &I) -> (r: Self) {
        0
    }

    fn hi_from_start_and_len(start: Self, len: usize, input: &I) -> (r: Self) {
        start + len
    }

    fn checked_hi_from_start_and_len(start: Self, len: usize, input: &I) -> (r: Option<Self>) {
        start.checked_add(len)
    }
}

} // verus!
