//! Position
//!
//! A position says where in the input a span starts or ends.  Positions are
//! modelled by the integer they stand for, so that span arithmetic can be
//! specified once, independently of the concrete numeric width.

use vstd::prelude::*;

verus! {

/// Position types: totally ordered, cheaply copyable markers of a place in
/// the input.
///
/// A position is modelled by the integer [`Position::pos_val`].  An
/// implementation also says how integers map back to positions
/// ([`Position::pos_from_int`]) and proves that the two maps invert each
/// other on the representable range `0 ..= max_pos_val()`.
pub trait Position: Sized + Copy {
    /// The integer this position stands for.
    spec fn pos_val(&self) -> int;

    /// The largest integer a position of this type can stand for.
    spec fn max_pos_val() -> int;

    /// The position that stands for the integer `v`.
    spec fn pos_from_int(v: int) -> Self;

    /// Every position stands for an integer in the representable range.
    proof fn lemma_pos_val_in_range(&self)
        ensures
            0 <= self.pos_val() <= Self::max_pos_val(),
    ;

    /// On the representable range, `pos_from_int` yields the asked-for value.
    proof fn lemma_pos_from_int_val(v: int)
        requires
            0 <= v <= Self::max_pos_val(),
        ensures
            Self::pos_from_int(v).pos_val() == v,
    ;

    /// A position is determined by the integer it stands for.
    proof fn lemma_pos_roundtrip(&self)
        ensures
            Self::pos_from_int(self.pos_val()) == *self,
    ;

    /// Compares two positions.
    fn pos_le(&self, other: &Self) -> (b: bool)
        ensures
            b == (self.pos_val() <= other.pos_val()),
    ;

    /// Tests two positions for equality.
    fn pos_eq(&self, other: &Self) -> (b: bool)
        ensures
            b == (self.pos_val() == other.pos_val()),
    ;
}

impl Position for u16 {
    open spec fn pos_val(&self) -> int {
        *self as int
    }

    open spec fn max_pos_val() -> int {
        u16::MAX as int
    }

    open spec fn pos_from_int(v: int) -> Self {
        v as u16
    }

    proof fn lemma_pos_val_in_range(&self) {
    }

    proof fn lemma_pos_from_int_val(v: int) {
    }

    proof fn lemma_pos_roundtrip(&self) {
    }

    fn pos_le(&self, other: &Self) -> (b: bool) {
        *self <= *other
    }

    fn pos_eq(&self, other: &Self) -> (b: bool) {
        *self == *other
    }
}

impl Position for u32 {
    open spec fn pos_val(&self) -> int {
        *self as int
    }

    open spec fn max_pos_val() -> int {
        u32::MAX as int
    }

    open spec fn pos_from_int(v: int) -> Self {
        v as u32
    }

    proof fn lemma_pos_val_in_range(&self) {
    }

    proof fn lemma_pos_from_int_val(v: int) {
    }

    proof fn lemma_pos_roundtrip(&self) {
    }

    fn pos_le(&self, other: &Self) -> (b: bool) {
        *self <= *other
    }

    fn pos_eq(&self, other: &Self) -> (b: bool) {
        *self == *other
    }
}

impl Position for usize {
    open spec fn pos_val(&self) -> int {
        *self as int
    }

    open spec fn max_pos_val() -> int {
        usize::MAX as int
    }

    open spec fn pos_from_int(v: int) -> Self {
        v as usize
    }

    proof fn lemma_pos_val_in_range(&self) {
    }

    proof fn lemma_pos_from_int_val(v: int) {
    }

    proof fn lemma_pos_roundtrip(&self) {
    }

    fn pos_le(&self, other: &Self) -> (b: bool) {
        *self <= *other
    }

    fn pos_eq(&self, other: &Self) -> (b: bool) {
        *self == *other
    }
}

/// A byte offset into the input, counted from its start.
#[derive(Clone, Copy, Debug, Eq, Hash, PartialEq, PartialOrd, Ord)]
pub struct BytePos(pub u32);

impl Position for BytePos {
    open spec fn pos_val(&self) -> int {
        self.0 as int
    }

    open spec fn max_pos_val() -> int {
        u32::MAX as int
    }

    open spec fn pos_from_int(v: int) -> Self {
        BytePos(v as u32)
    }

    proof fn lemma_pos_val_in_range(&self) {
    }

    proof fn lemma_pos_from_int_val(v: int) {
    }

    proof fn lemma_pos_roundtrip(&self) {
    }

    fn pos_le(&self, other: &Self) -> (b: bool) {
        self.0 <= other.0
    }

    fn pos_eq(&self, other: &Self) -> (b: bool) {
        self.0 == other.0
    }
}

impl From<u32> for BytePos {
    fn from(value: u32) -> (r: Self) {
        BytePos(value)
    }
}

impl vstd::std_specs::convert::FromSpecImpl<u32> for BytePos {
    open spec fn obeys_from_spec() -> bool {
        true
    }

    open spec fn from_spec(value: u32) -> Self {
        BytePos(value)
    }
}

impl From<BytePos> for u32 {
    fn from(byte_pos: BytePos) -> (r: Self) {
        byte_pos.0
    }
}

impl vstd::std_specs::convert::FromSpecImpl<BytePos> for u32 {
    open spec fn obeys_from_spec() -> bool {
        true
    }

    open spec fn from_spec(byte_pos: BytePos) -> Self {
        byte_pos.0
    }
}

} // verus!
