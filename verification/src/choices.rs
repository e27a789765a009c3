//! Choices
//!
//! The two alternatives of a rule `A = B C / D`: the sequence alternative
//! [`First`] (`B C`) and the fallback alternative [`Second`] (`D`), with
//! [`Choice`] recording which of the two a reduction committed to.

use vstd::prelude::*;

verus! {

/// The sequence alternative of a rule: `lhs` then `rhs`.
#[derive(Clone, Debug, PartialEq)]
pub struct First<GenE> {
    pub lhs: GenE,
    pub rhs: GenE,
}

impl<GenE> First<GenE> {
    /// Pairs the two operands of the sequence alternative.
    pub fn new(lhs: GenE, rhs: GenE) -> (r: Self)
        ensures
            r.lhs == lhs,
            r.rhs == rhs,
    {
        First { lhs, rhs }
    }
}

/// The fallback alternative of a rule.
#[derive(Clone, Debug, PartialEq)]
pub struct Second<GenE>(pub GenE);

impl<GenE> Second<GenE> {
    /// Wraps the single operand of the fallback alternative.
    pub fn new(e: GenE) -> (r: Self)
        ensures
            r.0 == e,
    {
        Second(e)
    }
}

/// Which alternative a completed reduction committed to.
#[derive(Clone, Debug, PartialEq)]
pub enum Choice<GenE> {
    First(First<GenE>),
    Second(Second<GenE>),
}

impl<GenE> Choice<GenE> {
    /// Returns true if this is the sequence alternative.
    pub fn is_first(&self) -> (b: bool)
        ensures
            b == (self is First),
    {
        match self {
            Choice::First(_) => true,
            Choice::Second(_) => false,
        }
    }

    /// Returns true if this is the fallback alternative.
    pub fn is_second(&self) -> (b: bool)
        ensures
            b == (self is Second),
    {
        match self {
            Choice::First(_) => false,
            Choice::Second(_) => true,
        }
    }

    /// The sequence alternative, if this is one.
    pub fn as_first(&self) -> (r: Option<&First<GenE>>)
        ensures
            match r {
                Some(first) => *self is First && *self == Choice::First(*first),
                None => *self is Second,
            },
    {
        match self {
            Choice::First(first) => Some(first),
            Choice::Second(_) => None,
        }
    }

    /// The fallback alternative, if this is one.
    pub fn as_second(&self) -> (r: Option<&Second<GenE>>)
        ensures
            match r {
                Some(second) => *self is Second && *self == Choice::Second(*second),
                None => *self is First,
            },
    {
        match self {
            Choice::First(_) => None,
            Choice::Second(second) => Some(second),
        }
    }

    /// The sequence alternative, if this is one.
    pub fn into_first(self) -> (r: Option<First<GenE>>)
        ensures
            match r {
                Some(first) => self == Choice::First(first),
                None => self is Second,
            },
    {
        match self {
            Choice::First(first) => Some(first),
            Choice::Second(_) => None,
        }
    }

    /// The fallback alternative, if this is one.
    pub fn into_second(self) -> (r: Option<Second<GenE>>)
        ensures
            match r {
                Some(second) => self == Choice::Second(second),
                None => self is First,
            },
    {
        match self {
            Choice::First(_) => None,
            Choice::Second(second) => Some(second),
        }
    }
}

impl<GenE> From<First<GenE>> for Choice<GenE> {
    fn from(first: First<GenE>) -> (r: Self) {
        Choice::First(first)
    }
}

impl<GenE> vstd::std_specs::convert::FromSpecImpl<First<GenE>> for Choice<GenE> {
    open spec fn obeys_from_spec() -> bool {
        true
    }

    open spec fn from_spec(first: First<GenE>) -> Self {
        Choice::First(first)
    }
}

impl<GenE> From<Second<GenE>> for Choice<GenE> {
    fn from(second: Second<GenE>) -> (r: Self) {
        Choice::Second(second)
    }
}

impl<GenE> vstd::std_specs::convert::FromSpecImpl<Second<GenE>> for Choice<GenE> {
    open spec fn obeys_from_spec() -> bool {
        true
    }

    open spec fn from_spec(second: Second<GenE>) -> Self {
        Choice::Second(second)
    }
}

} // verus!
