//! Symbols
//!
//! The alphabet of a grammar: terminal symbols (concrete tokens and
//! metasymbols) and variables, together with the contract for matching one
//! original terminal against the input.

pub use crate::terminal::{SliceTerminal, StrTerminal, U8SliceTerminal};

use crate::input::Input;
use crate::position::Position;
use crate::span::Span;
use crate::trees::AST;
use vstd::prelude::*;

verus! {

/// A metasymbol, with fixed consumption semantics independent of the
/// alphabet.
#[derive(Clone, Copy, Debug, Eq, Hash, Ord, PartialEq, PartialOrd)]
pub enum Metasymbol {
    /// `()` succeeds at every position without consuming input.
    Empty,
    /// `f` fails at every position without consuming input.
    Failure,
    /// `Any(n)` matches exactly `n` input units if they are available.
    Any(usize),
    /// `*` matches every remaining unit up to the bound, always succeeding.
    All,
    /// A terminal matched but its payload was intentionally discarded.
    Omit,
}

/// A terminal symbol: either a concrete token from the consumer's alphabet,
/// or a metasymbol.
#[derive(Clone, Debug, PartialEq)]
pub enum TerminalSymbol<T> {
    Original(T),
    Metasymbol(Metasymbol),
}

impl<T> TerminalSymbol<T> {
    /// Wraps a concrete token.
    pub fn from_original(t: T) -> (r: Self)
        ensures
            r == TerminalSymbol::Original(t),
    {
        TerminalSymbol::Original(t)
    }

    /// The concrete token, if this is one.
    pub fn as_original(&self) -> (r: Option<&T>)
        ensures
            match r {
                Some(original) => *self == TerminalSymbol::Original(*original),
                None => *self is Metasymbol,
            },
    {
        match self {
            TerminalSymbol::Original(original) => Some(original),
            TerminalSymbol::Metasymbol(_) => None,
        }
    }

    /// The metasymbol, if this is one.
    pub fn as_metasymbol(&self) -> (r: Option<&Metasymbol>)
        ensures
            match r {
                Some(metasymbol) => *self == TerminalSymbol::<T>::Metasymbol(*metasymbol),
                None => *self is Original,
            },
    {
        match self {
            TerminalSymbol::Original(_) => None,
            TerminalSymbol::Metasymbol(metasymbol) => Some(metasymbol),
        }
    }

    /// The concrete token, if this is one.
    pub fn into_original(self) -> (r: Option<T>)
        ensures
            match r {
                Some(original) => self == TerminalSymbol::Original(original),
                None => self is Metasymbol,
            },
    {
        match self {
            TerminalSymbol::Original(original) => Some(original),
            TerminalSymbol::Metasymbol(_) => None,
        }
    }

    /// The metasymbol, if this is one.
    pub fn into_metasymbol(self) -> (r: Option<Metasymbol>)
        ensures
            match r {
                Some(metasymbol) => self == TerminalSymbol::<T>::Metasymbol(metasymbol),
                None => self is Original,
            },
    {
        match self {
            TerminalSymbol::Original(_) => None,
            TerminalSymbol::Metasymbol(metasymbol) => Some(metasymbol),
        }
    }
}

impl<T> From<Metasymbol> for TerminalSymbol<T> {
    fn from(m: Metasymbol) -> (r: Self) {
        TerminalSymbol::Metasymbol(m)
    }
}

impl<T> vstd::std_specs::convert::FromSpecImpl<Metasymbol> for TerminalSymbol<T> {
    open spec fn obeys_from_spec() -> bool {
        true
    }

    open spec fn from_spec(m: Metasymbol) -> Self {
        TerminalSymbol::Metasymbol(m)
    }
}

/// An expression atom: a terminal symbol or a variable.  The four operand
/// positions of a rule each hold one atom.
#[derive(Clone, Debug, PartialEq)]
pub enum E<T, V> {
    T(TerminalSymbol<T>),
    V(V),
}

impl<T, V> E<T, V> {
    /// Wraps a variable.
    pub fn from_v(v: V) -> (r: Self)
        ensures
            r == E::<T, V>::V(v),
    {
        E::V(v)
    }

    /// Wraps a concrete token.
    pub fn from_t(t: T) -> (r: Self)
        ensures
            r == E::<T, V>::T(TerminalSymbol::Original(t)),
    {
        E::T(TerminalSymbol::Original(t))
    }
}

impl<T, V> From<TerminalSymbol<T>> for E<T, V> {
    fn from(t: TerminalSymbol<T>) -> (r: Self) {
        E::T(t)
    }
}

impl<T, V> vstd::std_specs::convert::FromSpecImpl<TerminalSymbol<T>> for E<T, V> {
    open spec fn obeys_from_spec() -> bool {
        true
    }

    open spec fn from_spec(t: TerminalSymbol<T>) -> Self {
        E::T(t)
    }
}

impl<T, V> From<Metasymbol> for E<T, V> {
    fn from(m: Metasymbol) -> (r: Self) {
        E::T(TerminalSymbol::Metasymbol(m))
    }
}

impl<T, V> vstd::std_specs::convert::FromSpecImpl<Metasymbol> for E<T, V> {
    open spec fn obeys_from_spec() -> bool {
        true
    }

    open spec fn from_spec(m: Metasymbol) -> Self {
        E::T(TerminalSymbol::Metasymbol(m))
    }
}

/// A value paired with what it reduces to: a variable and its rule, or a
/// variable and the choice it matched.
#[derive(Clone, Debug, PartialEq)]
pub struct Equivalence<V, GenE> {
    pub value: V,
    pub equal: GenE,
}

impl<V, GenE> Equivalence<V, GenE> {
    /// Pairs a value with what it reduces to.
    pub fn new(value: V, equal: GenE) -> (r: Self)
        ensures
            r.value == value,
            r.equal == equal,
    {
        Equivalence { value, equal }
    }
}

/// Variable types: finite, enumerable, equality-comparable identifiers for
/// the grammar's symbols, owned by the grammar author.
pub trait Variable: Sized + Copy {
    /// Tests two variables for equality.
    fn v_eq(&self, other: &Self) -> (b: bool)
        ensures
            b == (*self == *other),
    ;
}

/// Element types: input units that a terminal literal can be compared
/// against, one by one.
pub trait Element: Sized + Copy {
    /// Tests two input units for equality.
    fn elem_eq(&self, other: &Self) -> (b: bool)
        ensures
            b == (*self == *other),
    ;
}

impl Element for u8 {
    fn elem_eq(&self, other: &Self) -> (b: bool) {
        *self == *other
    }
}

impl Element for u16 {
    fn elem_eq(&self, other: &Self) -> (b: bool) {
        *self == *other
    }
}

impl Element for u32 {
    fn elem_eq(&self, other: &Self) -> (b: bool) {
        *self == *other
    }
}

impl Element for u64 {
    fn elem_eq(&self, other: &Self) -> (b: bool) {
        *self == *other
    }
}

impl Element for usize {
    fn elem_eq(&self, other: &Self) -> (b: bool) {
        *self == *other
    }
}

impl Element for i8 {
    fn elem_eq(&self, other: &Self) -> (b: bool) {
        *self == *other
    }
}

impl Element for i16 {
    fn elem_eq(&self, other: &Self) -> (b: bool) {
        *self == *other
    }
}

impl Element for i32 {
    fn elem_eq(&self, other: &Self) -> (b: bool) {
        *self == *other
    }
}

impl Element for i64 {
    fn elem_eq(&self, other: &Self) -> (b: bool) {
        *self == *other
    }
}

impl Element for char {
    fn elem_eq(&self, other: &Self) -> (b: bool) {
        *self == *other
    }
}

impl Element for bool {
    fn elem_eq(&self, other: &Self) -> (b: bool) {
        *self == *other
    }
}

/// Original terminal symbol types: tokens that can be matched against the
/// input at a position.
///
/// Matching is modelled by [`Terminal::spec_eval`], a function of the token,
/// the input, the position, and the bound.  The result of a match must start
/// at the position it was asked for and, on success, stay within the bound;
/// that is what [`Terminal::lemma_spec_eval_spans`] obliges every
/// implementation to prove.
pub trait Terminal<I, V, S, P, O>: Sized where
    I: Input + ?Sized,
    V: Variable,
    S: Span<I, P>,
    P: Position,
 {
    /// What matching this token at `pos`, bounded by `max_pos`, returns.
    spec fn spec_eval(&self, input: &I, pos: int, max_pos: int) -> Result<
        AST<V, S, O>,
        AST<V, S, O>,
    >;

    /// A match result spans `[pos, hi]` with `hi <= max_pos` on success, and
    /// starts at `pos` on failure.
    proof fn lemma_spec_eval_spans(&self, input: &I, pos: int, max_pos: int)
        requires
            0 <= pos <= max_pos <= P::max_pos_val(),
            S::len_fits(max_pos - pos),
        ensures
            match self.spec_eval(input, pos, max_pos) {
                Ok(a) => a.span.lo_val() == pos && 0 <= a.span.size_val() && a.span.size_val()
                    <= max_pos - pos && a.span.wf_span(),
                Err(a) => a.span.lo_val() == pos && a.span.wf_span(),
            },
    ;

    /// Matches this token against the input at `pos`, bounded by `max_pos`.
    fn eval(&self, input: &I, pos: P, max_pos: &P) -> (r: Result<AST<V, S, O>, AST<V, S, O>>)
        requires
            pos.pos_val() <= max_pos.pos_val(),
            S::len_fits(max_pos.pos_val() - pos.pos_val()),
        ensures
            r == self.spec_eval(input, pos.pos_val(), max_pos.pos_val()),
    ;
}

} // verus!
