//! Input
//!
//! The marker for types a grammar can be matched against.  The engine never
//! reads the input itself; only terminal matching and the semantic-action
//! hook do, so any type can serve as input.

use crate::output::Output;
use crate::parse::Parse;
use crate::position::Position;
use crate::rules::Rules;
use crate::span::{Len, Start, StartAndLenSpan};
use crate::symbols::{Element, Variable};
use crate::terminal::{SliceTerminal, StrTerminal, U8SliceTerminal};
use vstd::prelude::*;

verus! {

/// Language input types.
pub trait Input {
}

impl<T> Input for [T] {
}

impl Input for str {
}

impl<T> Input for Vec<T> {
}

impl Input for String {
}

impl<T, V, P, L, R, O> Parse<SliceTerminal<T>, V, StartAndLenSpan<P, L>, P, R, O> for [T] where
    T: Element,
    V: Variable,
    P: Start<[T], L>,
    L: Len<[T], P>,
    R: Rules<SliceTerminal<T>, V>,
    O: Output<[T], V, StartAndLenSpan<P, L>>,
 {
}

impl<V, P, L, R, O> Parse<U8SliceTerminal, V, StartAndLenSpan<P, L>, P, R, O> for [u8] where
    V: Variable,
    P: Start<[u8], L>,
    L: Len<[u8], P>,
    R: Rules<U8SliceTerminal, V>,
    O: Output<[u8], V, StartAndLenSpan<P, L>>,
 {
}

impl<V, P, L, R, O> Parse<StrTerminal, V, StartAndLenSpan<P, L>, P, R, O> for str where
    V: Variable,
    P: Start<str, L>,
    L: Len<str, P>,
    R: Rules<StrTerminal, V>,
    O: Output<str, V, StartAndLenSpan<P, L>>,
 {
}

} // verus!
