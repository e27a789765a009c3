//! Terminal
//!
//! The stock terminal alphabets: elements and slices over any element type,
//! characters and strings over text, and bytes, strings and fixed-width
//! numeric literals in either byte order over byte slices.  Each matches by
//! comparing its literal units against the input at the asked-for position,
//! unit for unit, and fails rather than wraps when the candidate span is
//! not representable.

use crate::encoding::{
    be_bytes, encode_scalar_bytes, le_bytes, slice_eq_at, spec_be_bytes, spec_le_bytes,
};
use crate::input::Input;
use crate::position::Position;
use crate::span::{Len, Span, Spanned, Start, StartAndLenSpan};
use crate::symbols::{Element, Metasymbol, Terminal, TerminalSymbol, Variable};
use crate::trees::{Node, AST};
use vstd::prelude::*;
use vstd::string::StringSliceAdditionalSpecFns;
use vstd::utf8::{encode_scalar, encode_utf8};

verus! {

/// What matching a literal of `lit.len()` units against `content` at `pos`
/// returns, over [`StartAndLenSpan`] spans: an `Omit` leaf over
/// `[pos, pos + lit.len())`, successful exactly when that span fits below
/// `max_pos`, lies within the input, and the input units there equal the
/// literal's.  When the candidate span is not even representable the match
/// fails over the zero-length span at `pos`.
pub open spec fn spec_lit_eval<I, TT, V, P, L, O>(
    lit: Seq<TT>,
    content: Seq<TT>,
    pos: int,
    max_pos: int,
) -> Result<
    AST<V, StartAndLenSpan<P, L>, O>,
    AST<V, StartAndLenSpan<P, L>, O>,
>
    where
    I: Input + ?Sized,
    V: Variable,
    P: Start<I, L>,
    L: Len<I, P>,
 {
    let len = lit.len() as int;
    let representable = <StartAndLenSpan<P, L> as Span<I, P>>::len_fits(len) && pos + len
        <= P::max_pos_val();
    let size = if representable {
        len
    } else {
        0
    };
    let span = <StartAndLenSpan<P, L> as Span<I, P>>::spec_span(pos, size);
    let ast = Spanned {
        node: Node::<V, StartAndLenSpan<P, L>, O>::Leaf(TerminalSymbol::Metasymbol(Metasymbol::Omit)),
        span,
    };
    if representable && pos + len <= max_pos && 0 <= pos && pos + len <= content.len()
        && content.subrange(pos, pos + len) == lit {
        Ok(ast)
    } else {
        Err(ast)
    }
}

/// The span bounds of [`spec_lit_eval`], as [`Terminal`] requires them.
pub proof fn lemma_spec_lit_eval_spans<I, TT, V, P, L, O>(
    lit: Seq<TT>,
    content: Seq<TT>,
    pos: int,
    max_pos: int,
)
    where
    I: Input + ?Sized,
    V: Variable,
    P: Start<I, L>,
    L: Len<I, P>,

    requires
        0 <= pos <= max_pos <= P::max_pos_val(),
        <StartAndLenSpan<P, L> as Span<I, P>>::len_fits(max_pos - pos),
    ensures
        match spec_lit_eval::<I, TT, V, P, L, O>(lit, content, pos, max_pos) {
            Ok(a) => a.span.lo_val() == pos && 0 <= a.span.size_val() && a.span.size_val()
                <= max_pos - pos && a.span.wf_span(),
            Err(a) => a.span.lo_val() == pos && a.span.wf_span(),
        },
{
    let len = lit.len() as int;
    let representable = <StartAndLenSpan<P, L> as Span<I, P>>::len_fits(len) && pos + len
        <= P::max_pos_val();
    if representable {
        <StartAndLenSpan<P, L> as Span<I, P>>::lemma_spec_span_vals(pos, len);
    }
    <StartAndLenSpan<P, L> as Span<I, P>>::lemma_len_fits_zero();
    <StartAndLenSpan<P, L> as Span<I, P>>::lemma_spec_span_vals(pos, 0);
}

/// Matches the literal units `lit` against the input at `pos`, bounded by
/// `max_pos`, over element slices.
fn lit_eval<TT, V, P, L, O>(input: &[TT], pos: P, max_pos: &P, lit: &Vec<TT>) -> (r: Result<
    AST<V, StartAndLenSpan<P, L>, O>,
    AST<V, StartAndLenSpan<P, L>, O>,
>)
    where
    TT: Element,
    V: Variable,
    P: Start<[TT], L>,
    L: Len<[TT], P>,

    requires
        pos.pos_val() <= max_pos.pos_val(),
        <StartAndLenSpan<P, L> as Span<[TT], P>>::len_fits(max_pos.pos_val() - pos.pos_val()),
    ensures
        r == spec_lit_eval::<[TT], TT, V, P, L, O>(lit@, input@, pos.pos_val(), max_pos.pos_val()),
{
    proof {
        pos.lemma_pos_val_in_range();
        max_pos.lemma_pos_val_in_range();
    }
    match <StartAndLenSpan<P, L> as Span<[TT], P>>::checked_from_lo_len(pos, lit.len(), input) {
        Some(span) => {
            proof {
                <StartAndLenSpan<P, L> as Span<[TT], P>>::lemma_spec_span_vals(
                    pos.pos_val(),
                    lit@.len() as int,
                );
                <StartAndLenSpan<P, L> as Span<[TT], P>>::lemma_span_injective(
                    span,
                    <StartAndLenSpan<P, L> as Span<[TT], P>>::spec_span(
                        pos.pos_val(),
                        lit@.len() as int,
                    ),
                );
            }
            let hi = span.hi(input);
            let ast = AST::from_leaf(TerminalSymbol::Metasymbol(Metasymbol::Omit), span);
            if hi.pos_le(max_pos) {
                let start = P::into_usize(pos, input);
                if lit.len() <= input.len() && start <= input.len() - lit.len() {
                    if slice_eq_at(input, start, lit) {
                        return Ok(ast);
                    }
                }
                Err(ast)
            } else {
                Err(ast)
            }
        },
        None => {
            proof {
                <StartAndLenSpan<P, L> as Span<[TT], P>>::lemma_len_fits_zero();
                <StartAndLenSpan<P, L> as Span<[TT], P>>::lemma_spec_span_vals(pos.pos_val(), 0);
            }
            let span = <StartAndLenSpan<P, L> as Span<[TT], P>>::from_lo_hi(pos, pos, input);
            proof {
                <StartAndLenSpan<P, L> as Span<[TT], P>>::lemma_span_injective(
                    span,
                    <StartAndLenSpan<P, L> as Span<[TT], P>>::spec_span(pos.pos_val(), 0),
                );
            }
            Err(AST::from_leaf(TerminalSymbol::Metasymbol(Metasymbol::Omit), span))
        },
    }
}

/// Matches the literal bytes `lit` against the text's UTF-8 bytes at
/// `pos`, bounded by `max_pos`.
fn str_lit_eval<V, P, L, O>(input: &str, pos: P, max_pos: &P, lit: &Vec<u8>) -> (r: Result<
    AST<V, StartAndLenSpan<P, L>, O>,
    AST<V, StartAndLenSpan<P, L>, O>,
>)
    where
    V: Variable,
    P: Start<str, L>,
    L: Len<str, P>,

    requires
        pos.pos_val() <= max_pos.pos_val(),
        <StartAndLenSpan<P, L> as Span<str, P>>::len_fits(max_pos.pos_val() - pos.pos_val()),
    ensures
        r == spec_lit_eval::<str, u8, V, P, L, O>(
            lit@,
            input.spec_bytes(),
            pos.pos_val(),
            max_pos.pos_val(),
        ),
{
    proof {
        pos.lemma_pos_val_in_range();
        max_pos.lemma_pos_val_in_range();
    }
    let bytes = input.as_bytes();
    match <StartAndLenSpan<P, L> as Span<str, P>>::checked_from_lo_len(pos, lit.len(), input) {
        Some(span) => {
            proof {
                <StartAndLenSpan<P, L> as Span<str, P>>::lemma_spec_span_vals(
                    pos.pos_val(),
                    lit@.len() as int,
                );
                <StartAndLenSpan<P, L> as Span<str, P>>::lemma_span_injective(
                    span,
                    <StartAndLenSpan<P, L> as Span<str, P>>::spec_span(
                        pos.pos_val(),
                        lit@.len() as int,
                    ),
                );
            }
            let hi = span.hi(input);
            let ast = AST::from_leaf(TerminalSymbol::Metasymbol(Metasymbol::Omit), span);
            if hi.pos_le(max_pos) {
                let start = P::into_usize(pos, input);
                if lit.len() <= bytes.len() && start <= bytes.len() - lit.len() {
                    if slice_eq_at(bytes, start, lit) {
                        return Ok(ast);
                    }
                }
                Err(ast)
            } else {
                Err(ast)
            }
        },
        None => {
            proof {
                <StartAndLenSpan<P, L> as Span<str, P>>::lemma_len_fits_zero();
                <StartAndLenSpan<P, L> as Span<str, P>>::lemma_spec_span_vals(pos.pos_val(), 0);
            }
            let span = <StartAndLenSpan<P, L> as Span<str, P>>::from_lo_hi(pos, pos, input);
            proof {
                <StartAndLenSpan<P, L> as Span<str, P>>::lemma_span_injective(
                    span,
                    <StartAndLenSpan<P, L> as Span<str, P>>::spec_span(pos.pos_val(), 0),
                );
            }
            Err(AST::from_leaf(TerminalSymbol::Metasymbol(Metasymbol::Omit), span))
        },
    }
}

/// A terminal over element slices: one element, or a run of them.
#[derive(Clone, Debug, PartialEq)]
pub enum SliceTerminal<T> {
    Element(T),
    Slice(Vec<T>),
}

impl<T> SliceTerminal<T> {
    /// The input units this literal asks for.
    pub open spec fn lit_seq(&self) -> Seq<T> {
        match self {
            SliceTerminal::Element(t) => seq![*t],
            SliceTerminal::Slice(v) => v@,
        }
    }
}

impl<T> From<T> for SliceTerminal<T> {
    fn from(element: T) -> (r: Self) {
        SliceTerminal::Element(element)
    }
}

impl<T> vstd::std_specs::convert::FromSpecImpl<T> for SliceTerminal<T> {
    open spec fn obeys_from_spec() -> bool {
        true
    }

    open spec fn from_spec(element: T) -> Self {
        SliceTerminal::Element(element)
    }
}

impl<T> From<Vec<T>> for SliceTerminal<T> {
    fn from(slice: Vec<T>) -> (r: Self) {
        SliceTerminal::Slice(slice)
    }
}

impl<T> vstd::std_specs::convert::FromSpecImpl<Vec<T>> for SliceTerminal<T> {
    open spec fn obeys_from_spec() -> bool {
        true
    }

    open spec fn from_spec(slice: Vec<T>) -> Self {
        SliceTerminal::Slice(slice)
    }
}

impl<T, V, P, L, O> Terminal<[T], V, StartAndLenSpan<P, L>, P, O> for SliceTerminal<T> where
    T: Element,
    V: Variable,
    P: Start<[T], L>,
    L: Len<[T], P>,
 {
    open spec fn spec_eval(&self, input: &[T], pos: int, max_pos: int) -> Result<
        AST<V, StartAndLenSpan<P, L>, O>,
        AST<V, StartAndLenSpan<P, L>, O>,
    > {
        spec_lit_eval::<[T], T, V, P, L, O>(self.lit_seq(), input@, pos, max_pos)
    }

    proof fn lemma_spec_eval_spans(&self, input: &[T], pos: int, max_pos: int) {
        lemma_spec_lit_eval_spans::<[T], T, V, P, L, O>(self.lit_seq(), input@, pos, max_pos);
    }

    fn eval(&self, input: &[T], pos: P, max_pos: &P) -> (r: Result<
        AST<V, StartAndLenSpan<P, L>, O>,
        AST<V, StartAndLenSpan<P, L>, O>,
    >) {
        match self {
            SliceTerminal::Element(t) => {
                let mut lit: Vec<T> = Vec::new();
                lit.push(*t);
                proof {
                    assert(lit@ =~= self.lit_seq());
                }
                lit_eval::<T, V, P, L, O>(input, pos, max_pos, &lit)
            },
            SliceTerminal::Slice(v) => lit_eval::<T, V, P, L, O>(input, pos, max_pos, v),
        }
    }
}

/// A terminal over text: one character, or a string.
#[derive(Clone, Debug, PartialEq)]
pub enum StrTerminal {
    Char(char),
    Str(String),
}

impl StrTerminal {
    /// The UTF-8 bytes this literal asks for.
    pub open spec fn lit_bytes(&self) -> Seq<u8> {
        match self {
            StrTerminal::Char(c) => encode_scalar(*c as u32),
            StrTerminal::Str(s) => encode_utf8(s@),
        }
    }

    /// The UTF-8 bytes this literal asks for.
    fn lit_bytes_vec(&self) -> (out: Vec<u8>)
        ensures
            out@ == self.lit_bytes(),
    {
        match self {
            StrTerminal::Char(c) => encode_scalar_bytes(*c),
            StrTerminal::Str(s) => vstd::slice::slice_to_vec(s.as_str().as_bytes()),
        }
    }
}

impl From<char> for StrTerminal {
    fn from(value: char) -> (r: Self) {
        StrTerminal::Char(value)
    }
}

impl vstd::std_specs::convert::FromSpecImpl<char> for StrTerminal {
    open spec fn obeys_from_spec() -> bool {
        true
    }

    open spec fn from_spec(value: char) -> Self {
        StrTerminal::Char(value)
    }
}

impl From<String> for StrTerminal {
    fn from(value: String) -> (r: Self) {
        StrTerminal::Str(value)
    }
}

impl vstd::std_specs::convert::FromSpecImpl<String> for StrTerminal {
    open spec fn obeys_from_spec() -> bool {
        true
    }

    open spec fn from_spec(value: String) -> Self {
        StrTerminal::Str(value)
    }
}

impl<V, P, L, O> Terminal<str, V, StartAndLenSpan<P, L>, P, O> for StrTerminal where
    V: Variable,
    P: Start<str, L>,
    L: Len<str, P>,
 {
    open spec fn spec_eval(&self, input: &str, pos: int, max_pos: int) -> Result<
        AST<V, StartAndLenSpan<P, L>, O>,
        AST<V, StartAndLenSpan<P, L>, O>,
    > {
        spec_lit_eval::<str, u8, V, P, L, O>(self.lit_bytes(), input.spec_bytes(), pos, max_pos)
    }

    proof fn lemma_spec_eval_spans(&self, input: &str, pos: int, max_pos: int) {
        lemma_spec_lit_eval_spans::<str, u8, V, P, L, O>(
            self.lit_bytes(),
            input.spec_bytes(),
            pos,
            max_pos,
        );
    }

    fn eval(&self, input: &str, pos: P, max_pos: &P) -> (r: Result<
        AST<V, StartAndLenSpan<P, L>, O>,
        AST<V, StartAndLenSpan<P, L>, O>,
    >) {
        let lit = self.lit_bytes_vec();
        str_lit_eval::<V, P, L, O>(input, pos, max_pos, &lit)
    }
}

/// A terminal over byte slices: text, raw bytes, or a fixed-width numeric
/// literal compared against its big- or little-endian encoding at its
/// natural width.
#[derive(Clone, Debug, PartialEq)]
pub enum U8SliceTerminal {
    Char(char),
    Str(String),
    U8Slice(Vec<u8>),
    // Big endian
    BEU8(u8),
    BEI8(i8),
    BEU16(u16),
    BEI16(i16),
    BEU32(u32),
    BEI32(i32),
    BEU64(u64),
    BEI64(i64),
    BEU128(u128),
    BEI128(i128),
    // Little endian
    LEU8(u8),
    LEI8(i8),
    LEU16(u16),
    LEI16(i16),
    LEU32(u32),
    LEI32(i32),
    LEU64(u64),
    LEI64(i64),
    LEU128(u128),
    LEI128(i128),
}

impl U8SliceTerminal {
    /// The bytes this literal asks for.
    pub open spec fn lit_bytes(&self) -> Seq<u8> {
        match self {
            U8SliceTerminal::Char(c) => encode_scalar(*c as u32),
            U8SliceTerminal::Str(s) => encode_utf8(s@),
            U8SliceTerminal::U8Slice(v) => v@,
            U8SliceTerminal::BEU8(n) => spec_be_bytes(*n as int, 1),
            U8SliceTerminal::BEI8(n) => spec_be_bytes((*n as u8) as int, 1),
            U8SliceTerminal::BEU16(n) => spec_be_bytes(*n as int, 2),
            U8SliceTerminal::BEI16(n) => spec_be_bytes((*n as u16) as int, 2),
            U8SliceTerminal::BEU32(n) => spec_be_bytes(*n as int, 4),
            U8SliceTerminal::BEI32(n) => spec_be_bytes((*n as u32) as int, 4),
            U8SliceTerminal::BEU64(n) => spec_be_bytes(*n as int, 8),
            U8SliceTerminal::BEI64(n) => spec_be_bytes((*n as u64) as int, 8),
            U8SliceTerminal::BEU128(n) => spec_be_bytes(*n as int, 16),
            U8SliceTerminal::BEI128(n) => spec_be_bytes((*n as u128) as int, 16),
            U8SliceTerminal::LEU8(n) => spec_le_bytes(*n as int, 1),
            U8SliceTerminal::LEI8(n) => spec_le_bytes((*n as u8) as int, 1),
            U8SliceTerminal::LEU16(n) => spec_le_bytes(*n as int, 2),
            U8SliceTerminal::LEI16(n) => spec_le_bytes((*n as u16) as int, 2),
            U8SliceTerminal::LEU32(n) => spec_le_bytes(*n as int, 4),
            U8SliceTerminal::LEI32(n) => spec_le_bytes((*n as u32) as int, 4),
            U8SliceTerminal::LEU64(n) => spec_le_bytes(*n as int, 8),
            U8SliceTerminal::LEI64(n) => spec_le_bytes((*n as u64) as int, 8),
            U8SliceTerminal::LEU128(n) => spec_le_bytes(*n as int, 16),
            U8SliceTerminal::LEI128(n) => spec_le_bytes((*n as u128) as int, 16),
        }
    }

    /// The bytes this literal asks for.
    fn lit_bytes_vec(&self) -> (out: Vec<u8>)
        ensures
            out@ == self.lit_bytes(),
    {
        match self {
            U8SliceTerminal::Char(c) => encode_scalar_bytes(*c),
            U8SliceTerminal::Str(s) => vstd::slice::slice_to_vec(s.as_str().as_bytes()),
            U8SliceTerminal::U8Slice(v) => vstd::slice::slice_to_vec(v.as_slice()),
            U8SliceTerminal::BEU8(n) => be_bytes(*n as u128, 1),
            U8SliceTerminal::BEI8(n) => be_bytes((*n as u8) as u128, 1),
            U8SliceTerminal::BEU16(n) => be_bytes(*n as u128, 2),
            U8SliceTerminal::BEI16(n) => be_bytes((*n as u16) as u128, 2),
            U8SliceTerminal::BEU32(n) => be_bytes(*n as u128, 4),
            U8SliceTerminal::BEI32(n) => be_bytes((*n as u32) as u128, 4),
            U8SliceTerminal::BEU64(n) => be_bytes(*n as u128, 8),
            U8SliceTerminal::BEI64(n) => be_bytes((*n as u64) as u128, 8),
            U8SliceTerminal::BEU128(n) => be_bytes(*n, 16),
            U8SliceTerminal::BEI128(n) => be_bytes(*n as u128, 16),
            U8SliceTerminal::LEU8(n) => le_bytes(*n as u128, 1),
            U8SliceTerminal::LEI8(n) => le_bytes((*n as u8) as u128, 1),
            U8SliceTerminal::LEU16(n) => le_bytes(*n as u128, 2),
            U8SliceTerminal::LEI16(n) => le_bytes((*n as u16) as u128, 2),
            U8SliceTerminal::LEU32(n) => le_bytes(*n as u128, 4),
            U8SliceTerminal::LEI32(n) => le_bytes((*n as u32) as u128, 4),
            U8SliceTerminal::LEU64(n) => le_bytes(*n as u128, 8),
            U8SliceTerminal::LEI64(n) => le_bytes((*n as u64) as u128, 8),
            U8SliceTerminal::LEU128(n) => le_bytes(*n, 16),
            U8SliceTerminal::LEI128(n) => le_bytes(*n as u128, 16),
        }
    }
}

impl From<char> for U8SliceTerminal {
    fn from(c: char) -> (r: Self) {
        U8SliceTerminal::Char(c)
    }
}

impl vstd::std_specs::convert::FromSpecImpl<char> for U8SliceTerminal {
    open spec fn obeys_from_spec() -> bool {
        true
    }

    open spec fn from_spec(c: char) -> Self {
        U8SliceTerminal::Char(c)
    }
}

impl From<String> for U8SliceTerminal {
    fn from(s: String) -> (r: Self) {
        U8SliceTerminal::Str(s)
    }
}

impl vstd::std_specs::convert::FromSpecImpl<String> for U8SliceTerminal {
    open spec fn obeys_from_spec() -> bool {
        true
    }

    open spec fn from_spec(s: String) -> Self {
        U8SliceTerminal::Str(s)
    }
}

impl From<Vec<u8>> for U8SliceTerminal {
    fn from(s: Vec<u8>) -> (r: Self) {
        U8SliceTerminal::U8Slice(s)
    }
}

impl vstd::std_specs::convert::FromSpecImpl<Vec<u8>> for U8SliceTerminal {
    open spec fn obeys_from_spec() -> bool {
        true
    }

    open spec fn from_spec(s: Vec<u8>) -> Self {
        U8SliceTerminal::U8Slice(s)
    }
}

impl<V, P, L, O> Terminal<[u8], V, StartAndLenSpan<P, L>, P, O> for U8SliceTerminal where
    V: Variable,
    P: Start<[u8], L>,
    L: Len<[u8], P>,
 {
    open spec fn spec_eval(&self, input: &[u8], pos: int, max_pos: int) -> Result<
        AST<V, StartAndLenSpan<P, L>, O>,
        AST<V, StartAndLenSpan<P, L>, O>,
    > {
        spec_lit_eval::<[u8], u8, V, P, L, O>(self.lit_bytes(), input@, pos, max_pos)
    }

    proof fn lemma_spec_eval_spans(&self, input: &[u8], pos: int, max_pos: int) {
        lemma_spec_lit_eval_spans::<[u8], u8, V, P, L, O>(self.lit_bytes(), input@, pos, max_pos);
    }

    fn eval(&self, input: &[u8], pos: P, max_pos: &P) -> (r: Result<
        AST<V, StartAndLenSpan<P, L>, O>,
        AST<V, StartAndLenSpan<P, L>, O>,
    >) {
        let lit = self.lit_bytes_vec();
        lit_eval::<u8, V, P, L, O>(input, pos, max_pos, &lit)
    }
}

} // verus!
