//! Mplg
//!
//! The grammar-description language that the engine itself is bootstrapped
//! with: a line-oriented notation in which each line is empty, a comment,
//! or a rule of the shape `Variable = E E / E`.  This module holds the
//! frozen rule table for that notation and parses a description against
//! it; turning a parsed description into code is a build-time concern and
//! stays outside the library.

use crate::choices::{Choice, First, Second};
use crate::output::Output;
use crate::parse::{lemma_spec_eval_total, spec_parse_budget, Parse, ParseError};
use crate::rules::{rule_no_omit, rules_no_omit, RightRule, RightRuleKind, Rule, Rules};
use crate::span::{Span, Spanned, StartAndLenSpan};
use crate::symbols::{Equivalence, Metasymbol, TerminalSymbol, U8SliceTerminal, Variable, E};
use crate::trees::{spec_ast_from_cst_and_output, Node, AST, CST};
use vstd::prelude::*;
use vstd::utf8::{encode_scalar, encode_utf8};

verus! {

/// The span type of a grammar description: byte offsets into it.
pub type MplgSpan = StartAndLenSpan<u32, u32>;

/// A tree over a grammar description, carrying the structured summary of
/// each recognised construct.
pub type MplgAST = AST<MplgVariable, MplgSpan, MplgOutput>;

/// The transient tree handed to the description's semantic action.
pub type MplgCST = CST<MplgVariable, MplgSpan, MplgOutput>;

/// The variables of the grammar-description notation.
#[derive(Clone, Copy, Debug, Eq, Hash, PartialEq, Structural)]
pub enum MplgVariable {
    Mplg,
    ZeroOrMoreLines,
    Line,
    Line1,
    Line2,
    Rule,
    Rule1,
    Rule2,
    Rule3,
    Rule4,
    Rule5,
    Rule6,
    E,
    Variable,
    TerminalSymbol,
    Expr,
    ExprWithoutBlock,
    ExprWithoutBlock1,
    StructExpr,
    StructExpr1,
    StructExprStruct,
    StructExprTuple,
    StructExprTuple1,
    StructExprTuple2,
    ZeroOrMoreExpr,
    StructExprUnit,
    PathInExpr,
    ZeroOrOneDoubleColon,
    OneOrMorePathExprSegment,
    PathExprSegment,
    PathExprSegment1,
    PathIdentSegment,
    GenericArgs,
    LiteralExpr,
    LiteralExpr1,
    LiteralExpr2,
    MetasymbolLiteral,
    MetasymbolLiteral1,
    MetasymbolLiteral2,
    MetasymbolLiteral3,
    EmptyLiteral,
    FailureLiteral,
    AnyLiteral,
    ZeroOrMoreAny,
    AllLiteral,
    OriginalSymbolExpr,
    OriginalSymbolExpr1,
    CharLiteral,
    CharLiteral1,
    InnerCharLiteral,
    NotCharLetter,
    InnerCharLiteral1,
    StringLiteral,
    StringLiteral1,
    InnerStringLiteral,
    InnerStringLiteralLetter,
    NotStringLetter,
    InnerStringLiteral1Letter1,
    IntegerLiteral,
    IntegerLiterals,
    DecLiteral,
    ZeroOrMoreDecDigit,
    DecDigitOrUnderscore,
    Identifier,
    ZeroOrMoreIdentifierContinue,
    IdentifierContinue,
    Alphabet,
    LowercaseAToF,
    LowercaseAToF1,
    LowercaseAToF2,
    LowercaseAToF3,
    LowercaseAToF4,
    LowercaseAToF5,
    LowercaseAToF6,
    Lowercase,
    Lowercase1,
    Lowercase2,
    Lowercase3,
    Lowercase4,
    Lowercase5,
    Lowercase6,
    Lowercase7,
    Lowercase8,
    Lowercase9,
    Lowercase10,
    Lowercase11,
    Lowercase12,
    Lowercase13,
    Lowercase14,
    Lowercase15,
    Lowercase16,
    Lowercase17,
    Lowercase18,
    Lowercase19,
    Lowercase20,
    UppercaseAToF,
    UppercaseAToF1,
    UppercaseAToF2,
    UppercaseAToF3,
    UppercaseAToF4,
    UppercaseAToF5,
    UppercaseAToF6,
    Uppercase,
    Uppercase1,
    Uppercase2,
    Uppercase3,
    Uppercase4,
    Uppercase5,
    Uppercase6,
    Uppercase7,
    Uppercase8,
    Uppercase9,
    Uppercase10,
    Uppercase11,
    Uppercase12,
    Uppercase13,
    Uppercase14,
    Uppercase15,
    Uppercase16,
    Uppercase17,
    Uppercase18,
    Uppercase19,
    Uppercase20,
    QuoteEscape,
    EndOfLine,
    Space,
    BinDigit,
    OctDigit,
    OctDigit1,
    OctDigit2,
    OctDigit3,
    OctDigit4,
    OctDigit5,
    OctDigit6,
    DecDigit,
    DecDigit1,
    DecDigit2,
    LineComment,
    InnerLineComment,
    AnyExceptLF,
    AnyExceptLF1,
}

impl Variable for MplgVariable {
    fn v_eq(&self, other: &Self) -> (b: bool) {
        *self == *other
    }
}

/// One operand of a rule, reduced to what matching goes by: an original
/// terminal stands for the bytes it asks for.
pub open spec fn e_view(e: E<U8SliceTerminal, MplgVariable>) -> E<Seq<u8>, MplgVariable> {
    match e {
        E::T(TerminalSymbol::Original(t)) => E::T(TerminalSymbol::Original(t.lit_bytes())),
        E::T(TerminalSymbol::Metasymbol(m)) => E::T(TerminalSymbol::Metasymbol(m)),
        E::V(v) => E::V(v),
    }
}

/// A whole rule, reduced as [`e_view`] reduces its operands.
pub open spec fn rule_view(rule: RightRule<U8SliceTerminal, MplgVariable>) -> RightRule<
    Seq<u8>,
    MplgVariable,
> {
    RightRule {
        first: First { lhs: e_view(rule.first.lhs), rhs: e_view(rule.first.rhs) },
        second: Second(e_view(rule.second.0)),
    }
}

/// The bootstrap notation's rule for each variable, written out: the
/// canonical table that [`MplgRules::new`] realises.
pub open spec fn spec_mplg_rule(v: MplgVariable) -> RightRule<Seq<u8>, MplgVariable> {
    match v {
        MplgVariable::Mplg => RightRule {
            first: First { lhs: E::V(MplgVariable::ZeroOrMoreLines), rhs: E::T(TerminalSymbol::Metasymbol(Metasymbol::Empty)) },
            second: Second(E::T(TerminalSymbol::Metasymbol(Metasymbol::Failure))),
        },
        MplgVariable::ZeroOrMoreLines => RightRule {
            first: First { lhs: E::V(MplgVariable::Line), rhs: E::V(MplgVariable::ZeroOrMoreLines) },
            second: Second(E::T(TerminalSymbol::Metasymbol(Metasymbol::Empty))),
        },
        MplgVariable::Line => RightRule {
            first: First { lhs: E::V(MplgVariable::Line1), rhs: E::V(MplgVariable::EndOfLine) },
            second: Second(E::T(TerminalSymbol::Metasymbol(Metasymbol::Failure))),
        },
        MplgVariable::Line1 => RightRule {
            first: First { lhs: E::V(MplgVariable::LineComment), rhs: E::T(TerminalSymbol::Metasymbol(Metasymbol::Empty)) },
            second: Second(E::V(MplgVariable::Line2)),
        },
        MplgVariable::Line2 => RightRule {
            first: First { lhs: E::V(MplgVariable::Rule), rhs: E::T(TerminalSymbol::Metasymbol(Metasymbol::Empty)) },
            second: Second(E::T(TerminalSymbol::Metasymbol(Metasymbol::Empty))),
        },
        MplgVariable::Rule => RightRule {
            first: First { lhs: E::V(MplgVariable::Variable), rhs: E::V(MplgVariable::Rule1) },
            second: Second(E::T(TerminalSymbol::Metasymbol(Metasymbol::Failure))),
        },
        MplgVariable::Rule1 => RightRule {
            first: First { lhs: E::T(TerminalSymbol::Original(encode_utf8(" = "@))), rhs: E::V(MplgVariable::Rule2) },
            second: Second(E::T(TerminalSymbol::Metasymbol(Metasymbol::Failure))),
        },
        MplgVariable::Rule2 => RightRule {
            first: First { lhs: E::V(MplgVariable::E), rhs: E::V(MplgVariable::Rule3) },
            second: Second(E::T(TerminalSymbol::Metasymbol(Metasymbol::Failure))),
        },
        MplgVariable::Rule3 => RightRule {
            first: First { lhs: E::V(MplgVariable::Space), rhs: E::V(MplgVariable::Rule4) },
            second: Second(E::T(TerminalSymbol::Metasymbol(Metasymbol::Failure))),
        },
        MplgVariable::Rule4 => RightRule {
            first: First { lhs: E::V(MplgVariable::E), rhs: E::V(MplgVariable::Rule5) },
            second: Second(E::T(TerminalSymbol::Metasymbol(Metasymbol::Failure))),
        },
        MplgVariable::Rule5 => RightRule {
            first: First { lhs: E::T(TerminalSymbol::Original(encode_utf8(" / "@))), rhs: E::V(MplgVariable::Rule6) },
            second: Second(E::T(TerminalSymbol::Metasymbol(Metasymbol::Failure))),
        },
        MplgVariable::Rule6 => RightRule {
            first: First { lhs: E::V(MplgVariable::E), rhs: E::T(TerminalSymbol::Metasymbol(Metasymbol::Empty)) },
            second: Second(E::T(TerminalSymbol::Metasymbol(Metasymbol::Failure))),
        },
        MplgVariable::E => RightRule {
            first: First { lhs: E::V(MplgVariable::TerminalSymbol), rhs: E::T(TerminalSymbol::Metasymbol(Metasymbol::Empty)) },
            second: Second(E::V(MplgVariable::Variable)),
        },
        MplgVariable::Variable => RightRule {
            first: First { lhs: E::V(MplgVariable::Identifier), rhs: E::T(TerminalSymbol::Metasymbol(Metasymbol::Empty)) },
            second: Second(E::T(TerminalSymbol::Metasymbol(Metasymbol::Failure))),
        },
        MplgVariable::TerminalSymbol => RightRule {
            first: First { lhs: E::V(MplgVariable::MetasymbolLiteral), rhs: E::T(TerminalSymbol::Metasymbol(Metasymbol::Empty)) },
            second: Second(E::V(MplgVariable::OriginalSymbolExpr)),
        },
        MplgVariable::Expr => RightRule {
            first: First { lhs: E::V(MplgVariable::ExprWithoutBlock), rhs: E::T(TerminalSymbol::Metasymbol(Metasymbol::Empty)) },
            second: Second(E::T(TerminalSymbol::Metasymbol(Metasymbol::Failure))),
        },
        MplgVariable::ExprWithoutBlock => RightRule {
            first: First { lhs: E::V(MplgVariable::LiteralExpr), rhs: E::T(TerminalSymbol::Metasymbol(Metasymbol::Empty)) },
            second: Second(E::V(MplgVariable::ExprWithoutBlock1)),
        },
        MplgVariable::ExprWithoutBlock1 => RightRule {
            first: First { lhs: E::V(MplgVariable::StructExpr), rhs: E::T(TerminalSymbol::Metasymbol(Metasymbol::Empty)) },
            second: Second(E::T(TerminalSymbol::Metasymbol(Metasymbol::Failure))),
        },
        MplgVariable::StructExpr => RightRule {
            first: First { lhs: E::V(MplgVariable::StructExprStruct), rhs: E::T(TerminalSymbol::Metasymbol(Metasymbol::Empty)) },
            second: Second(E::V(MplgVariable::StructExpr1)),
        },
        MplgVariable::StructExpr1 => RightRule {
            first: First { lhs: E::V(MplgVariable::StructExprTuple), rhs: E::T(TerminalSymbol::Metasymbol(Metasymbol::Empty)) },
            second: Second(E::V(MplgVariable::StructExprUnit)),
        },
        MplgVariable::StructExprStruct => RightRule {
            first: First { lhs: E::T(TerminalSymbol::Metasymbol(Metasymbol::Failure)), rhs: E::T(TerminalSymbol::Metasymbol(Metasymbol::Failure)) },
            second: Second(E::T(TerminalSymbol::Metasymbol(Metasymbol::Failure))),
        },
        MplgVariable::StructExprTuple => RightRule {
            first: First { lhs: E::V(MplgVariable::PathInExpr), rhs: E::V(MplgVariable::StructExprTuple1) },
            second: Second(E::T(TerminalSymbol::Metasymbol(Metasymbol::Failure))),
        },
        MplgVariable::StructExprTuple1 => RightRule {
            first: First { lhs: E::T(TerminalSymbol::Original(encode_scalar('(' as u32))), rhs: E::V(MplgVariable::StructExprTuple2) },
            second: Second(E::T(TerminalSymbol::Metasymbol(Metasymbol::Failure))),
        },
        MplgVariable::StructExprTuple2 => RightRule {
            first: First { lhs: E::V(MplgVariable::ZeroOrMoreExpr), rhs: E::T(TerminalSymbol::Original(encode_scalar(')' as u32))) },
            second: Second(E::T(TerminalSymbol::Metasymbol(Metasymbol::Failure))),
        },
        MplgVariable::ZeroOrMoreExpr => RightRule {
            first: First { lhs: E::V(MplgVariable::Expr), rhs: E::T(TerminalSymbol::Metasymbol(Metasymbol::Empty)) },
            second: Second(E::T(TerminalSymbol::Metasymbol(Metasymbol::Failure))),
        },
        MplgVariable::StructExprUnit => RightRule {
            first: First { lhs: E::V(MplgVariable::PathInExpr), rhs: E::T(TerminalSymbol::Metasymbol(Metasymbol::Empty)) },
            second: Second(E::T(TerminalSymbol::Metasymbol(Metasymbol::Failure))),
        },
        MplgVariable::PathInExpr => RightRule {
            first: First { lhs: E::V(MplgVariable::ZeroOrOneDoubleColon), rhs: E::V(MplgVariable::OneOrMorePathExprSegment) },
            second: Second(E::T(TerminalSymbol::Metasymbol(Metasymbol::Failure))),
        },
        MplgVariable::ZeroOrOneDoubleColon => RightRule {
            first: First { lhs: E::T(TerminalSymbol::Original(encode_utf8("::"@))), rhs: E::T(TerminalSymbol::Metasymbol(Metasymbol::Empty)) },
            second: Second(E::T(TerminalSymbol::Metasymbol(Metasymbol::Empty))),
        },
        MplgVariable::OneOrMorePathExprSegment => RightRule {
            first: First { lhs: E::V(MplgVariable::PathExprSegment), rhs: E::T(TerminalSymbol::Metasymbol(Metasymbol::Empty)) },
            second: Second(E::T(TerminalSymbol::Metasymbol(Metasymbol::Failure))),
        },
        MplgVariable::PathExprSegment => RightRule {
            first: First { lhs: E::V(MplgVariable::PathIdentSegment), rhs: E::V(MplgVariable::PathExprSegment1) },
            second: Second(E::T(TerminalSymbol::Metasymbol(Metasymbol::Failure))),
        },
        MplgVariable::PathExprSegment1 => RightRule {
            first: First { lhs: E::T(TerminalSymbol::Original(encode_utf8("::"@))), rhs: E::V(MplgVariable::GenericArgs) },
            second: Second(E::T(TerminalSymbol::Metasymbol(Metasymbol::Empty))),
        },
        MplgVariable::PathIdentSegment => RightRule {
            first: First { lhs: E::V(MplgVariable::Identifier), rhs: E::T(TerminalSymbol::Metasymbol(Metasymbol::Empty)) },
            second: Second(E::T(TerminalSymbol::Metasymbol(Metasymbol::Failure))),
        },
        MplgVariable::GenericArgs => RightRule {
            first: First { lhs: E::T(TerminalSymbol::Metasymbol(Metasymbol::Failure)), rhs: E::T(TerminalSymbol::Metasymbol(Metasymbol::Failure)) },
            second: Second(E::T(TerminalSymbol::Metasymbol(Metasymbol::Failure))),
        },
        MplgVariable::LiteralExpr => RightRule {
            first: First { lhs: E::V(MplgVariable::CharLiteral), rhs: E::T(TerminalSymbol::Metasymbol(Metasymbol::Empty)) },
            second: Second(E::V(MplgVariable::LiteralExpr1)),
        },
        MplgVariable::LiteralExpr1 => RightRule {
            first: First { lhs: E::V(MplgVariable::StringLiteral), rhs: E::T(TerminalSymbol::Metasymbol(Metasymbol::Empty)) },
            second: Second(E::V(MplgVariable::LiteralExpr2)),
        },
        MplgVariable::LiteralExpr2 => RightRule {
            first: First { lhs: E::V(MplgVariable::IntegerLiteral), rhs: E::T(TerminalSymbol::Metasymbol(Metasymbol::Empty)) },
            second: Second(E::T(TerminalSymbol::Metasymbol(Metasymbol::Failure))),
        },
        MplgVariable::MetasymbolLiteral => RightRule {
            first: First { lhs: E::V(MplgVariable::EmptyLiteral), rhs: E::T(TerminalSymbol::Metasymbol(Metasymbol::Empty)) },
            second: Second(E::V(MplgVariable::MetasymbolLiteral1)),
        },
        MplgVariable::MetasymbolLiteral1 => RightRule {
            first: First { lhs: E::V(MplgVariable::FailureLiteral), rhs: E::T(TerminalSymbol::Metasymbol(Metasymbol::Empty)) },
            second: Second(E::V(MplgVariable::MetasymbolLiteral2)),
        },
        MplgVariable::MetasymbolLiteral2 => RightRule {
            first: First { lhs: E::V(MplgVariable::AnyLiteral), rhs: E::T(TerminalSymbol::Metasymbol(Metasymbol::Empty)) },
            second: Second(E::V(MplgVariable::MetasymbolLiteral3)),
        },
        MplgVariable::MetasymbolLiteral3 => RightRule {
            first: First { lhs: E::V(MplgVariable::AllLiteral), rhs: E::T(TerminalSymbol::Metasymbol(Metasymbol::Empty)) },
            second: Second(E::T(TerminalSymbol::Metasymbol(Metasymbol::Failure))),
        },
        MplgVariable::EmptyLiteral => RightRule {
            first: First { lhs: E::T(TerminalSymbol::Original(encode_utf8("()"@))), rhs: E::T(TerminalSymbol::Metasymbol(Metasymbol::Empty)) },
            second: Second(E::T(TerminalSymbol::Metasymbol(Metasymbol::Failure))),
        },
        MplgVariable::FailureLiteral => RightRule {
            first: First { lhs: E::T(TerminalSymbol::Original(encode_scalar('f' as u32))), rhs: E::T(TerminalSymbol::Metasymbol(Metasymbol::Empty)) },
            second: Second(E::T(TerminalSymbol::Metasymbol(Metasymbol::Failure))),
        },
        MplgVariable::AnyLiteral => RightRule {
            first: First { lhs: E::T(TerminalSymbol::Original(encode_scalar('?' as u32))), rhs: E::V(MplgVariable::ZeroOrMoreAny) },
            second: Second(E::T(TerminalSymbol::Metasymbol(Metasymbol::Failure))),
        },
        MplgVariable::ZeroOrMoreAny => RightRule {
            first: First { lhs: E::T(TerminalSymbol::Original(encode_scalar('?' as u32))), rhs: E::V(MplgVariable::ZeroOrMoreAny) },
            second: Second(E::T(TerminalSymbol::Metasymbol(Metasymbol::Empty))),
        },
        MplgVariable::AllLiteral => RightRule {
            first: First { lhs: E::T(TerminalSymbol::Original(encode_scalar('*' as u32))), rhs: E::T(TerminalSymbol::Metasymbol(Metasymbol::Empty)) },
            second: Second(E::T(TerminalSymbol::Metasymbol(Metasymbol::Failure))),
        },
        MplgVariable::OriginalSymbolExpr => RightRule {
            first: First { lhs: E::T(TerminalSymbol::Original(encode_utf8("{ "@))), rhs: E::V(MplgVariable::OriginalSymbolExpr1) },
            second: Second(E::V(MplgVariable::LiteralExpr)),
        },
        MplgVariable::OriginalSymbolExpr1 => RightRule {
            first: First { lhs: E::V(MplgVariable::ExprWithoutBlock), rhs: E::T(TerminalSymbol::Original(encode_utf8(" }"@))) },
            second: Second(E::T(TerminalSymbol::Metasymbol(Metasymbol::Failure))),
        },
        MplgVariable::CharLiteral => RightRule {
            first: First { lhs: E::T(TerminalSymbol::Original(encode_scalar('\'' as u32))), rhs: E::V(MplgVariable::CharLiteral1) },
            second: Second(E::T(TerminalSymbol::Metasymbol(Metasymbol::Failure))),
        },
        MplgVariable::CharLiteral1 => RightRule {
            first: First { lhs: E::V(MplgVariable::InnerCharLiteral), rhs: E::T(TerminalSymbol::Original(encode_scalar('\'' as u32))) },
            second: Second(E::T(TerminalSymbol::Metasymbol(Metasymbol::Failure))),
        },
        MplgVariable::InnerCharLiteral => RightRule {
            first: First { lhs: E::V(MplgVariable::NotCharLetter), rhs: E::V(MplgVariable::InnerCharLiteral1) },
            second: Second(E::T(TerminalSymbol::Metasymbol(Metasymbol::Failure))),
        },
        MplgVariable::NotCharLetter => RightRule {
            first: First { lhs: E::T(TerminalSymbol::Original(encode_scalar('\'' as u32))), rhs: E::T(TerminalSymbol::Metasymbol(Metasymbol::All)) },
            second: Second(E::T(TerminalSymbol::Metasymbol(Metasymbol::Empty))),
        },
        MplgVariable::InnerCharLiteral1 => RightRule {
            first: First { lhs: E::V(MplgVariable::QuoteEscape), rhs: E::T(TerminalSymbol::Metasymbol(Metasymbol::Empty)) },
            second: Second(E::T(TerminalSymbol::Metasymbol(Metasymbol::Any(1)))),
        },
        MplgVariable::StringLiteral => RightRule {
            first: First { lhs: E::T(TerminalSymbol::Original(encode_scalar('"' as u32))), rhs: E::V(MplgVariable::StringLiteral1) },
            second: Second(E::T(TerminalSymbol::Metasymbol(Metasymbol::Failure))),
        },
        MplgVariable::StringLiteral1 => RightRule {
            first: First { lhs: E::V(MplgVariable::InnerStringLiteral), rhs: E::T(TerminalSymbol::Original(encode_scalar('"' as u32))) },
            second: Second(E::T(TerminalSymbol::Metasymbol(Metasymbol::Failure))),
        },
        MplgVariable::InnerStringLiteral => RightRule {
            first: First { lhs: E::V(MplgVariable::InnerStringLiteralLetter), rhs: E::V(MplgVariable::InnerStringLiteral) },
            second: Second(E::T(TerminalSymbol::Metasymbol(Metasymbol::Empty))),
        },
        MplgVariable::InnerStringLiteralLetter => RightRule {
            first: First { lhs: E::V(MplgVariable::NotStringLetter), rhs: E::V(MplgVariable::InnerStringLiteral1Letter1) },
            second: Second(E::T(TerminalSymbol::Metasymbol(Metasymbol::Failure))),
        },
        MplgVariable::NotStringLetter => RightRule {
            first: First { lhs: E::T(TerminalSymbol::Original(encode_scalar('"' as u32))), rhs: E::T(TerminalSymbol::Metasymbol(Metasymbol::All)) },
            second: Second(E::T(TerminalSymbol::Metasymbol(Metasymbol::Empty))),
        },
        MplgVariable::InnerStringLiteral1Letter1 => RightRule {
            first: First { lhs: E::V(MplgVariable::QuoteEscape), rhs: E::T(TerminalSymbol::Metasymbol(Metasymbol::Empty)) },
            second: Second(E::T(TerminalSymbol::Metasymbol(Metasymbol::Any(1)))),
        },
        MplgVariable::IntegerLiteral => RightRule {
            first: First { lhs: E::V(MplgVariable::IntegerLiterals), rhs: E::T(TerminalSymbol::Metasymbol(Metasymbol::Empty)) },
            second: Second(E::T(TerminalSymbol::Metasymbol(Metasymbol::Failure))),
        },
        MplgVariable::IntegerLiterals => RightRule {
            first: First { lhs: E::V(MplgVariable::DecLiteral), rhs: E::T(TerminalSymbol::Metasymbol(Metasymbol::Empty)) },
            second: Second(E::T(TerminalSymbol::Metasymbol(Metasymbol::Failure))),
        },
        MplgVariable::DecLiteral => RightRule {
            first: First { lhs: E::V(MplgVariable::DecDigit), rhs: E::V(MplgVariable::ZeroOrMoreDecDigit) },
            second: Second(E::T(TerminalSymbol::Metasymbol(Metasymbol::Failure))),
        },
        MplgVariable::ZeroOrMoreDecDigit => RightRule {
            first: First { lhs: E::V(MplgVariable::DecDigitOrUnderscore), rhs: E::V(MplgVariable::ZeroOrMoreDecDigit) },
            second: Second(E::T(TerminalSymbol::Metasymbol(Metasymbol::Empty))),
        },
        MplgVariable::DecDigitOrUnderscore => RightRule {
            first: First { lhs: E::V(MplgVariable::DecDigit), rhs: E::T(TerminalSymbol::Metasymbol(Metasymbol::Empty)) },
            second: Second(E::T(TerminalSymbol::Original(encode_scalar('_' as u32)))),
        },
        MplgVariable::Identifier => RightRule {
            first: First { lhs: E::V(MplgVariable::Uppercase), rhs: E::V(MplgVariable::ZeroOrMoreIdentifierContinue) },
            second: Second(E::T(TerminalSymbol::Metasymbol(Metasymbol::Failure))),
        },
        MplgVariable::ZeroOrMoreIdentifierContinue => RightRule {
            first: First { lhs: E::V(MplgVariable::IdentifierContinue), rhs: E::V(MplgVariable::ZeroOrMoreIdentifierContinue) },
            second: Second(E::T(TerminalSymbol::Metasymbol(Metasymbol::Empty))),
        },
        MplgVariable::IdentifierContinue => RightRule {
            first: First { lhs: E::V(MplgVariable::Alphabet), rhs: E::T(TerminalSymbol::Metasymbol(Metasymbol::Empty)) },
            second: Second(E::V(MplgVariable::DecDigit)),
        },
        MplgVariable::Alphabet => RightRule {
            first: First { lhs: E::V(MplgVariable::Lowercase), rhs: E::T(TerminalSymbol::Metasymbol(Metasymbol::Empty)) },
            second: Second(E::V(MplgVariable::Uppercase)),
        },
        MplgVariable::LowercaseAToF => RightRule {
            first: First { lhs: E::V(MplgVariable::LowercaseAToF1), rhs: E::T(TerminalSymbol::Metasymbol(Metasymbol::Empty)) },
            second: Second(E::T(TerminalSymbol::Metasymbol(Metasymbol::Failure))),
        },
        MplgVariable::LowercaseAToF1 => RightRule {
            first: First { lhs: E::T(TerminalSymbol::Original(encode_scalar('a' as u32))), rhs: E::T(TerminalSymbol::Metasymbol(Metasymbol::Empty)) },
            second: Second(E::V(MplgVariable::LowercaseAToF2)),
        },
        MplgVariable::LowercaseAToF2 => RightRule {
            first: First { lhs: E::T(TerminalSymbol::Original(encode_scalar('b' as u32))), rhs: E::T(TerminalSymbol::Metasymbol(Metasymbol::Empty)) },
            second: Second(E::V(MplgVariable::LowercaseAToF3)),
        },
        MplgVariable::LowercaseAToF3 => RightRule {
            first: First { lhs: E::T(TerminalSymbol::Original(encode_scalar('c' as u32))), rhs: E::T(TerminalSymbol::Metasymbol(Metasymbol::Empty)) },
            second: Second(E::V(MplgVariable::LowercaseAToF4)),
        },
        MplgVariable::LowercaseAToF4 => RightRule {
            first: First { lhs: E::T(TerminalSymbol::Original(encode_scalar('d' as u32))), rhs: E::T(TerminalSymbol::Metasymbol(Metasymbol::Empty)) },
            second: Second(E::V(MplgVariable::LowercaseAToF5)),
        },
        MplgVariable::LowercaseAToF5 => RightRule {
            first: First { lhs: E::T(TerminalSymbol::Original(encode_scalar('e' as u32))), rhs: E::T(TerminalSymbol::Metasymbol(Metasymbol::Empty)) },
            second: Second(E::V(MplgVariable::LowercaseAToF6)),
        },
        MplgVariable::LowercaseAToF6 => RightRule {
            first: First { lhs: E::T(TerminalSymbol::Original(encode_scalar('f' as u32))), rhs: E::T(TerminalSymbol::Metasymbol(Metasymbol::Empty)) },
            second: Second(E::T(TerminalSymbol::Metasymbol(Metasymbol::Failure))),
        },
        MplgVariable::Lowercase => RightRule {
            first: First { lhs: E::V(MplgVariable::LowercaseAToF), rhs: E::T(TerminalSymbol::Metasymbol(Metasymbol::Empty)) },
            second: Second(E::V(MplgVariable::Lowercase1)),
        },
        MplgVariable::Lowercase1 => RightRule {
            first: First { lhs: E::T(TerminalSymbol::Original(encode_scalar('g' as u32))), rhs: E::T(TerminalSymbol::Metasymbol(Metasymbol::Empty)) },
            second: Second(E::V(MplgVariable::Lowercase2)),
        },
        MplgVariable::Lowercase2 => RightRule {
            first: First { lhs: E::T(TerminalSymbol::Original(encode_scalar('h' as u32))), rhs: E::T(TerminalSymbol::Metasymbol(Metasymbol::Empty)) },
            second: Second(E::V(MplgVariable::Lowercase3)),
        },
        MplgVariable::Lowercase3 => RightRule {
            first: First { lhs: E::T(TerminalSymbol::Original(encode_scalar('i' as u32))), rhs: E::T(TerminalSymbol::Metasymbol(Metasymbol::Empty)) },
            second: Second(E::V(MplgVariable::Lowercase4)),
        },
        MplgVariable::Lowercase4 => RightRule {
            first: First { lhs: E::T(TerminalSymbol::Original(encode_scalar('j' as u32))), rhs: E::T(TerminalSymbol::Metasymbol(Metasymbol::Empty)) },
            second: Second(E::V(MplgVariable::Lowercase5)),
        },
        MplgVariable::Lowercase5 => RightRule {
            first: First { lhs: E::T(TerminalSymbol::Original(encode_scalar('k' as u32))), rhs: E::T(TerminalSymbol::Metasymbol(Metasymbol::Empty)) },
            second: Second(E::V(MplgVariable::Lowercase6)),
        },
        MplgVariable::Lowercase6 => RightRule {
            first: First { lhs: E::T(TerminalSymbol::Original(encode_scalar('l' as u32))), rhs: E::T(TerminalSymbol::Metasymbol(Metasymbol::Empty)) },
            second: Second(E::V(MplgVariable::Lowercase7)),
        },
        MplgVariable::Lowercase7 => RightRule {
            first: First { lhs: E::T(TerminalSymbol::Original(encode_scalar('m' as u32))), rhs: E::T(TerminalSymbol::Metasymbol(Metasymbol::Empty)) },
            second: Second(E::V(MplgVariable::Lowercase8)),
        },
        MplgVariable::Lowercase8 => RightRule {
            first: First { lhs: E::T(TerminalSymbol::Original(encode_scalar('n' as u32))), rhs: E::T(TerminalSymbol::Metasymbol(Metasymbol::Empty)) },
            second: Second(E::V(MplgVariable::Lowercase9)),
        },
        MplgVariable::Lowercase9 => RightRule {
            first: First { lhs: E::T(TerminalSymbol::Original(encode_scalar('o' as u32))), rhs: E::T(TerminalSymbol::Metasymbol(Metasymbol::Empty)) },
            second: Second(E::V(MplgVariable::Lowercase10)),
        },
        MplgVariable::Lowercase10 => RightRule {
            first: First { lhs: E::T(TerminalSymbol::Original(encode_scalar('p' as u32))), rhs: E::T(TerminalSymbol::Metasymbol(Metasymbol::Empty)) },
            second: Second(E::V(MplgVariable::Lowercase11)),
        },
        MplgVariable::Lowercase11 => RightRule {
            first: First { lhs: E::T(TerminalSymbol::Original(encode_scalar('q' as u32))), rhs: E::T(TerminalSymbol::Metasymbol(Metasymbol::Empty)) },
            second: Second(E::V(MplgVariable::Lowercase12)),
        },
        MplgVariable::Lowercase12 => RightRule {
            first: First { lhs: E::T(TerminalSymbol::Original(encode_scalar('r' as u32))), rhs: E::T(TerminalSymbol::Metasymbol(Metasymbol::Empty)) },
            second: Second(E::V(MplgVariable::Lowercase13)),
        },
        MplgVariable::Lowercase13 => RightRule {
            first: First { lhs: E::T(TerminalSymbol::Original(encode_scalar('s' as u32))), rhs: E::T(TerminalSymbol::Metasymbol(Metasymbol::Empty)) },
            second: Second(E::V(MplgVariable::Lowercase14)),
        },
        MplgVariable::Lowercase14 => RightRule {
            first: First { lhs: E::T(TerminalSymbol::Original(encode_scalar('t' as u32))), rhs: E::T(TerminalSymbol::Metasymbol(Metasymbol::Empty)) },
            second: Second(E::V(MplgVariable::Lowercase15)),
        },
        MplgVariable::Lowercase15 => RightRule {
            first: First { lhs: E::T(TerminalSymbol::Original(encode_scalar('u' as u32))), rhs: E::T(TerminalSymbol::Metasymbol(Metasymbol::Empty)) },
            second: Second(E::V(MplgVariable::Lowercase16)),
        },
        MplgVariable::Lowercase16 => RightRule {
            first: First { lhs: E::T(TerminalSymbol::Original(encode_scalar('v' as u32))), rhs: E::T(TerminalSymbol::Metasymbol(Metasymbol::Empty)) },
            second: Second(E::V(MplgVariable::Lowercase17)),
        },
        MplgVariable::Lowercase17 => RightRule {
            first: First { lhs: E::T(TerminalSymbol::Original(encode_scalar('w' as u32))), rhs: E::T(TerminalSymbol::Metasymbol(Metasymbol::Empty)) },
            second: Second(E::V(MplgVariable::Lowercase18)),
        },
        MplgVariable::Lowercase18 => RightRule {
            first: First { lhs: E::T(TerminalSymbol::Original(encode_scalar('x' as u32))), rhs: E::T(TerminalSymbol::Metasymbol(Metasymbol::Empty)) },
            second: Second(E::V(MplgVariable::Lowercase19)),
        },
        MplgVariable::Lowercase19 => RightRule {
            first: First { lhs: E::T(TerminalSymbol::Original(encode_scalar('y' as u32))), rhs: E::T(TerminalSymbol::Metasymbol(Metasymbol::Empty)) },
            second: Second(E::V(MplgVariable::Lowercase20)),
        },
        MplgVariable::Lowercase20 => RightRule {
            first: First { lhs: E::T(TerminalSymbol::Original(encode_scalar('z' as u32))), rhs: E::T(TerminalSymbol::Metasymbol(Metasymbol::Empty)) },
            second: Second(E::T(TerminalSymbol::Metasymbol(Metasymbol::Failure))),
        },
        MplgVariable::UppercaseAToF => RightRule {
            first: First { lhs: E::V(MplgVariable::UppercaseAToF1), rhs: E::T(TerminalSymbol::Metasymbol(Metasymbol::Empty)) },
            second: Second(E::T(TerminalSymbol::Metasymbol(Metasymbol::Failure))),
        },
        MplgVariable::UppercaseAToF1 => RightRule {
            first: First { lhs: E::T(TerminalSymbol::Original(encode_scalar('A' as u32))), rhs: E::T(TerminalSymbol::Metasymbol(Metasymbol::Empty)) },
            second: Second(E::V(MplgVariable::UppercaseAToF2)),
        },
        MplgVariable::UppercaseAToF2 => RightRule {
            first: First { lhs: E::T(TerminalSymbol::Original(encode_scalar('B' as u32))), rhs: E::T(TerminalSymbol::Metasymbol(Metasymbol::Empty)) },
            second: Second(E::V(MplgVariable::UppercaseAToF3)),
        },
        MplgVariable::UppercaseAToF3 => RightRule {
            first: First { lhs: E::T(TerminalSymbol::Original(encode_scalar('C' as u32))), rhs: E::T(TerminalSymbol::Metasymbol(Metasymbol::Empty)) },
            second: Second(E::V(MplgVariable::UppercaseAToF4)),
        },
        MplgVariable::UppercaseAToF4 => RightRule {
            first: First { lhs: E::T(TerminalSymbol::Original(encode_scalar('D' as u32))), rhs: E::T(TerminalSymbol::Metasymbol(Metasymbol::Empty)) },
            second: Second(E::V(MplgVariable::UppercaseAToF5)),
        },
        MplgVariable::UppercaseAToF5 => RightRule {
            first: First { lhs: E::T(TerminalSymbol::Original(encode_scalar('E' as u32))), rhs: E::T(TerminalSymbol::Metasymbol(Metasymbol::Empty)) },
            second: Second(E::V(MplgVariable::UppercaseAToF6)),
        },
        MplgVariable::UppercaseAToF6 => RightRule {
            first: First { lhs: E::T(TerminalSymbol::Original(encode_scalar('F' as u32))), rhs: E::T(TerminalSymbol::Metasymbol(Metasymbol::Empty)) },
            second: Second(E::T(TerminalSymbol::Metasymbol(Metasymbol::Failure))),
        },
        MplgVariable::Uppercase => RightRule {
            first: First { lhs: E::V(MplgVariable::UppercaseAToF), rhs: E::T(TerminalSymbol::Metasymbol(Metasymbol::Empty)) },
            second: Second(E::V(MplgVariable::Uppercase1)),
        },
        MplgVariable::Uppercase1 => RightRule {
            first: First { lhs: E::T(TerminalSymbol::Original(encode_scalar('G' as u32))), rhs: E::T(TerminalSymbol::Metasymbol(Metasymbol::Empty)) },
            second: Second(E::V(MplgVariable::Uppercase2)),
        },
        MplgVariable::Uppercase2 => RightRule {
            first: First { lhs: E::T(TerminalSymbol::Original(encode_scalar('H' as u32))), rhs: E::T(TerminalSymbol::Metasymbol(Metasymbol::Empty)) },
            second: Second(E::V(MplgVariable::Uppercase3)),
        },
        MplgVariable::Uppercase3 => RightRule {
            first: First { lhs: E::T(TerminalSymbol::Original(encode_scalar('I' as u32))), rhs: E::T(TerminalSymbol::Metasymbol(Metasymbol::Empty)) },
            second: Second(E::V(MplgVariable::Uppercase4)),
        },
        MplgVariable::Uppercase4 => RightRule {
            first: First { lhs: E::T(TerminalSymbol::Original(encode_scalar('J' as u32))), rhs: E::T(TerminalSymbol::Metasymbol(Metasymbol::Empty)) },
            second: Second(E::V(MplgVariable::Uppercase5)),
        },
        MplgVariable::Uppercase5 => RightRule {
            first: First { lhs: E::T(TerminalSymbol::Original(encode_scalar('K' as u32))), rhs: E::T(TerminalSymbol::Metasymbol(Metasymbol::Empty)) },
            second: Second(E::V(MplgVariable::Uppercase6)),
        },
        MplgVariable::Uppercase6 => RightRule {
            first: First { lhs: E::T(TerminalSymbol::Original(encode_scalar('L' as u32))), rhs: E::T(TerminalSymbol::Metasymbol(Metasymbol::Empty)) },
            second: Second(E::V(MplgVariable::Uppercase7)),
        },
        MplgVariable::Uppercase7 => RightRule {
            first: First { lhs: E::T(TerminalSymbol::Original(encode_scalar('M' as u32))), rhs: E::T(TerminalSymbol::Metasymbol(Metasymbol::Empty)) },
            second: Second(E::V(MplgVariable::Uppercase8)),
        },
        MplgVariable::Uppercase8 => RightRule {
            first: First { lhs: E::T(TerminalSymbol::Original(encode_scalar('N' as u32))), rhs: E::T(TerminalSymbol::Metasymbol(Metasymbol::Empty)) },
            second: Second(E::V(MplgVariable::Uppercase9)),
        },
        MplgVariable::Uppercase9 => RightRule {
            first: First { lhs: E::T(TerminalSymbol::Original(encode_scalar('O' as u32))), rhs: E::T(TerminalSymbol::Metasymbol(Metasymbol::Empty)) },
            second: Second(E::V(MplgVariable::Uppercase10)),
        },
        MplgVariable::Uppercase10 => RightRule {
            first: First { lhs: E::T(TerminalSymbol::Original(encode_scalar('P' as u32))), rhs: E::T(TerminalSymbol::Metasymbol(Metasymbol::Empty)) },
            second: Second(E::V(MplgVariable::Uppercase11)),
        },
        MplgVariable::Uppercase11 => RightRule {
            first: First { lhs: E::T(TerminalSymbol::Original(encode_scalar('Q' as u32))), rhs: E::T(TerminalSymbol::Metasymbol(Metasymbol::Empty)) },
            second: Second(E::V(MplgVariable::Uppercase12)),
        },
        MplgVariable::Uppercase12 => RightRule {
            first: First { lhs: E::T(TerminalSymbol::Original(encode_scalar('R' as u32))), rhs: E::T(TerminalSymbol::Metasymbol(Metasymbol::Empty)) },
            second: Second(E::V(MplgVariable::Uppercase13)),
        },
        MplgVariable::Uppercase13 => RightRule {
            first: First { lhs: E::T(TerminalSymbol::Original(encode_scalar('S' as u32))), rhs: E::T(TerminalSymbol::Metasymbol(Metasymbol::Empty)) },
            second: Second(E::V(MplgVariable::Uppercase14)),
        },
        MplgVariable::Uppercase14 => RightRule {
            first: First { lhs: E::T(TerminalSymbol::Original(encode_scalar('T' as u32))), rhs: E::T(TerminalSymbol::Metasymbol(Metasymbol::Empty)) },
            second: Second(E::V(MplgVariable::Uppercase15)),
        },
        MplgVariable::Uppercase15 => RightRule {
            first: First { lhs: E::T(TerminalSymbol::Original(encode_scalar('U' as u32))), rhs: E::T(TerminalSymbol::Metasymbol(Metasymbol::Empty)) },
            second: Second(E::V(MplgVariable::Uppercase16)),
        },
        MplgVariable::Uppercase16 => RightRule {
            first: First { lhs: E::T(TerminalSymbol::Original(encode_scalar('V' as u32))), rhs: E::T(TerminalSymbol::Metasymbol(Metasymbol::Empty)) },
            second: Second(E::V(MplgVariable::Uppercase17)),
        },
        MplgVariable::Uppercase17 => RightRule {
            first: First { lhs: E::T(TerminalSymbol::Original(encode_scalar('W' as u32))), rhs: E::T(TerminalSymbol::Metasymbol(Metasymbol::Empty)) },
            second: Second(E::V(MplgVariable::Uppercase18)),
        },
        MplgVariable::Uppercase18 => RightRule {
            first: First { lhs: E::T(TerminalSymbol::Original(encode_scalar('X' as u32))), rhs: E::T(TerminalSymbol::Metasymbol(Metasymbol::Empty)) },
            second: Second(E::V(MplgVariable::Uppercase19)),
        },
        MplgVariable::Uppercase19 => RightRule {
            first: First { lhs: E::T(TerminalSymbol::Original(encode_scalar('Y' as u32))), rhs: E::T(TerminalSymbol::Metasymbol(Metasymbol::Empty)) },
            second: Second(E::V(MplgVariable::Uppercase20)),
        },
        MplgVariable::Uppercase20 => RightRule {
            first: First { lhs: E::T(TerminalSymbol::Original(encode_scalar('Z' as u32))), rhs: E::T(TerminalSymbol::Metasymbol(Metasymbol::Empty)) },
            second: Second(E::T(TerminalSymbol::Metasymbol(Metasymbol::Failure))),
        },
        MplgVariable::QuoteEscape => RightRule {
            first: First { lhs: E::T(TerminalSymbol::Original(encode_utf8("\\'"@))), rhs: E::T(TerminalSymbol::Metasymbol(Metasymbol::Empty)) },
            second: Second(E::T(TerminalSymbol::Original(encode_utf8("\\\""@)))),
        },
        MplgVariable::EndOfLine => RightRule {
            first: First { lhs: E::T(TerminalSymbol::Original(encode_scalar('\n' as u32))), rhs: E::T(TerminalSymbol::Metasymbol(Metasymbol::Empty)) },
            second: Second(E::T(TerminalSymbol::Original(encode_utf8("\r\n"@)))),
        },
        MplgVariable::Space => RightRule {
            first: First { lhs: E::T(TerminalSymbol::Original(encode_scalar(' ' as u32))), rhs: E::T(TerminalSymbol::Metasymbol(Metasymbol::Empty)) },
            second: Second(E::T(TerminalSymbol::Metasymbol(Metasymbol::Failure))),
        },
        MplgVariable::BinDigit => RightRule {
            first: First { lhs: E::T(TerminalSymbol::Original(encode_scalar('0' as u32))), rhs: E::T(TerminalSymbol::Metasymbol(Metasymbol::Empty)) },
            second: Second(E::T(TerminalSymbol::Original(encode_scalar('1' as u32)))),
        },
        MplgVariable::OctDigit => RightRule {
            first: First { lhs: E::V(MplgVariable::BinDigit), rhs: E::T(TerminalSymbol::Metasymbol(Metasymbol::Empty)) },
            second: Second(E::V(MplgVariable::OctDigit1)),
        },
        MplgVariable::OctDigit1 => RightRule {
            first: First { lhs: E::T(TerminalSymbol::Original(encode_scalar('2' as u32))), rhs: E::T(TerminalSymbol::Metasymbol(Metasymbol::Empty)) },
            second: Second(E::V(MplgVariable::OctDigit2)),
        },
        MplgVariable::OctDigit2 => RightRule {
            first: First { lhs: E::T(TerminalSymbol::Original(encode_scalar('3' as u32))), rhs: E::T(TerminalSymbol::Metasymbol(Metasymbol::Empty)) },
            second: Second(E::V(MplgVariable::OctDigit3)),
        },
        MplgVariable::OctDigit3 => RightRule {
            first: First { lhs: E::T(TerminalSymbol::Original(encode_scalar('4' as u32))), rhs: E::T(TerminalSymbol::Metasymbol(Metasymbol::Empty)) },
            second: Second(E::V(MplgVariable::OctDigit4)),
        },
        MplgVariable::OctDigit4 => RightRule {
            first: First { lhs: E::T(TerminalSymbol::Original(encode_scalar('5' as u32))), rhs: E::T(TerminalSymbol::Metasymbol(Metasymbol::Empty)) },
            second: Second(E::V(MplgVariable::OctDigit5)),
        },
        MplgVariable::OctDigit5 => RightRule {
            first: First { lhs: E::T(TerminalSymbol::Original(encode_scalar('6' as u32))), rhs: E::T(TerminalSymbol::Metasymbol(Metasymbol::Empty)) },
            second: Second(E::V(MplgVariable::OctDigit6)),
        },
        MplgVariable::OctDigit6 => RightRule {
            first: First { lhs: E::T(TerminalSymbol::Original(encode_scalar('7' as u32))), rhs: E::T(TerminalSymbol::Metasymbol(Metasymbol::Empty)) },
            second: Second(E::T(TerminalSymbol::Metasymbol(Metasymbol::Failure))),
        },
        MplgVariable::DecDigit => RightRule {
            first: First { lhs: E::V(MplgVariable::OctDigit), rhs: E::T(TerminalSymbol::Metasymbol(Metasymbol::Empty)) },
            second: Second(E::V(MplgVariable::DecDigit1)),
        },
        MplgVariable::DecDigit1 => RightRule {
            first: First { lhs: E::T(TerminalSymbol::Original(encode_scalar('8' as u32))), rhs: E::T(TerminalSymbol::Metasymbol(Metasymbol::Empty)) },
            second: Second(E::V(MplgVariable::DecDigit2)),
        },
        MplgVariable::DecDigit2 => RightRule {
            first: First { lhs: E::T(TerminalSymbol::Original(encode_scalar('9' as u32))), rhs: E::T(TerminalSymbol::Metasymbol(Metasymbol::Empty)) },
            second: Second(E::T(TerminalSymbol::Metasymbol(Metasymbol::Failure))),
        },
        MplgVariable::LineComment => RightRule {
            first: First { lhs: E::T(TerminalSymbol::Original(encode_utf8("//"@))), rhs: E::V(MplgVariable::InnerLineComment) },
            second: Second(E::T(TerminalSymbol::Metasymbol(Metasymbol::Failure))),
        },
        MplgVariable::InnerLineComment => RightRule {
            first: First { lhs: E::V(MplgVariable::AnyExceptLF), rhs: E::V(MplgVariable::InnerLineComment) },
            second: Second(E::T(TerminalSymbol::Metasymbol(Metasymbol::Empty))),
        },
        MplgVariable::AnyExceptLF => RightRule {
            first: First { lhs: E::V(MplgVariable::AnyExceptLF1), rhs: E::T(TerminalSymbol::Metasymbol(Metasymbol::Any(1))) },
            second: Second(E::T(TerminalSymbol::Metasymbol(Metasymbol::Failure))),
        },
        MplgVariable::AnyExceptLF1 => RightRule {
            first: First { lhs: E::V(MplgVariable::EndOfLine), rhs: E::T(TerminalSymbol::Metasymbol(Metasymbol::All)) },
            second: Second(E::T(TerminalSymbol::Metasymbol(Metasymbol::Empty))),
        },
    }
}

/// Whether a table is the bootstrap notation's: every variable is bound,
/// and each rule matches the canonical table operand for operand.
pub open spec fn mplg_table(rules: &MplgRules) -> bool {
    &&& forall|v: MplgVariable|
        (#[trigger] rules.rule_of(v)) matches Some(rule) && rule_view(rule) == spec_mplg_rule(v)
    &&& rules.spec_rule_count() == 141
}

/// The frozen rule table of the notation: exactly one rule per variable.
pub struct MplgRules {
    mplg_rule: RightRule<U8SliceTerminal, MplgVariable>,
    zero_or_more_lines_rule: RightRule<U8SliceTerminal, MplgVariable>,
    line_rule: RightRule<U8SliceTerminal, MplgVariable>,
    line1_rule: RightRule<U8SliceTerminal, MplgVariable>,
    line2_rule: RightRule<U8SliceTerminal, MplgVariable>,
    rule_rule: RightRule<U8SliceTerminal, MplgVariable>,
    rule1_rule: RightRule<U8SliceTerminal, MplgVariable>,
    rule2_rule: RightRule<U8SliceTerminal, MplgVariable>,
    rule3_rule: RightRule<U8SliceTerminal, MplgVariable>,
    rule4_rule: RightRule<U8SliceTerminal, MplgVariable>,
    rule5_rule: RightRule<U8SliceTerminal, MplgVariable>,
    rule6_rule: RightRule<U8SliceTerminal, MplgVariable>,
    e_rule: RightRule<U8SliceTerminal, MplgVariable>,
    variable_rule: RightRule<U8SliceTerminal, MplgVariable>,
    terminal_symbol_rule: RightRule<U8SliceTerminal, MplgVariable>,
    expr_rule: RightRule<U8SliceTerminal, MplgVariable>,
    expr_without_block_rule: RightRule<U8SliceTerminal, MplgVariable>,
    expr_without_block1_rule: RightRule<U8SliceTerminal, MplgVariable>,
    struct_expr_rule: RightRule<U8SliceTerminal, MplgVariable>,
    struct_expr1_rule: RightRule<U8SliceTerminal, MplgVariable>,
    struct_expr_struct_rule: RightRule<U8SliceTerminal, MplgVariable>,
    struct_expr_tuple_rule: RightRule<U8SliceTerminal, MplgVariable>,
    struct_expr_tuple1_rule: RightRule<U8SliceTerminal, MplgVariable>,
    struct_expr_tuple2_rule: RightRule<U8SliceTerminal, MplgVariable>,
    zero_or_more_expr_rule: RightRule<U8SliceTerminal, MplgVariable>,
    struct_expr_unit_rule: RightRule<U8SliceTerminal, MplgVariable>,
    path_in_expr_rule: RightRule<U8SliceTerminal, MplgVariable>,
    zero_or_one_double_colon_rule: RightRule<U8SliceTerminal, MplgVariable>,
    one_or_more_path_expr_segment_rule: RightRule<U8SliceTerminal, MplgVariable>,
    path_expr_segment_rule: RightRule<U8SliceTerminal, MplgVariable>,
    path_expr_segment1_rule: RightRule<U8SliceTerminal, MplgVariable>,
    path_ident_segment_rule: RightRule<U8SliceTerminal, MplgVariable>,
    generic_args_rule: RightRule<U8SliceTerminal, MplgVariable>,
    literal_expr_rule: RightRule<U8SliceTerminal, MplgVariable>,
    literal_expr1_rule: RightRule<U8SliceTerminal, MplgVariable>,
    literal_expr2_rule: RightRule<U8SliceTerminal, MplgVariable>,
    metasymbol_literal_rule: RightRule<U8SliceTerminal, MplgVariable>,
    metasymbol_literal1_rule: RightRule<U8SliceTerminal, MplgVariable>,
    metasymbol_literal2_rule: RightRule<U8SliceTerminal, MplgVariable>,
    metasymbol_literal3_rule: RightRule<U8SliceTerminal, MplgVariable>,
    empty_rule: RightRule<U8SliceTerminal, MplgVariable>,
    failure_literal_rule: RightRule<U8SliceTerminal, MplgVariable>,
    any_literal_rule: RightRule<U8SliceTerminal, MplgVariable>,
    zero_or_more_any_rule: RightRule<U8SliceTerminal, MplgVariable>,
    all_literal_rule: RightRule<U8SliceTerminal, MplgVariable>,
    original_symbol_expr_rule: RightRule<U8SliceTerminal, MplgVariable>,
    original_symbol_expr1_rule: RightRule<U8SliceTerminal, MplgVariable>,
    char_literal_rule: RightRule<U8SliceTerminal, MplgVariable>,
    char_literal1_rule: RightRule<U8SliceTerminal, MplgVariable>,
    inner_char_literal_rule: RightRule<U8SliceTerminal, MplgVariable>,
    not_char_letter_rule: RightRule<U8SliceTerminal, MplgVariable>,
    inner_char_literal1_rule: RightRule<U8SliceTerminal, MplgVariable>,
    string_literal_rule: RightRule<U8SliceTerminal, MplgVariable>,
    string_literal1_rule: RightRule<U8SliceTerminal, MplgVariable>,
    inner_string_literal_rule: RightRule<U8SliceTerminal, MplgVariable>,
    inner_string_literal_letter_rule: RightRule<U8SliceTerminal, MplgVariable>,
    not_string_letter_rule: RightRule<U8SliceTerminal, MplgVariable>,
    inner_string_literal_letter1_rule: RightRule<U8SliceTerminal, MplgVariable>,
    integer_literal_rule: RightRule<U8SliceTerminal, MplgVariable>,
    integer_literals_rule: RightRule<U8SliceTerminal, MplgVariable>,
    dec_literal_rule: RightRule<U8SliceTerminal, MplgVariable>,
    zero_or_more_dec_digit_rule: RightRule<U8SliceTerminal, MplgVariable>,
    dec_digit_or_underscore_rule: RightRule<U8SliceTerminal, MplgVariable>,
    identifier_rule: RightRule<U8SliceTerminal, MplgVariable>,
    zero_or_more_identifier_continue_rule: RightRule<U8SliceTerminal, MplgVariable>,
    identifier_continue_rule: RightRule<U8SliceTerminal, MplgVariable>,
    alphabet_rule: RightRule<U8SliceTerminal, MplgVariable>,
    lowercase_a_to_f_rule: RightRule<U8SliceTerminal, MplgVariable>,
    lowercase_a_to_f1_rule: RightRule<U8SliceTerminal, MplgVariable>,
    lowercase_a_to_f2_rule: RightRule<U8SliceTerminal, MplgVariable>,
    lowercase_a_to_f3_rule: RightRule<U8SliceTerminal, MplgVariable>,
    lowercase_a_to_f4_rule: RightRule<U8SliceTerminal, MplgVariable>,
    lowercase_a_to_f5_rule: RightRule<U8SliceTerminal, MplgVariable>,
    lowercase_a_to_f6_rule: RightRule<U8SliceTerminal, MplgVariable>,
    lowercase_rule: RightRule<U8SliceTerminal, MplgVariable>,
    lowercase1_rule: RightRule<U8SliceTerminal, MplgVariable>,
    lowercase2_rule: RightRule<U8SliceTerminal, MplgVariable>,
    lowercase3_rule: RightRule<U8SliceTerminal, MplgVariable>,
    lowercase4_rule: RightRule<U8SliceTerminal, MplgVariable>,
    lowercase5_rule: RightRule<U8SliceTerminal, MplgVariable>,
    lowercase6_rule: RightRule<U8SliceTerminal, MplgVariable>,
    lowercase7_rule: RightRule<U8SliceTerminal, MplgVariable>,
    lowercase8_rule: RightRule<U8SliceTerminal, MplgVariable>,
    lowercase9_rule: RightRule<U8SliceTerminal, MplgVariable>,
    lowercase10_rule: RightRule<U8SliceTerminal, MplgVariable>,
    lowercase11_rule: RightRule<U8SliceTerminal, MplgVariable>,
    lowercase12_rule: RightRule<U8SliceTerminal, MplgVariable>,
    lowercase13_rule: RightRule<U8SliceTerminal, MplgVariable>,
    lowercase14_rule: RightRule<U8SliceTerminal, MplgVariable>,
    lowercase15_rule: RightRule<U8SliceTerminal, MplgVariable>,
    lowercase16_rule: RightRule<U8SliceTerminal, MplgVariable>,
    lowercase17_rule: RightRule<U8SliceTerminal, MplgVariable>,
    lowercase18_rule: RightRule<U8SliceTerminal, MplgVariable>,
    lowercase19_rule: RightRule<U8SliceTerminal, MplgVariable>,
    lowercase20_rule: RightRule<U8SliceTerminal, MplgVariable>,
    uppercase_a_to_f_rule: RightRule<U8SliceTerminal, MplgVariable>,
    uppercase_a_to_f1_rule: RightRule<U8SliceTerminal, MplgVariable>,
    uppercase_a_to_f2_rule: RightRule<U8SliceTerminal, MplgVariable>,
    uppercase_a_to_f3_rule: RightRule<U8SliceTerminal, MplgVariable>,
    uppercase_a_to_f4_rule: RightRule<U8SliceTerminal, MplgVariable>,
    uppercase_a_to_f5_rule: RightRule<U8SliceTerminal, MplgVariable>,
    uppercase_a_to_f6_rule: RightRule<U8SliceTerminal, MplgVariable>,
    uppercase_rule: RightRule<U8SliceTerminal, MplgVariable>,
    uppercase1_rule: RightRule<U8SliceTerminal, MplgVariable>,
    uppercase2_rule: RightRule<U8SliceTerminal, MplgVariable>,
    uppercase3_rule: RightRule<U8SliceTerminal, MplgVariable>,
    uppercase4_rule: RightRule<U8SliceTerminal, MplgVariable>,
    uppercase5_rule: RightRule<U8SliceTerminal, MplgVariable>,
    uppercase6_rule: RightRule<U8SliceTerminal, MplgVariable>,
    uppercase7_rule: RightRule<U8SliceTerminal, MplgVariable>,
    uppercase8_rule: RightRule<U8SliceTerminal, MplgVariable>,
    uppercase9_rule: RightRule<U8SliceTerminal, MplgVariable>,
    uppercase10_rule: RightRule<U8SliceTerminal, MplgVariable>,
    uppercase11_rule: RightRule<U8SliceTerminal, MplgVariable>,
    uppercase12_rule: RightRule<U8SliceTerminal, MplgVariable>,
    uppercase13_rule: RightRule<U8SliceTerminal, MplgVariable>,
    uppercase14_rule: RightRule<U8SliceTerminal, MplgVariable>,
    uppercase15_rule: RightRule<U8SliceTerminal, MplgVariable>,
    uppercase16_rule: RightRule<U8SliceTerminal, MplgVariable>,
    uppercase17_rule: RightRule<U8SliceTerminal, MplgVariable>,
    uppercase18_rule: RightRule<U8SliceTerminal, MplgVariable>,
    uppercase19_rule: RightRule<U8SliceTerminal, MplgVariable>,
    uppercase20_rule: RightRule<U8SliceTerminal, MplgVariable>,
    quote_escape_rule: RightRule<U8SliceTerminal, MplgVariable>,
    end_of_line_rule: RightRule<U8SliceTerminal, MplgVariable>,
    space_rule: RightRule<U8SliceTerminal, MplgVariable>,
    bin_digit_rule: RightRule<U8SliceTerminal, MplgVariable>,
    oct_digit_rule: RightRule<U8SliceTerminal, MplgVariable>,
    oct_digit1_rule: RightRule<U8SliceTerminal, MplgVariable>,
    oct_digit2_rule: RightRule<U8SliceTerminal, MplgVariable>,
    oct_digit3_rule: RightRule<U8SliceTerminal, MplgVariable>,
    oct_digit4_rule: RightRule<U8SliceTerminal, MplgVariable>,
    oct_digit5_rule: RightRule<U8SliceTerminal, MplgVariable>,
    oct_digit6_rule: RightRule<U8SliceTerminal, MplgVariable>,
    dec_digit_rule: RightRule<U8SliceTerminal, MplgVariable>,
    dec_digit1_rule: RightRule<U8SliceTerminal, MplgVariable>,
    dec_digit2_rule: RightRule<U8SliceTerminal, MplgVariable>,
    line_comment_rule: RightRule<U8SliceTerminal, MplgVariable>,
    inner_line_comment_rule: RightRule<U8SliceTerminal, MplgVariable>,
    any_except_l_f_rule: RightRule<U8SliceTerminal, MplgVariable>,
    any_except_l_f1_rule: RightRule<U8SliceTerminal, MplgVariable>,
}

impl MplgRules {
    /// Builds the table: the canonical bootstrap grammar, rule for rule as
    /// [`spec_mplg_rule`] writes it out.  Every variable has a rule, and no
    /// rule holds the internal `Omit` marker.
    #[verifier::rlimit(100)]
    pub fn new() -> (r: MplgRules)
        ensures
            mplg_table(&r),
            forall|v: MplgVariable| (#[trigger] r.rule_of(v)) is Some,
            rules_no_omit::<U8SliceTerminal, MplgVariable, MplgRules>(&r),
    {
        let r = MplgRules {
            mplg_rule: RightRule::from_right_rule_kind(
                (RightRuleKind::V(MplgVariable::ZeroOrMoreLines),
                    RightRuleKind::Empty),
                RightRuleKind::Failure,
            ),
            zero_or_more_lines_rule: RightRule::from_right_rule_kind(
                (RightRuleKind::V(MplgVariable::Line),
                    RightRuleKind::V(MplgVariable::ZeroOrMoreLines)),
                RightRuleKind::Empty,
            ),
            line_rule: RightRule::from_right_rule_kind(
                (RightRuleKind::V(MplgVariable::Line1),
                    RightRuleKind::V(MplgVariable::EndOfLine)),
                RightRuleKind::Failure,
            ),
            line1_rule: RightRule::from_right_rule_kind(
                (RightRuleKind::V(MplgVariable::LineComment),
                    RightRuleKind::Empty),
                RightRuleKind::V(MplgVariable::Line2),
            ),
            line2_rule: RightRule::from_right_rule_kind(
                (RightRuleKind::V(MplgVariable::Rule),
                    RightRuleKind::Empty),
                RightRuleKind::Empty,
            ),
            rule_rule: RightRule::from_right_rule_kind(
                (RightRuleKind::V(MplgVariable::Variable),
                    RightRuleKind::V(MplgVariable::Rule1)),
                RightRuleKind::Failure,
            ),
            rule1_rule: RightRule::from_right_rule_kind(
                (RightRuleKind::T(U8SliceTerminal::Str(" = ".to_owned())),
                    RightRuleKind::V(MplgVariable::Rule2)),
                RightRuleKind::Failure,
            ),
            rule2_rule: RightRule::from_right_rule_kind(
                (RightRuleKind::V(MplgVariable::E),
                    RightRuleKind::V(MplgVariable::Rule3)),
                RightRuleKind::Failure,
            ),
            rule3_rule: RightRule::from_right_rule_kind(
                (RightRuleKind::V(MplgVariable::Space),
                    RightRuleKind::V(MplgVariable::Rule4)),
                RightRuleKind::Failure,
            ),
            rule4_rule: RightRule::from_right_rule_kind(
                (RightRuleKind::V(MplgVariable::E),
                    RightRuleKind::V(MplgVariable::Rule5)),
                RightRuleKind::Failure,
            ),
            rule5_rule: RightRule::from_right_rule_kind(
                (RightRuleKind::T(U8SliceTerminal::Str(" / ".to_owned())),
                    RightRuleKind::V(MplgVariable::Rule6)),
                RightRuleKind::Failure,
            ),
            rule6_rule: RightRule::from_right_rule_kind(
                (RightRuleKind::V(MplgVariable::E),
                    RightRuleKind::Empty),
                RightRuleKind::Failure,
            ),
            e_rule: RightRule::from_right_rule_kind(
                (RightRuleKind::V(MplgVariable::TerminalSymbol),
                    RightRuleKind::Empty),
                RightRuleKind::V(MplgVariable::Variable),
            ),
            variable_rule: RightRule::from_right_rule_kind(
                (RightRuleKind::V(MplgVariable::Identifier),
                    RightRuleKind::Empty),
                RightRuleKind::Failure,
            ),
            terminal_symbol_rule: RightRule::from_right_rule_kind(
                (RightRuleKind::V(MplgVariable::MetasymbolLiteral),
                    RightRuleKind::Empty),
                RightRuleKind::V(MplgVariable::OriginalSymbolExpr),
            ),
            expr_rule: RightRule::from_right_rule_kind(
                (RightRuleKind::V(MplgVariable::ExprWithoutBlock),
                    RightRuleKind::Empty),
                RightRuleKind::Failure,
            ),
            expr_without_block_rule: RightRule::from_right_rule_kind(
                (RightRuleKind::V(MplgVariable::LiteralExpr),
                    RightRuleKind::Empty),
                RightRuleKind::V(MplgVariable::ExprWithoutBlock1),
            ),
            expr_without_block1_rule: RightRule::from_right_rule_kind(
                (RightRuleKind::V(MplgVariable::StructExpr),
                    RightRuleKind::Empty),
                RightRuleKind::Failure,
            ),
            struct_expr_rule: RightRule::from_right_rule_kind(
                (RightRuleKind::V(MplgVariable::StructExprStruct),
                    RightRuleKind::Empty),
                RightRuleKind::V(MplgVariable::StructExpr1),
            ),
            struct_expr1_rule: RightRule::from_right_rule_kind(
                (RightRuleKind::V(MplgVariable::StructExprTuple),
                    RightRuleKind::Empty),
                RightRuleKind::V(MplgVariable::StructExprUnit),
            ),
            struct_expr_struct_rule: RightRule::from_right_rule_kind(
                (RightRuleKind::Failure,
                    RightRuleKind::Failure),
                RightRuleKind::Failure,
            ),
            struct_expr_tuple_rule: RightRule::from_right_rule_kind(
                (RightRuleKind::V(MplgVariable::PathInExpr),
                    RightRuleKind::V(MplgVariable::StructExprTuple1)),
                RightRuleKind::Failure,
            ),
            struct_expr_tuple1_rule: RightRule::from_right_rule_kind(
                (RightRuleKind::T(U8SliceTerminal::Char('(')),
                    RightRuleKind::V(MplgVariable::StructExprTuple2)),
                RightRuleKind::Failure,
            ),
            struct_expr_tuple2_rule: RightRule::from_right_rule_kind(
                (RightRuleKind::V(MplgVariable::ZeroOrMoreExpr),
                    RightRuleKind::T(U8SliceTerminal::Char(')'))),
                RightRuleKind::Failure,
            ),
            zero_or_more_expr_rule: RightRule::from_right_rule_kind(
                (RightRuleKind::V(MplgVariable::Expr),
                    RightRuleKind::Empty),
                RightRuleKind::Failure,
            ),
            struct_expr_unit_rule: RightRule::from_right_rule_kind(
                (RightRuleKind::V(MplgVariable::PathInExpr),
                    RightRuleKind::Empty),
                RightRuleKind::Failure,
            ),
            path_in_expr_rule: RightRule::from_right_rule_kind(
                (RightRuleKind::V(MplgVariable::ZeroOrOneDoubleColon),
                    RightRuleKind::V(MplgVariable::OneOrMorePathExprSegment)),
                RightRuleKind::Failure,
            ),
            zero_or_one_double_colon_rule: RightRule::from_right_rule_kind(
                (RightRuleKind::T(U8SliceTerminal::Str("::".to_owned())),
                    RightRuleKind::Empty),
                RightRuleKind::Empty,
            ),
            one_or_more_path_expr_segment_rule: RightRule::from_right_rule_kind(
                (RightRuleKind::V(MplgVariable::PathExprSegment),
                    RightRuleKind::Empty),
                RightRuleKind::Failure,
            ),
            path_expr_segment_rule: RightRule::from_right_rule_kind(
                (RightRuleKind::V(MplgVariable::PathIdentSegment),
                    RightRuleKind::V(MplgVariable::PathExprSegment1)),
                RightRuleKind::Failure,
            ),
            path_expr_segment1_rule: RightRule::from_right_rule_kind(
                (RightRuleKind::T(U8SliceTerminal::Str("::".to_owned())),
                    RightRuleKind::V(MplgVariable::GenericArgs)),
                RightRuleKind::Empty,
            ),
            path_ident_segment_rule: RightRule::from_right_rule_kind(
                (RightRuleKind::V(MplgVariable::Identifier),
                    RightRuleKind::Empty),
                RightRuleKind::Failure,
            ),
            generic_args_rule: RightRule::from_right_rule_kind(
                (RightRuleKind::Failure,
                    RightRuleKind::Failure),
                RightRuleKind::Failure,
            ),
            literal_expr_rule: RightRule::from_right_rule_kind(
                (RightRuleKind::V(MplgVariable::CharLiteral),
                    RightRuleKind::Empty),
                RightRuleKind::V(MplgVariable::LiteralExpr1),
            ),
            literal_expr1_rule: RightRule::from_right_rule_kind(
                (RightRuleKind::V(MplgVariable::StringLiteral),
                    RightRuleKind::Empty),
                RightRuleKind::V(MplgVariable::LiteralExpr2),
            ),
            literal_expr2_rule: RightRule::from_right_rule_kind(
                (RightRuleKind::V(MplgVariable::IntegerLiteral),
                    RightRuleKind::Empty),
                RightRuleKind::Failure,
            ),
            metasymbol_literal_rule: RightRule::from_right_rule_kind(
                (RightRuleKind::V(MplgVariable::EmptyLiteral),
                    RightRuleKind::Empty),
                RightRuleKind::V(MplgVariable::MetasymbolLiteral1),
            ),
            metasymbol_literal1_rule: RightRule::from_right_rule_kind(
                (RightRuleKind::V(MplgVariable::FailureLiteral),
                    RightRuleKind::Empty),
                RightRuleKind::V(MplgVariable::MetasymbolLiteral2),
            ),
            metasymbol_literal2_rule: RightRule::from_right_rule_kind(
                (RightRuleKind::V(MplgVariable::AnyLiteral),
                    RightRuleKind::Empty),
                RightRuleKind::V(MplgVariable::MetasymbolLiteral3),
            ),
            metasymbol_literal3_rule: RightRule::from_right_rule_kind(
                (RightRuleKind::V(MplgVariable::AllLiteral),
                    RightRuleKind::Empty),
                RightRuleKind::Failure,
            ),
            empty_rule: RightRule::from_right_rule_kind(
                (RightRuleKind::T(U8SliceTerminal::Str("()".to_owned())),
                    RightRuleKind::Empty),
                RightRuleKind::Failure,
            ),
            failure_literal_rule: RightRule::from_right_rule_kind(
                (RightRuleKind::T(U8SliceTerminal::Char('f')),
                    RightRuleKind::Empty),
                RightRuleKind::Failure,
            ),
            any_literal_rule: RightRule::from_right_rule_kind(
                (RightRuleKind::T(U8SliceTerminal::Char('?')),
                    RightRuleKind::V(MplgVariable::ZeroOrMoreAny)),
                RightRuleKind::Failure,
            ),
            zero_or_more_any_rule: RightRule::from_right_rule_kind(
                (RightRuleKind::T(U8SliceTerminal::Char('?')),
                    RightRuleKind::V(MplgVariable::ZeroOrMoreAny)),
                RightRuleKind::Empty,
            ),
            all_literal_rule: RightRule::from_right_rule_kind(
                (RightRuleKind::T(U8SliceTerminal::Char('*')),
                    RightRuleKind::Empty),
                RightRuleKind::Failure,
            ),
            original_symbol_expr_rule: RightRule::from_right_rule_kind(
                (RightRuleKind::T(U8SliceTerminal::Str("{ ".to_owned())),
                    RightRuleKind::V(MplgVariable::OriginalSymbolExpr1)),
                RightRuleKind::V(MplgVariable::LiteralExpr),
            ),
            original_symbol_expr1_rule: RightRule::from_right_rule_kind(
                (RightRuleKind::V(MplgVariable::ExprWithoutBlock),
                    RightRuleKind::T(U8SliceTerminal::Str(" }".to_owned()))),
                RightRuleKind::Failure,
            ),
            char_literal_rule: RightRule::from_right_rule_kind(
                (RightRuleKind::T(U8SliceTerminal::Char('\'')),
                    RightRuleKind::V(MplgVariable::CharLiteral1)),
                RightRuleKind::Failure,
            ),
            char_literal1_rule: RightRule::from_right_rule_kind(
                (RightRuleKind::V(MplgVariable::InnerCharLiteral),
                    RightRuleKind::T(U8SliceTerminal::Char('\''))),
                RightRuleKind::Failure,
            ),
            inner_char_literal_rule: RightRule::from_right_rule_kind(
                (RightRuleKind::V(MplgVariable::NotCharLetter),
                    RightRuleKind::V(MplgVariable::InnerCharLiteral1)),
                RightRuleKind::Failure,
            ),
            not_char_letter_rule: RightRule::from_right_rule_kind(
                (RightRuleKind::T(U8SliceTerminal::Char('\'')),
                    RightRuleKind::All),
                RightRuleKind::Empty,
            ),
            inner_char_literal1_rule: RightRule::from_right_rule_kind(
                (RightRuleKind::V(MplgVariable::QuoteEscape),
                    RightRuleKind::Empty),
                RightRuleKind::Any(1),
            ),
            string_literal_rule: RightRule::from_right_rule_kind(
                (RightRuleKind::T(U8SliceTerminal::Char('"')),
                    RightRuleKind::V(MplgVariable::StringLiteral1)),
                RightRuleKind::Failure,
            ),
            string_literal1_rule: RightRule::from_right_rule_kind(
                (RightRuleKind::V(MplgVariable::InnerStringLiteral),
                    RightRuleKind::T(U8SliceTerminal::Char('"'))),
                RightRuleKind::Failure,
            ),
            inner_string_literal_rule: RightRule::from_right_rule_kind(
                (RightRuleKind::V(MplgVariable::InnerStringLiteralLetter),
                    RightRuleKind::V(MplgVariable::InnerStringLiteral)),
                RightRuleKind::Empty,
            ),
            inner_string_literal_letter_rule: RightRule::from_right_rule_kind(
                (RightRuleKind::V(MplgVariable::NotStringLetter),
                    RightRuleKind::V(MplgVariable::InnerStringLiteral1Letter1)),
                RightRuleKind::Failure,
            ),
            not_string_letter_rule: RightRule::from_right_rule_kind(
                (RightRuleKind::T(U8SliceTerminal::Char('"')),
                    RightRuleKind::All),
                RightRuleKind::Empty,
            ),
            inner_string_literal_letter1_rule: RightRule::from_right_rule_kind(
                (RightRuleKind::V(MplgVariable::QuoteEscape),
                    RightRuleKind::Empty),
                RightRuleKind::Any(1),
            ),
            integer_literal_rule: RightRule::from_right_rule_kind(
                (RightRuleKind::V(MplgVariable::IntegerLiterals),
                    RightRuleKind::Empty),
                RightRuleKind::Failure,
            ),
            integer_literals_rule: RightRule::from_right_rule_kind(
                (RightRuleKind::V(MplgVariable::DecLiteral),
                    RightRuleKind::Empty),
                RightRuleKind::Failure,
            ),
            dec_literal_rule: RightRule::from_right_rule_kind(
                (RightRuleKind::V(MplgVariable::DecDigit),
                    RightRuleKind::V(MplgVariable::ZeroOrMoreDecDigit)),
                RightRuleKind::Failure,
            ),
            zero_or_more_dec_digit_rule: RightRule::from_right_rule_kind(
                (RightRuleKind::V(MplgVariable::DecDigitOrUnderscore),
                    RightRuleKind::V(MplgVariable::ZeroOrMoreDecDigit)),
                RightRuleKind::Empty,
            ),
            dec_digit_or_underscore_rule: RightRule::from_right_rule_kind(
                (RightRuleKind::V(MplgVariable::DecDigit),
                    RightRuleKind::Empty),
                RightRuleKind::T(U8SliceTerminal::Char('_')),
            ),
            identifier_rule: RightRule::from_right_rule_kind(
                (RightRuleKind::V(MplgVariable::Uppercase),
                    RightRuleKind::V(MplgVariable::ZeroOrMoreIdentifierContinue)),
                RightRuleKind::Failure,
            ),
            zero_or_more_identifier_continue_rule: RightRule::from_right_rule_kind(
                (RightRuleKind::V(MplgVariable::IdentifierContinue),
                    RightRuleKind::V(MplgVariable::ZeroOrMoreIdentifierContinue)),
                RightRuleKind::Empty,
            ),
            identifier_continue_rule: RightRule::from_right_rule_kind(
                (RightRuleKind::V(MplgVariable::Alphabet),
                    RightRuleKind::Empty),
                RightRuleKind::V(MplgVariable::DecDigit),
            ),
            alphabet_rule: RightRule::from_right_rule_kind(
                (RightRuleKind::V(MplgVariable::Lowercase),
                    RightRuleKind::Empty),
                RightRuleKind::V(MplgVariable::Uppercase),
            ),
            lowercase_a_to_f_rule: RightRule::from_right_rule_kind(
                (RightRuleKind::V(MplgVariable::LowercaseAToF1),
                    RightRuleKind::Empty),
                RightRuleKind::Failure,
            ),
            lowercase_a_to_f1_rule: RightRule::from_right_rule_kind(
                (RightRuleKind::T(U8SliceTerminal::Char('a')),
                    RightRuleKind::Empty),
                RightRuleKind::V(MplgVariable::LowercaseAToF2),
            ),
            lowercase_a_to_f2_rule: RightRule::from_right_rule_kind(
                (RightRuleKind::T(U8SliceTerminal::Char('b')),
                    RightRuleKind::Empty),
                RightRuleKind::V(MplgVariable::LowercaseAToF3),
            ),
            lowercase_a_to_f3_rule: RightRule::from_right_rule_kind(
                (RightRuleKind::T(U8SliceTerminal::Char('c')),
                    RightRuleKind::Empty),
                RightRuleKind::V(MplgVariable::LowercaseAToF4),
            ),
            lowercase_a_to_f4_rule: RightRule::from_right_rule_kind(
                (RightRuleKind::T(U8SliceTerminal::Char('d')),
                    RightRuleKind::Empty),
                RightRuleKind::V(MplgVariable::LowercaseAToF5),
            ),
            lowercase_a_to_f5_rule: RightRule::from_right_rule_kind(
                (RightRuleKind::T(U8SliceTerminal::Char('e')),
                    RightRuleKind::Empty),
                RightRuleKind::V(MplgVariable::LowercaseAToF6),
            ),
            lowercase_a_to_f6_rule: RightRule::from_right_rule_kind(
                (RightRuleKind::T(U8SliceTerminal::Char('f')),
                    RightRuleKind::Empty),
                RightRuleKind::Failure,
            ),
            lowercase_rule: RightRule::from_right_rule_kind(
                (RightRuleKind::V(MplgVariable::LowercaseAToF),
                    RightRuleKind::Empty),
                RightRuleKind::V(MplgVariable::Lowercase1),
            ),
            lowercase1_rule: RightRule::from_right_rule_kind(
                (RightRuleKind::T(U8SliceTerminal::Char('g')),
                    RightRuleKind::Empty),
                RightRuleKind::V(MplgVariable::Lowercase2),
            ),
            lowercase2_rule: RightRule::from_right_rule_kind(
                (RightRuleKind::T(U8SliceTerminal::Char('h')),
                    RightRuleKind::Empty),
                RightRuleKind::V(MplgVariable::Lowercase3),
            ),
            lowercase3_rule: RightRule::from_right_rule_kind(
                (RightRuleKind::T(U8SliceTerminal::Char('i')),
                    RightRuleKind::Empty),
                RightRuleKind::V(MplgVariable::Lowercase4),
            ),
            lowercase4_rule: RightRule::from_right_rule_kind(
                (RightRuleKind::T(U8SliceTerminal::Char('j')),
                    RightRuleKind::Empty),
                RightRuleKind::V(MplgVariable::Lowercase5),
            ),
            lowercase5_rule: RightRule::from_right_rule_kind(
                (RightRuleKind::T(U8SliceTerminal::Char('k')),
                    RightRuleKind::Empty),
                RightRuleKind::V(MplgVariable::Lowercase6),
            ),
            lowercase6_rule: RightRule::from_right_rule_kind(
                (RightRuleKind::T(U8SliceTerminal::Char('l')),
                    RightRuleKind::Empty),
                RightRuleKind::V(MplgVariable::Lowercase7),
            ),
            lowercase7_rule: RightRule::from_right_rule_kind(
                (RightRuleKind::T(U8SliceTerminal::Char('m')),
                    RightRuleKind::Empty),
                RightRuleKind::V(MplgVariable::Lowercase8),
            ),
            lowercase8_rule: RightRule::from_right_rule_kind(
                (RightRuleKind::T(U8SliceTerminal::Char('n')),
                    RightRuleKind::Empty),
                RightRuleKind::V(MplgVariable::Lowercase9),
            ),
            lowercase9_rule: RightRule::from_right_rule_kind(
                (RightRuleKind::T(U8SliceTerminal::Char('o')),
                    RightRuleKind::Empty),
                RightRuleKind::V(MplgVariable::Lowercase10),
            ),
            lowercase10_rule: RightRule::from_right_rule_kind(
                (RightRuleKind::T(U8SliceTerminal::Char('p')),
                    RightRuleKind::Empty),
                RightRuleKind::V(MplgVariable::Lowercase11),
            ),
            lowercase11_rule: RightRule::from_right_rule_kind(
                (RightRuleKind::T(U8SliceTerminal::Char('q')),
                    RightRuleKind::Empty),
                RightRuleKind::V(MplgVariable::Lowercase12),
            ),
            lowercase12_rule: RightRule::from_right_rule_kind(
                (RightRuleKind::T(U8SliceTerminal::Char('r')),
                    RightRuleKind::Empty),
                RightRuleKind::V(MplgVariable::Lowercase13),
            ),
            lowercase13_rule: RightRule::from_right_rule_kind(
                (RightRuleKind::T(U8SliceTerminal::Char('s')),
                    RightRuleKind::Empty),
                RightRuleKind::V(MplgVariable::Lowercase14),
            ),
            lowercase14_rule: RightRule::from_right_rule_kind(
                (RightRuleKind::T(U8SliceTerminal::Char('t')),
                    RightRuleKind::Empty),
                RightRuleKind::V(MplgVariable::Lowercase15),
            ),
            lowercase15_rule: RightRule::from_right_rule_kind(
                (RightRuleKind::T(U8SliceTerminal::Char('u')),
                    RightRuleKind::Empty),
                RightRuleKind::V(MplgVariable::Lowercase16),
            ),
            lowercase16_rule: RightRule::from_right_rule_kind(
                (RightRuleKind::T(U8SliceTerminal::Char('v')),
                    RightRuleKind::Empty),
                RightRuleKind::V(MplgVariable::Lowercase17),
            ),
            lowercase17_rule: RightRule::from_right_rule_kind(
                (RightRuleKind::T(U8SliceTerminal::Char('w')),
                    RightRuleKind::Empty),
                RightRuleKind::V(MplgVariable::Lowercase18),
            ),
            lowercase18_rule: RightRule::from_right_rule_kind(
                (RightRuleKind::T(U8SliceTerminal::Char('x')),
                    RightRuleKind::Empty),
                RightRuleKind::V(MplgVariable::Lowercase19),
            ),
            lowercase19_rule: RightRule::from_right_rule_kind(
                (RightRuleKind::T(U8SliceTerminal::Char('y')),
                    RightRuleKind::Empty),
                RightRuleKind::V(MplgVariable::Lowercase20),
            ),
            lowercase20_rule: RightRule::from_right_rule_kind(
                (RightRuleKind::T(U8SliceTerminal::Char('z')),
                    RightRuleKind::Empty),
                RightRuleKind::Failure,
            ),
            uppercase_a_to_f_rule: RightRule::from_right_rule_kind(
                (RightRuleKind::V(MplgVariable::UppercaseAToF1),
                    RightRuleKind::Empty),
                RightRuleKind::Failure,
            ),
            uppercase_a_to_f1_rule: RightRule::from_right_rule_kind(
                (RightRuleKind::T(U8SliceTerminal::Char('A')),
                    RightRuleKind::Empty),
                RightRuleKind::V(MplgVariable::UppercaseAToF2),
            ),
            uppercase_a_to_f2_rule: RightRule::from_right_rule_kind(
                (RightRuleKind::T(U8SliceTerminal::Char('B')),
                    RightRuleKind::Empty),
                RightRuleKind::V(MplgVariable::UppercaseAToF3),
            ),
            uppercase_a_to_f3_rule: RightRule::from_right_rule_kind(
                (RightRuleKind::T(U8SliceTerminal::Char('C')),
                    RightRuleKind::Empty),
                RightRuleKind::V(MplgVariable::UppercaseAToF4),
            ),
            uppercase_a_to_f4_rule: RightRule::from_right_rule_kind(
                (RightRuleKind::T(U8SliceTerminal::Char('D')),
                    RightRuleKind::Empty),
                RightRuleKind::V(MplgVariable::UppercaseAToF5),
            ),
            uppercase_a_to_f5_rule: RightRule::from_right_rule_kind(
                (RightRuleKind::T(U8SliceTerminal::Char('E')),
                    RightRuleKind::Empty),
                RightRuleKind::V(MplgVariable::UppercaseAToF6),
            ),
            uppercase_a_to_f6_rule: RightRule::from_right_rule_kind(
                (RightRuleKind::T(U8SliceTerminal::Char('F')),
                    RightRuleKind::Empty),
                RightRuleKind::Failure,
            ),
            uppercase_rule: RightRule::from_right_rule_kind(
                (RightRuleKind::V(MplgVariable::UppercaseAToF),
                    RightRuleKind::Empty),
                RightRuleKind::V(MplgVariable::Uppercase1),
            ),
            uppercase1_rule: RightRule::from_right_rule_kind(
                (RightRuleKind::T(U8SliceTerminal::Char('G')),
                    RightRuleKind::Empty),
                RightRuleKind::V(MplgVariable::Uppercase2),
            ),
            uppercase2_rule: RightRule::from_right_rule_kind(
                (RightRuleKind::T(U8SliceTerminal::Char('H')),
                    RightRuleKind::Empty),
                RightRuleKind::V(MplgVariable::Uppercase3),
            ),
            uppercase3_rule: RightRule::from_right_rule_kind(
                (RightRuleKind::T(U8SliceTerminal::Char('I')),
                    RightRuleKind::Empty),
                RightRuleKind::V(MplgVariable::Uppercase4),
            ),
            uppercase4_rule: RightRule::from_right_rule_kind(
                (RightRuleKind::T(U8SliceTerminal::Char('J')),
                    RightRuleKind::Empty),
                RightRuleKind::V(MplgVariable::Uppercase5),
            ),
            uppercase5_rule: RightRule::from_right_rule_kind(
                (RightRuleKind::T(U8SliceTerminal::Char('K')),
                    RightRuleKind::Empty),
                RightRuleKind::V(MplgVariable::Uppercase6),
            ),
            uppercase6_rule: RightRule::from_right_rule_kind(
                (RightRuleKind::T(U8SliceTerminal::Char('L')),
                    RightRuleKind::Empty),
                RightRuleKind::V(MplgVariable::Uppercase7),
            ),
            uppercase7_rule: RightRule::from_right_rule_kind(
                (RightRuleKind::T(U8SliceTerminal::Char('M')),
                    RightRuleKind::Empty),
                RightRuleKind::V(MplgVariable::Uppercase8),
            ),
            uppercase8_rule: RightRule::from_right_rule_kind(
                (RightRuleKind::T(U8SliceTerminal::Char('N')),
                    RightRuleKind::Empty),
                RightRuleKind::V(MplgVariable::Uppercase9),
            ),
            uppercase9_rule: RightRule::from_right_rule_kind(
                (RightRuleKind::T(U8SliceTerminal::Char('O')),
                    RightRuleKind::Empty),
                RightRuleKind::V(MplgVariable::Uppercase10),
            ),
            uppercase10_rule: RightRule::from_right_rule_kind(
                (RightRuleKind::T(U8SliceTerminal::Char('P')),
                    RightRuleKind::Empty),
                RightRuleKind::V(MplgVariable::Uppercase11),
            ),
            uppercase11_rule: RightRule::from_right_rule_kind(
                (RightRuleKind::T(U8SliceTerminal::Char('Q')),
                    RightRuleKind::Empty),
                RightRuleKind::V(MplgVariable::Uppercase12),
            ),
            uppercase12_rule: RightRule::from_right_rule_kind(
                (RightRuleKind::T(U8SliceTerminal::Char('R')),
                    RightRuleKind::Empty),
                RightRuleKind::V(MplgVariable::Uppercase13),
            ),
            uppercase13_rule: RightRule::from_right_rule_kind(
                (RightRuleKind::T(U8SliceTerminal::Char('S')),
                    RightRuleKind::Empty),
                RightRuleKind::V(MplgVariable::Uppercase14),
            ),
            uppercase14_rule: RightRule::from_right_rule_kind(
                (RightRuleKind::T(U8SliceTerminal::Char('T')),
                    RightRuleKind::Empty),
                RightRuleKind::V(MplgVariable::Uppercase15),
            ),
            uppercase15_rule: RightRule::from_right_rule_kind(
                (RightRuleKind::T(U8SliceTerminal::Char('U')),
                    RightRuleKind::Empty),
                RightRuleKind::V(MplgVariable::Uppercase16),
            ),
            uppercase16_rule: RightRule::from_right_rule_kind(
                (RightRuleKind::T(U8SliceTerminal::Char('V')),
                    RightRuleKind::Empty),
                RightRuleKind::V(MplgVariable::Uppercase17),
            ),
            uppercase17_rule: RightRule::from_right_rule_kind(
                (RightRuleKind::T(U8SliceTerminal::Char('W')),
                    RightRuleKind::Empty),
                RightRuleKind::V(MplgVariable::Uppercase18),
            ),
            uppercase18_rule: RightRule::from_right_rule_kind(
                (RightRuleKind::T(U8SliceTerminal::Char('X')),
                    RightRuleKind::Empty),
                RightRuleKind::V(MplgVariable::Uppercase19),
            ),
            uppercase19_rule: RightRule::from_right_rule_kind(
                (RightRuleKind::T(U8SliceTerminal::Char('Y')),
                    RightRuleKind::Empty),
                RightRuleKind::V(MplgVariable::Uppercase20),
            ),
            uppercase20_rule: RightRule::from_right_rule_kind(
                (RightRuleKind::T(U8SliceTerminal::Char('Z')),
                    RightRuleKind::Empty),
                RightRuleKind::Failure,
            ),
            quote_escape_rule: RightRule::from_right_rule_kind(
                (RightRuleKind::T(U8SliceTerminal::Str("\\'".to_owned())),
                    RightRuleKind::Empty),
                RightRuleKind::T(U8SliceTerminal::Str("\\\"".to_owned())),
            ),
            end_of_line_rule: RightRule::from_right_rule_kind(
                (RightRuleKind::T(U8SliceTerminal::Char('\n')),
                    RightRuleKind::Empty),
                RightRuleKind::T(U8SliceTerminal::Str("\r\n".to_owned())),
            ),
            space_rule: RightRule::from_right_rule_kind(
                (RightRuleKind::T(U8SliceTerminal::Char(' ')),
                    RightRuleKind::Empty),
                RightRuleKind::Failure,
            ),
            bin_digit_rule: RightRule::from_right_rule_kind(
                (RightRuleKind::T(U8SliceTerminal::Char('0')),
                    RightRuleKind::Empty),
                RightRuleKind::T(U8SliceTerminal::Char('1')),
            ),
            oct_digit_rule: RightRule::from_right_rule_kind(
                (RightRuleKind::V(MplgVariable::BinDigit),
                    RightRuleKind::Empty),
                RightRuleKind::V(MplgVariable::OctDigit1),
            ),
            oct_digit1_rule: RightRule::from_right_rule_kind(
                (RightRuleKind::T(U8SliceTerminal::Char('2')),
                    RightRuleKind::Empty),
                RightRuleKind::V(MplgVariable::OctDigit2),
            ),
            oct_digit2_rule: RightRule::from_right_rule_kind(
                (RightRuleKind::T(U8SliceTerminal::Char('3')),
                    RightRuleKind::Empty),
                RightRuleKind::V(MplgVariable::OctDigit3),
            ),
            oct_digit3_rule: RightRule::from_right_rule_kind(
                (RightRuleKind::T(U8SliceTerminal::Char('4')),
                    RightRuleKind::Empty),
                RightRuleKind::V(MplgVariable::OctDigit4),
            ),
            oct_digit4_rule: RightRule::from_right_rule_kind(
                (RightRuleKind::T(U8SliceTerminal::Char('5')),
                    RightRuleKind::Empty),
                RightRuleKind::V(MplgVariable::OctDigit5),
            ),
            oct_digit5_rule: RightRule::from_right_rule_kind(
                (RightRuleKind::T(U8SliceTerminal::Char('6')),
                    RightRuleKind::Empty),
                RightRuleKind::V(MplgVariable::OctDigit6),
            ),
            oct_digit6_rule: RightRule::from_right_rule_kind(
                (RightRuleKind::T(U8SliceTerminal::Char('7')),
                    RightRuleKind::Empty),
                RightRuleKind::Failure,
            ),
            dec_digit_rule: RightRule::from_right_rule_kind(
                (RightRuleKind::V(MplgVariable::OctDigit),
                    RightRuleKind::Empty),
                RightRuleKind::V(MplgVariable::DecDigit1),
            ),
            dec_digit1_rule: RightRule::from_right_rule_kind(
                (RightRuleKind::T(U8SliceTerminal::Char('8')),
                    RightRuleKind::Empty),
                RightRuleKind::V(MplgVariable::DecDigit2),
            ),
            dec_digit2_rule: RightRule::from_right_rule_kind(
                (RightRuleKind::T(U8SliceTerminal::Char('9')),
                    RightRuleKind::Empty),
                RightRuleKind::Failure,
            ),
            line_comment_rule: RightRule::from_right_rule_kind(
                (RightRuleKind::T(U8SliceTerminal::Str("//".to_owned())),
                    RightRuleKind::V(MplgVariable::InnerLineComment)),
                RightRuleKind::Failure,
            ),
            inner_line_comment_rule: RightRule::from_right_rule_kind(
                (RightRuleKind::V(MplgVariable::AnyExceptLF),
                    RightRuleKind::V(MplgVariable::InnerLineComment)),
                RightRuleKind::Empty,
            ),
            any_except_l_f_rule: RightRule::from_right_rule_kind(
                (RightRuleKind::V(MplgVariable::AnyExceptLF1),
                    RightRuleKind::Any(1)),
                RightRuleKind::Failure,
            ),
            any_except_l_f1_rule: RightRule::from_right_rule_kind(
                (RightRuleKind::V(MplgVariable::EndOfLine),
                    RightRuleKind::All),
                RightRuleKind::Empty,
            ),
        };
        proof {
            assert forall|v: MplgVariable|
                (#[trigger] r.rule_of(v)) matches Some(rule) && rule_no_omit(rule) && rule_view(
                    rule,
                ) == spec_mplg_rule(v) by {
                reveal_with_fuel(crate::rules::spec_e_of_kind, 1);
            }
        }
        r
    }
}

impl Rules<U8SliceTerminal, MplgVariable> for MplgRules {
    closed spec fn rule_of(&self, variable: MplgVariable) -> Option<
        RightRule<U8SliceTerminal, MplgVariable>,
    > {
        match variable {
            MplgVariable::Mplg => Some(self.mplg_rule),
            MplgVariable::ZeroOrMoreLines => Some(self.zero_or_more_lines_rule),
            MplgVariable::Line => Some(self.line_rule),
            MplgVariable::Line1 => Some(self.line1_rule),
            MplgVariable::Line2 => Some(self.line2_rule),
            MplgVariable::Rule => Some(self.rule_rule),
            MplgVariable::Rule1 => Some(self.rule1_rule),
            MplgVariable::Rule2 => Some(self.rule2_rule),
            MplgVariable::Rule3 => Some(self.rule3_rule),
            MplgVariable::Rule4 => Some(self.rule4_rule),
            MplgVariable::Rule5 => Some(self.rule5_rule),
            MplgVariable::Rule6 => Some(self.rule6_rule),
            MplgVariable::E => Some(self.e_rule),
            MplgVariable::Variable => Some(self.variable_rule),
            MplgVariable::TerminalSymbol => Some(self.terminal_symbol_rule),
            MplgVariable::Expr => Some(self.expr_rule),
            MplgVariable::ExprWithoutBlock => Some(self.expr_without_block_rule),
            MplgVariable::ExprWithoutBlock1 => Some(self.expr_without_block1_rule),
            MplgVariable::StructExpr => Some(self.struct_expr_rule),
            MplgVariable::StructExpr1 => Some(self.struct_expr1_rule),
            MplgVariable::StructExprStruct => Some(self.struct_expr_struct_rule),
            MplgVariable::StructExprTuple => Some(self.struct_expr_tuple_rule),
            MplgVariable::StructExprTuple1 => Some(self.struct_expr_tuple1_rule),
            MplgVariable::StructExprTuple2 => Some(self.struct_expr_tuple2_rule),
            MplgVariable::ZeroOrMoreExpr => Some(self.zero_or_more_expr_rule),
            MplgVariable::StructExprUnit => Some(self.struct_expr_unit_rule),
            MplgVariable::PathInExpr => Some(self.path_in_expr_rule),
            MplgVariable::ZeroOrOneDoubleColon => Some(self.zero_or_one_double_colon_rule),
            MplgVariable::OneOrMorePathExprSegment => Some(self.one_or_more_path_expr_segment_rule),
            MplgVariable::PathExprSegment => Some(self.path_expr_segment_rule),
            MplgVariable::PathExprSegment1 => Some(self.path_expr_segment1_rule),
            MplgVariable::PathIdentSegment => Some(self.path_ident_segment_rule),
            MplgVariable::GenericArgs => Some(self.generic_args_rule),
            MplgVariable::LiteralExpr => Some(self.literal_expr_rule),
            MplgVariable::LiteralExpr1 => Some(self.literal_expr1_rule),
            MplgVariable::LiteralExpr2 => Some(self.literal_expr2_rule),
            MplgVariable::MetasymbolLiteral => Some(self.metasymbol_literal_rule),
            MplgVariable::MetasymbolLiteral1 => Some(self.metasymbol_literal1_rule),
            MplgVariable::MetasymbolLiteral2 => Some(self.metasymbol_literal2_rule),
            MplgVariable::MetasymbolLiteral3 => Some(self.metasymbol_literal3_rule),
            MplgVariable::EmptyLiteral => Some(self.empty_rule),
            MplgVariable::FailureLiteral => Some(self.failure_literal_rule),
            MplgVariable::AnyLiteral => Some(self.any_literal_rule),
            MplgVariable::ZeroOrMoreAny => Some(self.zero_or_more_any_rule),
            MplgVariable::AllLiteral => Some(self.all_literal_rule),
            MplgVariable::OriginalSymbolExpr => Some(self.original_symbol_expr_rule),
            MplgVariable::OriginalSymbolExpr1 => Some(self.original_symbol_expr1_rule),
            MplgVariable::CharLiteral => Some(self.char_literal_rule),
            MplgVariable::CharLiteral1 => Some(self.char_literal1_rule),
            MplgVariable::InnerCharLiteral => Some(self.inner_char_literal_rule),
            MplgVariable::NotCharLetter => Some(self.not_char_letter_rule),
            MplgVariable::InnerCharLiteral1 => Some(self.inner_char_literal1_rule),
            MplgVariable::StringLiteral => Some(self.string_literal_rule),
            MplgVariable::StringLiteral1 => Some(self.string_literal1_rule),
            MplgVariable::InnerStringLiteral => Some(self.inner_string_literal_rule),
            MplgVariable::InnerStringLiteralLetter => Some(self.inner_string_literal_letter_rule),
            MplgVariable::NotStringLetter => Some(self.not_string_letter_rule),
            MplgVariable::InnerStringLiteral1Letter1 => Some(self.inner_string_literal_letter1_rule),
            MplgVariable::IntegerLiteral => Some(self.integer_literal_rule),
            MplgVariable::IntegerLiterals => Some(self.integer_literals_rule),
            MplgVariable::DecLiteral => Some(self.dec_literal_rule),
            MplgVariable::ZeroOrMoreDecDigit => Some(self.zero_or_more_dec_digit_rule),
            MplgVariable::DecDigitOrUnderscore => Some(self.dec_digit_or_underscore_rule),
            MplgVariable::Identifier => Some(self.identifier_rule),
            MplgVariable::ZeroOrMoreIdentifierContinue => Some(self.zero_or_more_identifier_continue_rule),
            MplgVariable::IdentifierContinue => Some(self.identifier_continue_rule),
            MplgVariable::Alphabet => Some(self.alphabet_rule),
            MplgVariable::LowercaseAToF => Some(self.lowercase_a_to_f_rule),
            MplgVariable::LowercaseAToF1 => Some(self.lowercase_a_to_f1_rule),
            MplgVariable::LowercaseAToF2 => Some(self.lowercase_a_to_f2_rule),
            MplgVariable::LowercaseAToF3 => Some(self.lowercase_a_to_f3_rule),
            MplgVariable::LowercaseAToF4 => Some(self.lowercase_a_to_f4_rule),
            MplgVariable::LowercaseAToF5 => Some(self.lowercase_a_to_f5_rule),
            MplgVariable::LowercaseAToF6 => Some(self.lowercase_a_to_f6_rule),
            MplgVariable::Lowercase => Some(self.lowercase_rule),
            MplgVariable::Lowercase1 => Some(self.lowercase1_rule),
            MplgVariable::Lowercase2 => Some(self.lowercase2_rule),
            MplgVariable::Lowercase3 => Some(self.lowercase3_rule),
            MplgVariable::Lowercase4 => Some(self.lowercase4_rule),
            MplgVariable::Lowercase5 => Some(self.lowercase5_rule),
            MplgVariable::Lowercase6 => Some(self.lowercase6_rule),
            MplgVariable::Lowercase7 => Some(self.lowercase7_rule),
            MplgVariable::Lowercase8 => Some(self.lowercase8_rule),
            MplgVariable::Lowercase9 => Some(self.lowercase9_rule),
            MplgVariable::Lowercase10 => Some(self.lowercase10_rule),
            MplgVariable::Lowercase11 => Some(self.lowercase11_rule),
            MplgVariable::Lowercase12 => Some(self.lowercase12_rule),
            MplgVariable::Lowercase13 => Some(self.lowercase13_rule),
            MplgVariable::Lowercase14 => Some(self.lowercase14_rule),
            MplgVariable::Lowercase15 => Some(self.lowercase15_rule),
            MplgVariable::Lowercase16 => Some(self.lowercase16_rule),
            MplgVariable::Lowercase17 => Some(self.lowercase17_rule),
            MplgVariable::Lowercase18 => Some(self.lowercase18_rule),
            MplgVariable::Lowercase19 => Some(self.lowercase19_rule),
            MplgVariable::Lowercase20 => Some(self.lowercase20_rule),
            MplgVariable::UppercaseAToF => Some(self.uppercase_a_to_f_rule),
            MplgVariable::UppercaseAToF1 => Some(self.uppercase_a_to_f1_rule),
            MplgVariable::UppercaseAToF2 => Some(self.uppercase_a_to_f2_rule),
            MplgVariable::UppercaseAToF3 => Some(self.uppercase_a_to_f3_rule),
            MplgVariable::UppercaseAToF4 => Some(self.uppercase_a_to_f4_rule),
            MplgVariable::UppercaseAToF5 => Some(self.uppercase_a_to_f5_rule),
            MplgVariable::UppercaseAToF6 => Some(self.uppercase_a_to_f6_rule),
            MplgVariable::Uppercase => Some(self.uppercase_rule),
            MplgVariable::Uppercase1 => Some(self.uppercase1_rule),
            MplgVariable::Uppercase2 => Some(self.uppercase2_rule),
            MplgVariable::Uppercase3 => Some(self.uppercase3_rule),
            MplgVariable::Uppercase4 => Some(self.uppercase4_rule),
            MplgVariable::Uppercase5 => Some(self.uppercase5_rule),
            MplgVariable::Uppercase6 => Some(self.uppercase6_rule),
            MplgVariable::Uppercase7 => Some(self.uppercase7_rule),
            MplgVariable::Uppercase8 => Some(self.uppercase8_rule),
            MplgVariable::Uppercase9 => Some(self.uppercase9_rule),
            MplgVariable::Uppercase10 => Some(self.uppercase10_rule),
            MplgVariable::Uppercase11 => Some(self.uppercase11_rule),
            MplgVariable::Uppercase12 => Some(self.uppercase12_rule),
            MplgVariable::Uppercase13 => Some(self.uppercase13_rule),
            MplgVariable::Uppercase14 => Some(self.uppercase14_rule),
            MplgVariable::Uppercase15 => Some(self.uppercase15_rule),
            MplgVariable::Uppercase16 => Some(self.uppercase16_rule),
            MplgVariable::Uppercase17 => Some(self.uppercase17_rule),
            MplgVariable::Uppercase18 => Some(self.uppercase18_rule),
            MplgVariable::Uppercase19 => Some(self.uppercase19_rule),
            MplgVariable::Uppercase20 => Some(self.uppercase20_rule),
            MplgVariable::QuoteEscape => Some(self.quote_escape_rule),
            MplgVariable::EndOfLine => Some(self.end_of_line_rule),
            MplgVariable::Space => Some(self.space_rule),
            MplgVariable::BinDigit => Some(self.bin_digit_rule),
            MplgVariable::OctDigit => Some(self.oct_digit_rule),
            MplgVariable::OctDigit1 => Some(self.oct_digit1_rule),
            MplgVariable::OctDigit2 => Some(self.oct_digit2_rule),
            MplgVariable::OctDigit3 => Some(self.oct_digit3_rule),
            MplgVariable::OctDigit4 => Some(self.oct_digit4_rule),
            MplgVariable::OctDigit5 => Some(self.oct_digit5_rule),
            MplgVariable::OctDigit6 => Some(self.oct_digit6_rule),
            MplgVariable::DecDigit => Some(self.dec_digit_rule),
            MplgVariable::DecDigit1 => Some(self.dec_digit1_rule),
            MplgVariable::DecDigit2 => Some(self.dec_digit2_rule),
            MplgVariable::LineComment => Some(self.line_comment_rule),
            MplgVariable::InnerLineComment => Some(self.inner_line_comment_rule),
            MplgVariable::AnyExceptLF => Some(self.any_except_l_f_rule),
            MplgVariable::AnyExceptLF1 => Some(self.any_except_l_f1_rule),
        }
    }

    closed spec fn spec_rule_count(&self) -> int {
        141
    }

    fn get(&self, variable: &MplgVariable) -> (res: Option<&RightRule<U8SliceTerminal, MplgVariable>>) {
        match variable {
            MplgVariable::Mplg => Some(&self.mplg_rule),
            MplgVariable::ZeroOrMoreLines => Some(&self.zero_or_more_lines_rule),
            MplgVariable::Line => Some(&self.line_rule),
            MplgVariable::Line1 => Some(&self.line1_rule),
            MplgVariable::Line2 => Some(&self.line2_rule),
            MplgVariable::Rule => Some(&self.rule_rule),
            MplgVariable::Rule1 => Some(&self.rule1_rule),
            MplgVariable::Rule2 => Some(&self.rule2_rule),
            MplgVariable::Rule3 => Some(&self.rule3_rule),
            MplgVariable::Rule4 => Some(&self.rule4_rule),
            MplgVariable::Rule5 => Some(&self.rule5_rule),
            MplgVariable::Rule6 => Some(&self.rule6_rule),
            MplgVariable::E => Some(&self.e_rule),
            MplgVariable::Variable => Some(&self.variable_rule),
            MplgVariable::TerminalSymbol => Some(&self.terminal_symbol_rule),
            MplgVariable::Expr => Some(&self.expr_rule),
            MplgVariable::ExprWithoutBlock => Some(&self.expr_without_block_rule),
            MplgVariable::ExprWithoutBlock1 => Some(&self.expr_without_block1_rule),
            MplgVariable::StructExpr => Some(&self.struct_expr_rule),
            MplgVariable::StructExpr1 => Some(&self.struct_expr1_rule),
            MplgVariable::StructExprStruct => Some(&self.struct_expr_struct_rule),
            MplgVariable::StructExprTuple => Some(&self.struct_expr_tuple_rule),
            MplgVariable::StructExprTuple1 => Some(&self.struct_expr_tuple1_rule),
            MplgVariable::StructExprTuple2 => Some(&self.struct_expr_tuple2_rule),
            MplgVariable::ZeroOrMoreExpr => Some(&self.zero_or_more_expr_rule),
            MplgVariable::StructExprUnit => Some(&self.struct_expr_unit_rule),
            MplgVariable::PathInExpr => Some(&self.path_in_expr_rule),
            MplgVariable::ZeroOrOneDoubleColon => Some(&self.zero_or_one_double_colon_rule),
            MplgVariable::OneOrMorePathExprSegment => Some(&self.one_or_more_path_expr_segment_rule),
            MplgVariable::PathExprSegment => Some(&self.path_expr_segment_rule),
            MplgVariable::PathExprSegment1 => Some(&self.path_expr_segment1_rule),
            MplgVariable::PathIdentSegment => Some(&self.path_ident_segment_rule),
            MplgVariable::GenericArgs => Some(&self.generic_args_rule),
            MplgVariable::LiteralExpr => Some(&self.literal_expr_rule),
            MplgVariable::LiteralExpr1 => Some(&self.literal_expr1_rule),
            MplgVariable::LiteralExpr2 => Some(&self.literal_expr2_rule),
            MplgVariable::MetasymbolLiteral => Some(&self.metasymbol_literal_rule),
            MplgVariable::MetasymbolLiteral1 => Some(&self.metasymbol_literal1_rule),
            MplgVariable::MetasymbolLiteral2 => Some(&self.metasymbol_literal2_rule),
            MplgVariable::MetasymbolLiteral3 => Some(&self.metasymbol_literal3_rule),
            MplgVariable::EmptyLiteral => Some(&self.empty_rule),
            MplgVariable::FailureLiteral => Some(&self.failure_literal_rule),
            MplgVariable::AnyLiteral => Some(&self.any_literal_rule),
            MplgVariable::ZeroOrMoreAny => Some(&self.zero_or_more_any_rule),
            MplgVariable::AllLiteral => Some(&self.all_literal_rule),
            MplgVariable::OriginalSymbolExpr => Some(&self.original_symbol_expr_rule),
            MplgVariable::OriginalSymbolExpr1 => Some(&self.original_symbol_expr1_rule),
            MplgVariable::CharLiteral => Some(&self.char_literal_rule),
            MplgVariable::CharLiteral1 => Some(&self.char_literal1_rule),
            MplgVariable::InnerCharLiteral => Some(&self.inner_char_literal_rule),
            MplgVariable::NotCharLetter => Some(&self.not_char_letter_rule),
            MplgVariable::InnerCharLiteral1 => Some(&self.inner_char_literal1_rule),
            MplgVariable::StringLiteral => Some(&self.string_literal_rule),
            MplgVariable::StringLiteral1 => Some(&self.string_literal1_rule),
            MplgVariable::InnerStringLiteral => Some(&self.inner_string_literal_rule),
            MplgVariable::InnerStringLiteralLetter => Some(&self.inner_string_literal_letter_rule),
            MplgVariable::NotStringLetter => Some(&self.not_string_letter_rule),
            MplgVariable::InnerStringLiteral1Letter1 => Some(&self.inner_string_literal_letter1_rule),
            MplgVariable::IntegerLiteral => Some(&self.integer_literal_rule),
            MplgVariable::IntegerLiterals => Some(&self.integer_literals_rule),
            MplgVariable::DecLiteral => Some(&self.dec_literal_rule),
            MplgVariable::ZeroOrMoreDecDigit => Some(&self.zero_or_more_dec_digit_rule),
            MplgVariable::DecDigitOrUnderscore => Some(&self.dec_digit_or_underscore_rule),
            MplgVariable::Identifier => Some(&self.identifier_rule),
            MplgVariable::ZeroOrMoreIdentifierContinue => Some(&self.zero_or_more_identifier_continue_rule),
            MplgVariable::IdentifierContinue => Some(&self.identifier_continue_rule),
            MplgVariable::Alphabet => Some(&self.alphabet_rule),
            MplgVariable::LowercaseAToF => Some(&self.lowercase_a_to_f_rule),
            MplgVariable::LowercaseAToF1 => Some(&self.lowercase_a_to_f1_rule),
            MplgVariable::LowercaseAToF2 => Some(&self.lowercase_a_to_f2_rule),
            MplgVariable::LowercaseAToF3 => Some(&self.lowercase_a_to_f3_rule),
            MplgVariable::LowercaseAToF4 => Some(&self.lowercase_a_to_f4_rule),
            MplgVariable::LowercaseAToF5 => Some(&self.lowercase_a_to_f5_rule),
            MplgVariable::LowercaseAToF6 => Some(&self.lowercase_a_to_f6_rule),
            MplgVariable::Lowercase => Some(&self.lowercase_rule),
            MplgVariable::Lowercase1 => Some(&self.lowercase1_rule),
            MplgVariable::Lowercase2 => Some(&self.lowercase2_rule),
            MplgVariable::Lowercase3 => Some(&self.lowercase3_rule),
            MplgVariable::Lowercase4 => Some(&self.lowercase4_rule),
            MplgVariable::Lowercase5 => Some(&self.lowercase5_rule),
            MplgVariable::Lowercase6 => Some(&self.lowercase6_rule),
            MplgVariable::Lowercase7 => Some(&self.lowercase7_rule),
            MplgVariable::Lowercase8 => Some(&self.lowercase8_rule),
            MplgVariable::Lowercase9 => Some(&self.lowercase9_rule),
            MplgVariable::Lowercase10 => Some(&self.lowercase10_rule),
            MplgVariable::Lowercase11 => Some(&self.lowercase11_rule),
            MplgVariable::Lowercase12 => Some(&self.lowercase12_rule),
            MplgVariable::Lowercase13 => Some(&self.lowercase13_rule),
            MplgVariable::Lowercase14 => Some(&self.lowercase14_rule),
            MplgVariable::Lowercase15 => Some(&self.lowercase15_rule),
            MplgVariable::Lowercase16 => Some(&self.lowercase16_rule),
            MplgVariable::Lowercase17 => Some(&self.lowercase17_rule),
            MplgVariable::Lowercase18 => Some(&self.lowercase18_rule),
            MplgVariable::Lowercase19 => Some(&self.lowercase19_rule),
            MplgVariable::Lowercase20 => Some(&self.lowercase20_rule),
            MplgVariable::UppercaseAToF => Some(&self.uppercase_a_to_f_rule),
            MplgVariable::UppercaseAToF1 => Some(&self.uppercase_a_to_f1_rule),
            MplgVariable::UppercaseAToF2 => Some(&self.uppercase_a_to_f2_rule),
            MplgVariable::UppercaseAToF3 => Some(&self.uppercase_a_to_f3_rule),
            MplgVariable::UppercaseAToF4 => Some(&self.uppercase_a_to_f4_rule),
            MplgVariable::UppercaseAToF5 => Some(&self.uppercase_a_to_f5_rule),
            MplgVariable::UppercaseAToF6 => Some(&self.uppercase_a_to_f6_rule),
            MplgVariable::Uppercase => Some(&self.uppercase_rule),
            MplgVariable::Uppercase1 => Some(&self.uppercase1_rule),
            MplgVariable::Uppercase2 => Some(&self.uppercase2_rule),
            MplgVariable::Uppercase3 => Some(&self.uppercase3_rule),
            MplgVariable::Uppercase4 => Some(&self.uppercase4_rule),
            MplgVariable::Uppercase5 => Some(&self.uppercase5_rule),
            MplgVariable::Uppercase6 => Some(&self.uppercase6_rule),
            MplgVariable::Uppercase7 => Some(&self.uppercase7_rule),
            MplgVariable::Uppercase8 => Some(&self.uppercase8_rule),
            MplgVariable::Uppercase9 => Some(&self.uppercase9_rule),
            MplgVariable::Uppercase10 => Some(&self.uppercase10_rule),
            MplgVariable::Uppercase11 => Some(&self.uppercase11_rule),
            MplgVariable::Uppercase12 => Some(&self.uppercase12_rule),
            MplgVariable::Uppercase13 => Some(&self.uppercase13_rule),
            MplgVariable::Uppercase14 => Some(&self.uppercase14_rule),
            MplgVariable::Uppercase15 => Some(&self.uppercase15_rule),
            MplgVariable::Uppercase16 => Some(&self.uppercase16_rule),
            MplgVariable::Uppercase17 => Some(&self.uppercase17_rule),
            MplgVariable::Uppercase18 => Some(&self.uppercase18_rule),
            MplgVariable::Uppercase19 => Some(&self.uppercase19_rule),
            MplgVariable::Uppercase20 => Some(&self.uppercase20_rule),
            MplgVariable::QuoteEscape => Some(&self.quote_escape_rule),
            MplgVariable::EndOfLine => Some(&self.end_of_line_rule),
            MplgVariable::Space => Some(&self.space_rule),
            MplgVariable::BinDigit => Some(&self.bin_digit_rule),
            MplgVariable::OctDigit => Some(&self.oct_digit_rule),
            MplgVariable::OctDigit1 => Some(&self.oct_digit1_rule),
            MplgVariable::OctDigit2 => Some(&self.oct_digit2_rule),
            MplgVariable::OctDigit3 => Some(&self.oct_digit3_rule),
            MplgVariable::OctDigit4 => Some(&self.oct_digit4_rule),
            MplgVariable::OctDigit5 => Some(&self.oct_digit5_rule),
            MplgVariable::OctDigit6 => Some(&self.oct_digit6_rule),
            MplgVariable::DecDigit => Some(&self.dec_digit_rule),
            MplgVariable::DecDigit1 => Some(&self.dec_digit1_rule),
            MplgVariable::DecDigit2 => Some(&self.dec_digit2_rule),
            MplgVariable::LineComment => Some(&self.line_comment_rule),
            MplgVariable::InnerLineComment => Some(&self.inner_line_comment_rule),
            MplgVariable::AnyExceptLF => Some(&self.any_except_l_f_rule),
            MplgVariable::AnyExceptLF1 => Some(&self.any_except_l_f1_rule),
        }
    }

    fn rule_count(&self) -> (n: usize) {
        141
    }
}

/// A stretch of the description text: the byte offsets `lo..hi`.
#[derive(Clone, Copy, Debug, Eq, PartialEq, Structural)]
pub struct MplgText {
    pub lo: u32,
    pub hi: u32,
}

/// An operand of a parsed rule: a metasymbol, a string literal (by the
/// offsets of its inner bytes), or a variable name (by its offsets).
pub type MplgE = E<MplgText, MplgText>;

/// The parsed lines of a description, in order.
#[derive(Debug, PartialEq)]
pub enum MplgLines {
    Nil,
    Cons(Box<MplgOutput>, Box<MplgLines>),
}

/// The structured summary the description parser computes: the list of
/// lines, one parsed rule, one stretch of text, or one rule operand.
#[derive(Debug, PartialEq)]
pub enum MplgOutput {
    Lines(MplgLines),
    Rule(Rule<MplgText, MplgText>),
    Str(MplgText),
    E(MplgE),
}

impl MplgOutput {
    /// The parsed lines, if this summary is the list of them.
    pub fn to_lines(self) -> (r: Option<MplgLines>)
        ensures
            match r {
                Some(lines) => self == MplgOutput::Lines(lines),
                None => !(self is Lines),
            },
    {
        match self {
            MplgOutput::Lines(lines) => Some(lines),
            _ => None,
        }
    }

    /// The stretch of text, if this summary is one.
    pub fn to_str(self) -> (r: Option<MplgText>)
        ensures
            r == spec_to_str(self),
    {
        match self {
            MplgOutput::Str(text) => Some(text),
            _ => None,
        }
    }

    /// The rule operand, if this summary is one.
    pub fn to_e(self) -> (r: Option<MplgE>)
        ensures
            r == spec_to_e(self),
    {
        match self {
            MplgOutput::E(e) => Some(e),
            _ => None,
        }
    }
}

/// The stretch of text a summary holds, if it is one.
pub open spec fn spec_to_str(output: MplgOutput) -> Option<MplgText> {
    match output {
        MplgOutput::Str(text) => Some(text),
        _ => None,
    }
}

/// The rule operand a summary holds, if it is one.
pub open spec fn spec_to_e(output: MplgOutput) -> Option<MplgE> {
    match output {
        MplgOutput::E(e) => Some(e),
        _ => None,
    }
}

/// The children of the sequence alternative at a tree's root, if the root
/// committed to one.
pub open spec fn tree_first(ast: MplgAST) -> Option<First<MplgAST>> {
    match ast.node {
        Node::Internal(internal) => match *internal.equal {
            Choice::First(first) => Some(first),
            Choice::Second(_) => None,
        },
        Node::Leaf(_) => None,
    }
}

/// The summary at a tree's leaf root, if there is one.
pub open spec fn tree_original(ast: MplgAST) -> Option<MplgOutput> {
    match ast.node {
        Node::Leaf(TerminalSymbol::Original(output)) => Some(output),
        _ => None,
    }
}

/// The summary carried by one of a reduction's children, where there is
/// one: wrapper variables pass the summary of the construct they wrap
/// upward unchanged.
pub open spec fn spec_lift_summary(choice: Choice<MplgAST>) -> Option<MplgOutput> {
    match choice {
        Choice::First(first) => match tree_original(first.lhs) {
            Some(output) => Some(output),
            None => tree_original(first.rhs),
        },
        Choice::Second(second) => tree_original(second.0),
    }
}

/// The tree the semantic action falls back to where a reduction does not
/// have the shape its variable promises (which a parse against
/// [`MplgRules`] never produces): an omission marker over the same span.
pub open spec fn spec_mplg_omit(span: MplgSpan) -> MplgAST {
    Spanned { node: Node::Leaf(TerminalSymbol::Metasymbol(Metasymbol::Omit)), span }
}

/// The stretch of text a span covers, its end saturated to the
/// representable range.
pub open spec fn spec_text_of_span(span: MplgSpan) -> MplgText {
    MplgText {
        lo: span.start,
        hi: if span.start + span.len <= u32::MAX {
            (span.start + span.len) as u32
        } else {
            u32::MAX
        },
    }
}

/// The stretch of text between a string literal's two quotes.
pub open spec fn spec_inner_text(text: MplgText) -> MplgText {
    if text.lo + 2 <= text.hi {
        MplgText { lo: (text.lo + 1) as u32, hi: (text.hi - 1) as u32 }
    } else {
        MplgText { lo: text.lo, hi: text.lo }
    }
}

/// A summary leaf over a span.
pub open spec fn spec_output_leaf(output: MplgOutput, span: MplgSpan) -> MplgAST {
    Spanned { node: Node::Leaf(TerminalSymbol::Original(output)), span }
}

/// The parsed lines along the left spine of a `ZeroOrMoreLines`
/// reduction: each sequence step contributes its line's summary, and the
/// spine ends at the empty alternative.
pub open spec fn spec_collect_lines(ast: MplgAST) -> MplgLines
    decreases ast,
{
    match ast.node {
        Node::Internal(internal) => match *internal.equal {
            Choice::First(first) => {
                let rest = spec_collect_lines(first.rhs);
                match tree_original(first.lhs) {
                    Some(line) => MplgLines::Cons(Box::new(line), Box::new(rest)),
                    None => rest,
                }
            },
            Choice::Second(_) => MplgLines::Nil,
        },
        Node::Leaf(_) => MplgLines::Nil,
    }
}

/// The metasymbol summary at the end of a `MetasymbolLiteral` chain of
/// fallback alternatives.
pub open spec fn spec_find_metasymbol(choice: Choice<MplgAST>) -> Option<MplgOutput>
    decreases choice,
{
    match choice {
        Choice::First(first) => tree_original(first.lhs),
        Choice::Second(second) => match second.0.node {
            Node::Internal(internal) => spec_find_metasymbol(*internal.equal),
            Node::Leaf(_) => None,
        },
    }
}

/// What a parsed `Rule` line summarises: its variable's name and its
/// three operands, gathered from the nested `Rule1` .. `Rule6` reductions.
pub open spec fn spec_rule_summary(var_tree: MplgAST, rule1: MplgAST, span: MplgSpan) -> MplgAST {
    match tree_original(var_tree) {
        None => spec_mplg_omit(span),
        Some(var_output) => match spec_to_str(var_output) {
            None => spec_mplg_omit(span),
            Some(variable) => match tree_first(rule1) {
                None => spec_mplg_omit(span),
                Some(r1) => match tree_first(r1.rhs) {
                    None => spec_mplg_omit(span),
                    Some(rule2) => match tree_original(rule2.lhs) {
                        None => spec_mplg_omit(span),
                        Some(fl_output) => match spec_to_e(fl_output) {
                            None => spec_mplg_omit(span),
                            Some(fl) => match tree_first(rule2.rhs) {
                                None => spec_mplg_omit(span),
                                Some(r3) => match tree_first(r3.rhs) {
                                    None => spec_mplg_omit(span),
                                    Some(rule4) => match tree_original(rule4.lhs) {
                                        None => spec_mplg_omit(span),
                                        Some(fr_output) => match spec_to_e(fr_output) {
                                            None => spec_mplg_omit(span),
                                            Some(fr) => match tree_first(rule4.rhs) {
                                                None => spec_mplg_omit(span),
                                                Some(r5) => match tree_first(r5.rhs) {
                                                    None => spec_mplg_omit(span),
                                                    Some(rule6) => match tree_original(rule6.lhs) {
                                                        None => spec_mplg_omit(span),
                                                        Some(s_output) => match spec_to_e(
                                                            s_output,
                                                        ) {
                                                            None => spec_mplg_omit(span),
                                                            Some(second) => spec_output_leaf(
                                                                MplgOutput::Rule(
                                                                    Equivalence {
                                                                        value: variable,
                                                                        equal: RightRule {
                                                                            first: First {
                                                                                lhs: fl,
                                                                                rhs: fr,
                                                                            },
                                                                            second: Second(second),
                                                                        },
                                                                    },
                                                                ),
                                                                span,
                                                            ),
                                                        },
                                                    },
                                                },
                                            },
                                        },
                                    },
                                },
                            },
                        },
                    },
                },
            },
        },
    }
}

/// What the description's semantic action returns for each completed
/// reduction: the structured summary of the construct, or, for the many
/// purely lexical variables, the unchanged reduction.
pub open spec fn spec_mplg_output(cst: MplgCST) -> MplgAST {
    let span = cst.span;
    let value = cst.node.value;
    let choice = cst.node.equal;
    match value {
        MplgVariable::Mplg => match choice {
            Choice::First(first) => spec_output_leaf(
                MplgOutput::Lines(spec_collect_lines(first.lhs)),
                span,
            ),
            Choice::Second(_) => spec_mplg_omit(span),
        },
        MplgVariable::Line => match choice {
            Choice::First(first) => match first.lhs.node {
                Node::Internal(line1) => match *line1.equal {
                    Choice::First(f2) => Spanned { node: f2.lhs.node, span },
                    Choice::Second(second) => match second.0.node {
                        Node::Internal(line2) => match *line2.equal {
                            Choice::First(f3) => Spanned { node: f3.lhs.node, span },
                            Choice::Second(_) => spec_mplg_omit(span),
                        },
                        Node::Leaf(leaf) => Spanned { node: Node::Leaf(leaf), span },
                    },
                },
                Node::Leaf(_) => spec_mplg_omit(span),
            },
            Choice::Second(_) => spec_mplg_omit(span),
        },
        MplgVariable::LineComment => spec_output_leaf(
            MplgOutput::Str(spec_text_of_span(span)),
            span,
        ),
        MplgVariable::Variable => spec_output_leaf(MplgOutput::Str(spec_text_of_span(span)), span),
        MplgVariable::Rule => match choice {
            Choice::First(first) => spec_rule_summary(first.lhs, first.rhs, span),
            Choice::Second(_) => spec_mplg_omit(span),
        },
        MplgVariable::E => match choice {
            Choice::First(first) => match tree_original(first.lhs) {
                Some(e_output) => spec_output_leaf(e_output, span),
                None => spec_mplg_omit(span),
            },
            Choice::Second(second) => match tree_original(second.0) {
                Some(var_output) => match spec_to_str(var_output) {
                    Some(variable) => spec_output_leaf(
                        MplgOutput::E(E::V(variable)),
                        span,
                    ),
                    None => spec_mplg_omit(span),
                },
                None => spec_mplg_omit(span),
            },
        },
        MplgVariable::TerminalSymbol => match spec_lift_summary(choice) {
            Some(e_output) => spec_output_leaf(e_output, span),
            None => spec_mplg_omit(span),
        },
        MplgVariable::Expr => match spec_lift_summary(choice) {
            Some(e_output) => spec_output_leaf(e_output, span),
            None => spec_mplg_omit(span),
        },
        MplgVariable::ExprWithoutBlock => match spec_lift_summary(choice) {
            Some(e_output) => spec_output_leaf(e_output, span),
            None => spec_mplg_omit(span),
        },
        MplgVariable::ExprWithoutBlock1 => match spec_lift_summary(choice) {
            Some(e_output) => spec_output_leaf(e_output, span),
            None => spec_mplg_omit(span),
        },
        MplgVariable::LiteralExpr => match spec_lift_summary(choice) {
            Some(e_output) => spec_output_leaf(e_output, span),
            None => spec_mplg_omit(span),
        },
        MplgVariable::LiteralExpr1 => match spec_lift_summary(choice) {
            Some(e_output) => spec_output_leaf(e_output, span),
            None => spec_mplg_omit(span),
        },
        MplgVariable::LiteralExpr2 => match spec_lift_summary(choice) {
            Some(e_output) => spec_output_leaf(e_output, span),
            None => spec_mplg_omit(span),
        },
        MplgVariable::OriginalSymbolExpr => match spec_lift_summary(choice) {
            Some(e_output) => spec_output_leaf(e_output, span),
            None => spec_mplg_omit(span),
        },
        MplgVariable::OriginalSymbolExpr1 => match spec_lift_summary(choice) {
            Some(e_output) => spec_output_leaf(e_output, span),
            None => spec_mplg_omit(span),
        },
        MplgVariable::EmptyLiteral => spec_output_leaf(
            MplgOutput::E(E::T(TerminalSymbol::Metasymbol(Metasymbol::Empty))),
            span,
        ),
        MplgVariable::FailureLiteral => spec_output_leaf(
            MplgOutput::E(E::T(TerminalSymbol::Metasymbol(Metasymbol::Failure))),
            span,
        ),
        MplgVariable::AnyLiteral => spec_output_leaf(
            MplgOutput::E(E::T(TerminalSymbol::Metasymbol(Metasymbol::Any(span.len as usize)))),
            span,
        ),
        MplgVariable::AllLiteral => spec_output_leaf(
            MplgOutput::E(E::T(TerminalSymbol::Metasymbol(Metasymbol::All))),
            span,
        ),
        MplgVariable::MetasymbolLiteral => match spec_find_metasymbol(choice) {
            Some(meta_output) => spec_output_leaf(meta_output, span),
            None => spec_mplg_omit(span),
        },
        MplgVariable::StringLiteral => spec_output_leaf(
            MplgOutput::E(
                E::T(TerminalSymbol::Original(spec_inner_text(spec_text_of_span(span)))),
            ),
            span,
        ),
        MplgVariable::CharLiteral => spec_output_leaf(
            MplgOutput::E(
                E::T(TerminalSymbol::Original(spec_inner_text(spec_text_of_span(span)))),
            ),
            span,
        ),
        _ => spec_ast_from_cst_and_output(cst, None),
    }
}

/// The omission-marker tree over a span.
fn mplg_omit(span: MplgSpan) -> (r: MplgAST)
    ensures
        r == spec_mplg_omit(span),
{
    AST::from_leaf(TerminalSymbol::Metasymbol(Metasymbol::Omit), span)
}

/// The stretch of text a span covers.
fn text_of_span(span: MplgSpan) -> (r: MplgText)
    ensures
        r == spec_text_of_span(span),
{
    let hi = match span.start.checked_add(span.len) {
        Some(h) => h,
        None => u32::MAX,
    };
    MplgText { lo: span.start, hi }
}

/// The stretch of text between a string literal's two quotes.
fn inner_text(text: MplgText) -> (r: MplgText)
    ensures
        r == spec_inner_text(text),
{
    if text.lo < u32::MAX && text.lo + 1 < text.hi {
        MplgText { lo: text.lo + 1, hi: text.hi - 1 }
    } else {
        MplgText { lo: text.lo, hi: text.lo }
    }
}

/// A summary leaf over a span.
fn output_leaf(output: MplgOutput, span: MplgSpan) -> (r: MplgAST)
    ensures
        r == spec_output_leaf(output, span),
{
    AST::from_leaf(TerminalSymbol::Original(output), span)
}

/// Gathers the parsed lines along the left spine of a `ZeroOrMoreLines`
/// reduction.
fn collect_lines(ast: MplgAST) -> (r: MplgLines)
    ensures
        r == spec_collect_lines(ast),
    decreases ast,
{
    match ast.node {
        Node::Internal(internal) => match *internal.equal {
            Choice::First(first) => {
                let rest = collect_lines(first.rhs);
                match first.lhs.node {
                    Node::Leaf(TerminalSymbol::Original(line)) => MplgLines::Cons(
                        Box::new(line),
                        Box::new(rest),
                    ),
                    _ => rest,
                }
            },
            Choice::Second(_) => MplgLines::Nil,
        },
        Node::Leaf(_) => MplgLines::Nil,
    }
}

/// Finds the metasymbol summary at the end of a `MetasymbolLiteral`
/// chain of fallback alternatives.
fn find_metasymbol(choice: Choice<MplgAST>) -> (r: Option<MplgOutput>)
    ensures
        r == spec_find_metasymbol(choice),
    decreases choice,
{
    match choice {
        Choice::First(first) => first.lhs.into_original(),
        Choice::Second(second) => match second.0.node {
            Node::Internal(internal) => find_metasymbol(*internal.equal),
            Node::Leaf(_) => None,
        },
    }
}

/// The summary carried by one of a reduction's children, if any.
fn lift_summary(choice: Choice<MplgAST>) -> (r: Option<MplgOutput>)
    ensures
        r == spec_lift_summary(choice),
{
    match choice {
        Choice::First(first) => {
            let First { lhs, rhs } = first;
            match lhs.into_original() {
                Some(output) => Some(output),
                None => rhs.into_original(),
            }
        },
        Choice::Second(second) => second.0.into_original(),
    }
}

/// Summarises a parsed `Rule` line: its variable's name and its three
/// operands.
fn rule_summary(var_tree: MplgAST, rule1: MplgAST, span: MplgSpan) -> (r: MplgAST)
    ensures
        r == spec_rule_summary(var_tree, rule1, span),
{
    let var_output = match var_tree.into_original() {
        Some(o) => o,
        None => {
            return mplg_omit(span);
        },
    };
    let variable = match var_output.to_str() {
        Some(t) => t,
        None => {
            return mplg_omit(span);
        },
    };
    let r1 = match rule1.into_first() {
        Some(f) => f,
        None => {
            return mplg_omit(span);
        },
    };
    let rule2 = match r1.rhs.into_first() {
        Some(f) => f,
        None => {
            return mplg_omit(span);
        },
    };
    let fl_output = match rule2.lhs.into_original() {
        Some(o) => o,
        None => {
            return mplg_omit(span);
        },
    };
    let fl = match fl_output.to_e() {
        Some(e) => e,
        None => {
            return mplg_omit(span);
        },
    };
    let r3 = match rule2.rhs.into_first() {
        Some(f) => f,
        None => {
            return mplg_omit(span);
        },
    };
    let rule4 = match r3.rhs.into_first() {
        Some(f) => f,
        None => {
            return mplg_omit(span);
        },
    };
    let fr_output = match rule4.lhs.into_original() {
        Some(o) => o,
        None => {
            return mplg_omit(span);
        },
    };
    let fr = match fr_output.to_e() {
        Some(e) => e,
        None => {
            return mplg_omit(span);
        },
    };
    let r5 = match rule4.rhs.into_first() {
        Some(f) => f,
        None => {
            return mplg_omit(span);
        },
    };
    let rule6 = match r5.rhs.into_first() {
        Some(f) => f,
        None => {
            return mplg_omit(span);
        },
    };
    let s_output = match rule6.lhs.into_original() {
        Some(o) => o,
        None => {
            return mplg_omit(span);
        },
    };
    let second = match s_output.to_e() {
        Some(e) => e,
        None => {
            return mplg_omit(span);
        },
    };
    output_leaf(
        MplgOutput::Rule(
            Equivalence {
                value: variable,
                equal: RightRule { first: First { lhs: fl, rhs: fr }, second: Second(second) },
            },
        ),
        span,
    )
}

/// The description's semantic action, as [`spec_mplg_output`] describes
/// it.
fn mplg_output_ast(cst: MplgCST) -> (r: MplgAST)
    ensures
        r == spec_mplg_output(cst),
{
    let span = cst.span;
    let value = cst.node.value;
    match value {
        MplgVariable::Mplg => {
            match cst.node.equal {
                Choice::First(first) => {
                    let lines = collect_lines(first.lhs);
                    output_leaf(MplgOutput::Lines(lines), span)
                },
                Choice::Second(_) => mplg_omit(span),
            }
        },
        MplgVariable::Line => {
            match cst.node.equal {
                Choice::First(first) => match first.lhs.node {
                    Node::Internal(line1) => match *line1.equal {
                        Choice::First(f2) => Spanned::new(f2.lhs.node, span),
                        Choice::Second(second) => match second.0.node {
                            Node::Internal(line2) => match *line2.equal {
                                Choice::First(f3) => Spanned::new(f3.lhs.node, span),
                                Choice::Second(_) => mplg_omit(span),
                            },
                            Node::Leaf(leaf) => AST::from_leaf(leaf, span),
                        },
                    },
                    Node::Leaf(_) => mplg_omit(span),
                },
                Choice::Second(_) => mplg_omit(span),
            }
        },
        MplgVariable::LineComment => output_leaf(MplgOutput::Str(text_of_span(span)), span),
        MplgVariable::Variable => output_leaf(MplgOutput::Str(text_of_span(span)), span),
        MplgVariable::Rule => {
            match cst.node.equal {
                Choice::First(first) => rule_summary(first.lhs, first.rhs, span),
                Choice::Second(_) => mplg_omit(span),
            }
        },
        MplgVariable::E => {
            match cst.node.equal {
                Choice::First(first) => match first.lhs.into_original() {
                    Some(e_output) => output_leaf(e_output, span),
                    None => mplg_omit(span),
                },
                Choice::Second(second) => match second.0.into_original() {
                    Some(var_output) => match var_output.to_str() {
                        Some(variable) => output_leaf(MplgOutput::E(E::V(variable)), span),
                        None => mplg_omit(span),
                    },
                    None => mplg_omit(span),
                },
            }
        },
        MplgVariable::TerminalSymbol => {
            match lift_summary(cst.node.equal) {
                Some(e_output) => output_leaf(e_output, span),
                None => mplg_omit(span),
            }
        },
        MplgVariable::Expr => {
            match lift_summary(cst.node.equal) {
                Some(e_output) => output_leaf(e_output, span),
                None => mplg_omit(span),
            }
        },
        MplgVariable::ExprWithoutBlock => {
            match lift_summary(cst.node.equal) {
                Some(e_output) => output_leaf(e_output, span),
                None => mplg_omit(span),
            }
        },
        MplgVariable::ExprWithoutBlock1 => {
            match lift_summary(cst.node.equal) {
                Some(e_output) => output_leaf(e_output, span),
                None => mplg_omit(span),
            }
        },
        MplgVariable::LiteralExpr => {
            match lift_summary(cst.node.equal) {
                Some(e_output) => output_leaf(e_output, span),
                None => mplg_omit(span),
            }
        },
        MplgVariable::LiteralExpr1 => {
            match lift_summary(cst.node.equal) {
                Some(e_output) => output_leaf(e_output, span),
                None => mplg_omit(span),
            }
        },
        MplgVariable::LiteralExpr2 => {
            match lift_summary(cst.node.equal) {
                Some(e_output) => output_leaf(e_output, span),
                None => mplg_omit(span),
            }
        },
        MplgVariable::OriginalSymbolExpr => {
            match lift_summary(cst.node.equal) {
                Some(e_output) => output_leaf(e_output, span),
                None => mplg_omit(span),
            }
        },
        MplgVariable::OriginalSymbolExpr1 => {
            match lift_summary(cst.node.equal) {
                Some(e_output) => output_leaf(e_output, span),
                None => mplg_omit(span),
            }
        },
        MplgVariable::EmptyLiteral => output_leaf(
            MplgOutput::E(E::T(TerminalSymbol::Metasymbol(Metasymbol::Empty))),
            span,
        ),
        MplgVariable::FailureLiteral => output_leaf(
            MplgOutput::E(E::T(TerminalSymbol::Metasymbol(Metasymbol::Failure))),
            span,
        ),
        MplgVariable::AnyLiteral => output_leaf(
            MplgOutput::E(E::T(TerminalSymbol::Metasymbol(Metasymbol::Any(span.len as usize)))),
            span,
        ),
        MplgVariable::AllLiteral => output_leaf(
            MplgOutput::E(E::T(TerminalSymbol::Metasymbol(Metasymbol::All))),
            span,
        ),
        MplgVariable::MetasymbolLiteral => {
            match find_metasymbol(cst.node.equal) {
                Some(meta_output) => output_leaf(meta_output, span),
                None => mplg_omit(span),
            }
        },
        MplgVariable::StringLiteral => output_leaf(
            MplgOutput::E(E::T(TerminalSymbol::Original(inner_text(text_of_span(span))))),
            span,
        ),
        MplgVariable::CharLiteral => output_leaf(
            MplgOutput::E(E::T(TerminalSymbol::Original(inner_text(text_of_span(span))))),
            span,
        ),
        _ => AST::from_cst(cst),
    }
}

impl Output<[u8], MplgVariable, MplgSpan> for MplgOutput {
    open spec fn spec_output(input: &[u8], cst: CST<MplgVariable, MplgSpan, Self>) -> AST<
        MplgVariable,
        MplgSpan,
        Self,
    > {
        spec_mplg_output(cst)
    }

    proof fn lemma_spec_output_span(input: &[u8], cst: CST<MplgVariable, MplgSpan, Self>) {
    }

    fn output_ast(input: &[u8], cst: CST<MplgVariable, MplgSpan, Self>) -> (r: AST<
        MplgVariable,
        MplgSpan,
        Self,
    >) {
        mplg_output_ast(cst)
    }
}


/// Shorthand for the model's verdict over a table, at the types of the
/// bootstrap notation.
pub open spec fn spec_mplg_eval(
    input: &[u8],
    pos: int,
    rules: &MplgRules,
    variable: MplgVariable,
    max_pos: int,
    fuel: nat,
) -> Result<MplgAST, ParseError<MplgVariable, MplgSpan, MplgOutput>> {
    crate::parse::spec_eval::<[u8], U8SliceTerminal, MplgVariable, MplgSpan, u32, MplgRules, MplgOutput>(
        input,
        pos,
        rules,
        variable,
        max_pos,
        fuel,
    )
}

/// Any two realisations of the bootstrap table decide alike: the model's
/// verdict depends on a rule only through [`rule_view`], and
/// [`mplg_table`] pins every rule's view.
pub proof fn lemma_mplg_eval_congruent(
    input: &[u8],
    pos: int,
    rules1: &MplgRules,
    rules2: &MplgRules,
    variable: MplgVariable,
    max_pos: int,
    fuel: nat,
)
    requires
        mplg_table(rules1),
        mplg_table(rules2),
    ensures
        spec_mplg_eval(input, pos, rules1, variable, max_pos, fuel) == spec_mplg_eval(
            input,
            pos,
            rules2,
            variable,
            max_pos,
            fuel,
        ),
    decreases fuel, 0int,
{
    if fuel > 0 {
        let rule1 = rules1.rule_of(variable).unwrap();
        let rule2 = rules2.rule_of(variable).unwrap();
        let sub = (fuel - 1) as nat;
        lemma_mplg_eval_e_congruent(
            input,
            pos,
            rules1,
            rules2,
            rule1.first.lhs,
            rule2.first.lhs,
            max_pos,
            sub,
        );
        let left = crate::parse::spec_eval_e::<
            [u8],
            U8SliceTerminal,
            MplgVariable,
            MplgSpan,
            u32,
            MplgRules,
            MplgOutput,
        >(input, pos, rules1, rule1.first.lhs, max_pos, sub);
        match left {
            Ok(l) => {
                let rpos = <MplgSpan as Span<[u8], u32>>::lo_val(&l.span) + <MplgSpan as Span<
                    [u8],
                    u32,
                >>::size_val(&l.span);
                lemma_mplg_eval_e_congruent(
                    input,
                    rpos,
                    rules1,
                    rules2,
                    rule1.first.rhs,
                    rule2.first.rhs,
                    max_pos,
                    sub,
                );
                lemma_mplg_eval_second_congruent(
                    input,
                    pos,
                    rules1,
                    rules2,
                    variable,
                    rule1.second.0,
                    rule2.second.0,
                    max_pos,
                    sub,
                );
            },
            Err(_) => {
                lemma_mplg_eval_second_congruent(
                    input,
                    pos,
                    rules1,
                    rules2,
                    variable,
                    rule1.second.0,
                    rule2.second.0,
                    max_pos,
                    sub,
                );
            },
        }
    }
}

/// Operand-level congruence, as in [`lemma_mplg_eval_congruent`]: two
/// operands with one view evaluate alike.
pub proof fn lemma_mplg_eval_e_congruent(
    input: &[u8],
    pos: int,
    rules1: &MplgRules,
    rules2: &MplgRules,
    e1: E<U8SliceTerminal, MplgVariable>,
    e2: E<U8SliceTerminal, MplgVariable>,
    max_pos: int,
    fuel: nat,
)
    requires
        mplg_table(rules1),
        mplg_table(rules2),
        e_view(e1) == e_view(e2),
    ensures
        crate::parse::spec_eval_e::<
            [u8],
            U8SliceTerminal,
            MplgVariable,
            MplgSpan,
            u32,
            MplgRules,
            MplgOutput,
        >(input, pos, rules1, e1, max_pos, fuel) == crate::parse::spec_eval_e::<
            [u8],
            U8SliceTerminal,
            MplgVariable,
            MplgSpan,
            u32,
            MplgRules,
            MplgOutput,
        >(input, pos, rules2, e2, max_pos, fuel),
    decreases fuel, 1int,
{
    match (e1, e2) {
        (E::T(ts1), E::T(ts2)) => {
            assert(crate::parse::spec_eval_terminal_symbol::<
                [u8],
                U8SliceTerminal,
                MplgVariable,
                MplgSpan,
                u32,
                MplgOutput,
            >(ts1, input, pos, max_pos) == crate::parse::spec_eval_terminal_symbol::<
                [u8],
                U8SliceTerminal,
                MplgVariable,
                MplgSpan,
                u32,
                MplgOutput,
            >(ts2, input, pos, max_pos));
        },
        (E::V(v1), E::V(v2)) => {
            lemma_mplg_eval_congruent(input, pos, rules1, rules2, v1, max_pos, fuel);
        },
        _ => {},
    }
}

/// Fallback-alternative congruence, as in [`lemma_mplg_eval_congruent`].
pub proof fn lemma_mplg_eval_second_congruent(
    input: &[u8],
    pos: int,
    rules1: &MplgRules,
    rules2: &MplgRules,
    variable: MplgVariable,
    second1: E<U8SliceTerminal, MplgVariable>,
    second2: E<U8SliceTerminal, MplgVariable>,
    max_pos: int,
    fuel: nat,
)
    requires
        mplg_table(rules1),
        mplg_table(rules2),
        e_view(second1) == e_view(second2),
    ensures
        crate::parse::spec_eval_second::<
            [u8],
            U8SliceTerminal,
            MplgVariable,
            MplgSpan,
            u32,
            MplgRules,
            MplgOutput,
        >(input, pos, rules1, variable, second1, max_pos, fuel) == crate::parse::spec_eval_second::<
            [u8],
            U8SliceTerminal,
            MplgVariable,
            MplgSpan,
            u32,
            MplgRules,
            MplgOutput,
        >(input, pos, rules2, variable, second2, max_pos, fuel),
    decreases fuel, 2int,
{
    match (second1, second2) {
        (E::T(ts1), E::T(ts2)) => {
            assert(crate::parse::spec_eval_terminal_symbol::<
                [u8],
                U8SliceTerminal,
                MplgVariable,
                MplgSpan,
                u32,
                MplgOutput,
            >(ts1, input, pos, max_pos) == crate::parse::spec_eval_terminal_symbol::<
                [u8],
                U8SliceTerminal,
                MplgVariable,
                MplgSpan,
                u32,
                MplgOutput,
            >(ts2, input, pos, max_pos));
        },
        (E::V(v1), E::V(v2)) => {
            lemma_mplg_eval_congruent(input, pos, rules1, rules2, v1, max_pos, fuel);
        },
        _ => {},
    }
}


/// Parses a whole grammar description, starting from
/// [`MplgVariable::Mplg`]: succeeds exactly when the description is
/// consumed in its entirety.
pub fn parse_mplg(input: &[u8]) -> (r: Result<MplgAST, ParseError<MplgVariable, MplgSpan, MplgOutput>>)
    requires
        input@.len() <= u32::MAX as int,
    ensures
        r matches Ok(ast) ==> ast.span.start == 0 && ast.span.len as int == input@.len(),
        !(r matches Err(ParseError::MissingRule(_))),
        forall|canonical: MplgRules| #[trigger]
            mplg_table(&canonical) ==> r == crate::parse::spec_minimal_parse::<
                [u8],
                U8SliceTerminal,
                MplgVariable,
                MplgSpan,
                u32,
                MplgRules,
                MplgOutput,
            >(
                input,
                &canonical,
                MplgVariable::Mplg,
                (StartAndLenSpan { start: 0u32, len: input@.len() as u32 }),
                spec_parse_budget(141, input@.len() as int),
            ),
{
    let all_of_the_span = StartAndLenSpan::<u32, u32>::from_start_len(0, input.len() as u32);
    let rules = MplgRules::new();
    let r = input.minimal_parse(&rules, &MplgVariable::Mplg, &all_of_the_span);
    proof {
        lemma_spec_eval_total::<[u8], U8SliceTerminal, MplgVariable, MplgSpan, u32, MplgRules, MplgOutput>(
            input,
            0,
            &rules,
            MplgVariable::Mplg,
            input@.len() as int,
            spec_parse_budget(rules.spec_rule_count(), input@.len() as int),
        );
        assert forall|canonical: MplgRules| #[trigger] mplg_table(&canonical) implies r
            == crate::parse::spec_minimal_parse::<
            [u8],
            U8SliceTerminal,
            MplgVariable,
            MplgSpan,
            u32,
            MplgRules,
            MplgOutput,
        >(
            input,
            &canonical,
            MplgVariable::Mplg,
            (StartAndLenSpan { start: 0u32, len: input@.len() as u32 }),
            spec_parse_budget(141, input@.len() as int),
        ) by {
            lemma_mplg_eval_congruent(
                input,
                0,
                &rules,
                &canonical,
                MplgVariable::Mplg,
                input@.len() as int,
                spec_parse_budget(141, input@.len() as int),
            );
        }
    }
    r
}

/// A parser for grammar descriptions.
pub struct MplgParser;

impl MplgParser {
    /// Parses a whole grammar description, as [`parse_mplg`] does.
    pub fn parse(&self, input: &[u8]) -> (r: Result<
        MplgAST,
        ParseError<MplgVariable, MplgSpan, MplgOutput>,
    >)
        requires
            input@.len() <= u32::MAX as int,
        ensures
            r matches Ok(ast) ==> ast.span.start == 0 && ast.span.len as int == input@.len(),
            !(r matches Err(ParseError::MissingRule(_))),
        forall|canonical: MplgRules| #[trigger]
            mplg_table(&canonical) ==> r == crate::parse::spec_minimal_parse::<
                [u8],
                U8SliceTerminal,
                MplgVariable,
                MplgSpan,
                u32,
                MplgRules,
                MplgOutput,
            >(
                input,
                &canonical,
                MplgVariable::Mplg,
                (StartAndLenSpan { start: 0u32, len: input@.len() as u32 }),
                spec_parse_budget(141, input@.len() as int),
            ),
    {
        parse_mplg(input)
    }
}

} // verus!
