//! Minimal Parsing Language (MPL)
//!
//! A minimal parser for Minimal Parsing Language (MPL) grammars, in the style
//! of Top-Down Parsing Language (TDPL): every variable owns exactly one rule
//! of the shape `A = B C / D`, and a parse succeeds only when the start
//! variable consumes the requested span of the input exactly.  The evaluator
//! builds an abstract syntax tree (AST) for each successful parse, and a
//! failure tree otherwise.
//!
//! Getting started:
//! 1. implement [`symbols::Variable`] for an enumeration of grammar variables,
//! 2. put one [`rules::RightRule`] per variable into a [`rules::RuleSet`],
//! 3. call [`parse::Parse::minimal_parse`].

pub mod choices;
pub mod encoding;
pub mod input;
pub mod mplg;
pub mod output;
pub mod parse;
pub mod position;
pub mod rules;
pub mod span;
pub mod symbols;
pub mod terminal;
pub mod trees;
