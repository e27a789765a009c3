use mpl::parse::{Parse, ParseError};
use mpl::rules::{RightRule, RightRuleKind, RuleSet};
use mpl::span::StartAndLenSpan;
use mpl::symbols::{StrTerminal, U8SliceTerminal, Variable};
use mpl::trees::AST;

#[derive(Copy, Clone, Debug, Hash, Eq, PartialEq)]
enum ParenthesesVariable {
    Open,
    Parentheses,
    Close,
}

impl Variable for ParenthesesVariable {
    fn v_eq(&self, other: &Self) -> bool {
        self == other
    }
}

const INPUTS: [(&str, bool); 8] = [
    // accepted
    ("()", true),
    ("()(())", true),
    ("(()(()))", true),
    ("", true),
    // rejected
    ("(", false),
    (")", false),
    ("()())", false),
    ("(()(())))", false),
];

/// ```
/// Open = '(' Parentheses / ()
/// Parentheses = Open Close / f
/// Close = ")" Open / f
/// ```
#[test]
fn str_parentheses() {
    let mut rules = RuleSet::new();

    rules.insert(
        ParenthesesVariable::Open,
        RightRule::from_right_rule_kind(
            (
                RightRuleKind::T(StrTerminal::Char('(')),
                RightRuleKind::V(ParenthesesVariable::Parentheses),
            ),
            RightRuleKind::Empty,
        ),
    );
    rules.insert(
        ParenthesesVariable::Parentheses,
        RightRule::from_right_rule_kind(
            (
                RightRuleKind::V(ParenthesesVariable::Open),
                RightRuleKind::V(ParenthesesVariable::Close),
            ),
            RightRuleKind::Failure,
        ),
    );
    rules.insert(
        ParenthesesVariable::Close,
        RightRule::from_right_rule_kind(
            (
                RightRuleKind::T(StrTerminal::Str(String::from(")"))),
                RightRuleKind::V(ParenthesesVariable::Open),
            ),
            RightRuleKind::Failure,
        ),
    );

    for input in INPUTS {
        let input_data = input.0;
        let should_accept = input.1;
        // all of the span
        let all_of_the_span =
            StartAndLenSpan::<u32, u16>::from_start_len(0, input_data.len() as u16);
        let result: Result<
            AST<ParenthesesVariable, StartAndLenSpan<u32, u16>, ()>,
            ParseError<ParenthesesVariable, StartAndLenSpan<u32, u16>, ()>,
        > = input_data.minimal_parse(&rules, &ParenthesesVariable::Open, &all_of_the_span);
        if should_accept {
            assert!(result.is_ok());
        } else {
            assert!(result.is_err());
        }
    }
}

/// The same grammar over the input's bytes.
#[test]
fn u8_slice_parentheses() {
    let mut rules = RuleSet::new();

    rules.insert(
        ParenthesesVariable::Open,
        RightRule::from_right_rule_kind(
            (
                RightRuleKind::T(U8SliceTerminal::Char('(')),
                RightRuleKind::V(ParenthesesVariable::Parentheses),
            ),
            RightRuleKind::Empty,
        ),
    );
    rules.insert(
        ParenthesesVariable::Parentheses,
        RightRule::from_right_rule_kind(
            (
                RightRuleKind::V(ParenthesesVariable::Open),
                RightRuleKind::V(ParenthesesVariable::Close),
            ),
            RightRuleKind::Failure,
        ),
    );
    rules.insert(
        ParenthesesVariable::Close,
        RightRule::from_right_rule_kind(
            (
                RightRuleKind::T(U8SliceTerminal::Str(String::from(")"))),
                RightRuleKind::V(ParenthesesVariable::Open),
            ),
            RightRuleKind::Failure,
        ),
    );

    for input in INPUTS {
        let input_data = input.0.as_bytes();
        let should_accept = input.1;
        // all of the span
        let all_of_the_span =
            StartAndLenSpan::<u32, u16>::from_start_len(0, input_data.len() as u16);
        let result: Result<
            AST<ParenthesesVariable, StartAndLenSpan<u32, u16>, ()>,
            ParseError<ParenthesesVariable, StartAndLenSpan<u32, u16>, ()>,
        > = input_data.minimal_parse(&rules, &ParenthesesVariable::Open, &all_of_the_span);
        if should_accept {
            assert!(result.is_ok());
        } else {
            assert!(result.is_err());
        }
    }
}
