use mpl::parse::{Parse, ParseError};
use mpl::rules::{RightRule, RightRuleKind, Rule, RuleSet};
use mpl::span::{Span, StartAndLenSpan};
use mpl::symbols::{StrTerminal, Variable};
use mpl::trees::AST;

#[derive(Copy, Clone, Debug, Hash, Eq, PartialEq)]
enum ParenthesesVariable {
    Open,
    Parentheses,
    Close,
}

impl Variable for ParenthesesVariable {
    fn v_eq(&self, other: &Self) -> bool {
        self == other
    }
}

fn parentheses_rules() -> RuleSet<StrTerminal, ParenthesesVariable> {
    let open_rule: Rule<StrTerminal, ParenthesesVariable> = Rule::new(
        ParenthesesVariable::Open,
        RightRule::from_right_rule_kind(
            (
                RightRuleKind::T(StrTerminal::Char('(')),
                RightRuleKind::V(ParenthesesVariable::Parentheses),
            ),
            RightRuleKind::Empty,
        ),
    );
    let parentheses_rule: Rule<StrTerminal, ParenthesesVariable> = Rule::new(
        ParenthesesVariable::Parentheses,
        RightRule::from_right_rule_kind(
            (
                RightRuleKind::V(ParenthesesVariable::Open),
                RightRuleKind::V(ParenthesesVariable::Close),
            ),
            RightRuleKind::Failure,
        ),
    );
    let close_rule: Rule<StrTerminal, ParenthesesVariable> = Rule::new(
        ParenthesesVariable::Close,
        RightRule::from_right_rule_kind(
            (
                RightRuleKind::T(StrTerminal::Str(String::from(")"))),
                RightRuleKind::V(ParenthesesVariable::Open),
            ),
            RightRuleKind::Failure,
        ),
    );

    let mut rules = RuleSet::new();

    rules.insert_rule(open_rule);
    rules.insert_rule(parentheses_rule);
    rules.insert_rule(close_rule);

    rules
}

/// ```
/// Open = '(' Parentheses / ()
/// Parentheses = Open Close / f
/// Close = ")" Open / f
/// ```
#[test]
fn parentheses() {
    let rules = parentheses_rules();

    let input = "()";

    // all of the span
    let all_of_the_span = StartAndLenSpan::<u32, u16>::from_start_len(0, input.len() as u16);

    let result: Result<
        AST<ParenthesesVariable, StartAndLenSpan<u32, u16>, ()>,
        ParseError<ParenthesesVariable, StartAndLenSpan<u32, u16>, ()>,
    > = input.minimal_parse(&rules, &ParenthesesVariable::Open, &all_of_the_span);
    assert_eq!(
        result.unwrap().span,
        StartAndLenSpan::from_lo_hi(0, 2, input)
    );

    let input = "(()(()))";

    // all of the span
    let all_of_the_span = StartAndLenSpan::<u32, u16>::from_start_len(0, input.len() as u16);

    let result: Result<
        AST<ParenthesesVariable, StartAndLenSpan<u32, u16>, ()>,
        ParseError<ParenthesesVariable, StartAndLenSpan<u32, u16>, ()>,
    > = input.minimal_parse(&rules, &ParenthesesVariable::Open, &all_of_the_span);
    assert_eq!(
        result.unwrap().span,
        StartAndLenSpan::from_lo_hi(0, 8, input)
    );

    let input = "(()(())))";

    // all of the span
    let all_of_the_span = StartAndLenSpan::<u32, u16>::from_start_len(0, input.len() as u16);

    let result: Result<
        AST<ParenthesesVariable, StartAndLenSpan<u32, u16>, ()>,
        ParseError<ParenthesesVariable, StartAndLenSpan<u32, u16>, ()>,
    > = input.minimal_parse(&rules, &ParenthesesVariable::Open, &all_of_the_span);
    assert!(matches!(result, Err(ParseError::Failure(_))));
}

/// Parsing the same input with the same grammar twice yields structurally
/// identical results.
#[test]
fn parentheses_deterministic() {
    let rules = parentheses_rules();

    for input in ["", "()", "(()(()))", "(()(())))", "("] {
        let all_of_the_span = StartAndLenSpan::<u32, u16>::from_start_len(0, input.len() as u16);
        let first: Result<
            AST<ParenthesesVariable, StartAndLenSpan<u32, u16>, ()>,
            ParseError<ParenthesesVariable, StartAndLenSpan<u32, u16>, ()>,
        > = input.minimal_parse(&rules, &ParenthesesVariable::Open, &all_of_the_span);
        let second: Result<
            AST<ParenthesesVariable, StartAndLenSpan<u32, u16>, ()>,
            ParseError<ParenthesesVariable, StartAndLenSpan<u32, u16>, ()>,
        > = input.minimal_parse(&rules, &ParenthesesVariable::Open, &all_of_the_span);
        assert_eq!(first, second);
    }
}
