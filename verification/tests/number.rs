use mpl::parse::{Parse, ParseError};
use mpl::rules::{RightRule, RightRuleKind, RuleSet};
use mpl::span::StartAndLenSpan;
use mpl::symbols::{StrTerminal, Variable};
use mpl::trees::AST;

#[derive(Copy, Clone, Debug, Hash, Eq, PartialEq)]
enum NumberVariable {
    Number,
    Numeral,
    Digit,
    Zero,
    FZero,
    One,
    FOne,
}

impl Variable for NumberVariable {
    fn v_eq(&self, other: &Self) -> bool {
        self == other
    }
}

fn number_rules() -> RuleSet<StrTerminal, NumberVariable> {
    let mut rules = RuleSet::new();

    rules.insert(
        NumberVariable::Number,
        RightRule::from_right_rule_kind(
            (
                RightRuleKind::V(NumberVariable::Digit),
                RightRuleKind::V(NumberVariable::Numeral),
            ),
            RightRuleKind::Failure,
        ),
    );
    rules.insert(
        NumberVariable::Numeral,
        RightRule::from_right_rule_kind(
            (
                RightRuleKind::V(NumberVariable::Digit),
                RightRuleKind::V(NumberVariable::Numeral),
            ),
            RightRuleKind::Empty,
        ),
    );
    rules.insert(
        NumberVariable::Digit,
        RightRule::from_right_rule_kind(
            (RightRuleKind::V(NumberVariable::Zero), RightRuleKind::Empty),
            RightRuleKind::Failure,
        ),
    );
    rules.insert(
        NumberVariable::Zero,
        RightRule::from_right_rule_kind(
            (
                RightRuleKind::T(StrTerminal::Str(String::from("0"))),
                RightRuleKind::Empty,
            ),
            RightRuleKind::V(NumberVariable::FZero),
        ),
    );
    rules.insert(
        NumberVariable::FZero,
        RightRule::from_right_rule_kind(
            (
                RightRuleKind::T(StrTerminal::Char('０')),
                RightRuleKind::Empty,
            ),
            RightRuleKind::V(NumberVariable::One),
        ),
    );
    rules.insert(
        NumberVariable::One,
        RightRule::from_right_rule_kind(
            (
                RightRuleKind::T(StrTerminal::Char('1')),
                RightRuleKind::Empty,
            ),
            RightRuleKind::V(NumberVariable::FOne),
        ),
    );
    rules.insert(
        NumberVariable::FOne,
        RightRule::from_right_rule_kind(
            (
                RightRuleKind::T(StrTerminal::Str(String::from("１"))),
                RightRuleKind::Empty,
            ),
            RightRuleKind::Failure,
        ),
    );

    rules
}

/// The following syntax is a lexical syntax for numbers.
/// ```
/// Number = Digit Numeral / f
/// Numeral = Digit Numeral / ()
/// Digit = Zero () / f
/// Zero = "0" () / FZero
/// FZero = '０' () / One
/// One = '1' () / FOne
/// FOne = "１" () / f
/// ```
#[test]
fn number() {
    let rules = number_rules();

    let input = "012001";
    // all of the span
    let all_of_the_span = StartAndLenSpan::<u32, u16>::from_start_len(0, input.len() as u16);
    let result: Result<
        AST<NumberVariable, StartAndLenSpan<u32, u16>, ()>,
        ParseError<NumberVariable, StartAndLenSpan<u32, u16>, ()>,
    > = input.minimal_parse(&rules, &NumberVariable::Number, &all_of_the_span);

    assert!(result.is_err());

    let input = "0１0０1";
    // all of the span
    let all_of_the_span = StartAndLenSpan::<u32, u16>::from_start_len(0, input.len() as u16);
    let result: Result<
        AST<NumberVariable, StartAndLenSpan<u32, u16>, ()>,
        ParseError<NumberVariable, StartAndLenSpan<u32, u16>, ()>,
    > = input.minimal_parse(&rules, &NumberVariable::Number, &all_of_the_span);

    assert_eq!(result.unwrap().span.len, 9);
}
