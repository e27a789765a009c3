use mpl::choices::{First, Second};
use mpl::rules::{RightRule, RightRuleKind, RuleSet, Rules};
use mpl::symbols::{Metasymbol, TerminalSymbol, Variable, E};

#[derive(Copy, Clone, Debug, Hash, Eq, PartialEq)]
enum BinDigitTerminal {
    Char(char),
}

#[derive(Copy, Clone, Debug, Hash, Eq, PartialEq)]
enum BinDigitVariable {
    BinDigit,
    One,
}

impl Variable for BinDigitVariable {
    fn v_eq(&self, other: &Self) -> bool {
        self == other
    }
}

/// ```
/// BinDigit = '0' () / One
/// One = '1' () / f
/// ```
#[test]
fn rules() {
    let mut rules: RuleSet<BinDigitTerminal, BinDigitVariable> = RuleSet::new();

    rules.insert(
        BinDigitVariable::BinDigit,
        RightRule::new(
            First::new(
                TerminalSymbol::from_original(BinDigitTerminal::Char('0')).into(),
                Metasymbol::Empty.into(),
            ),
            Second::new(E::from_v(BinDigitVariable::One)),
        ),
    );
    rules.insert(
        BinDigitVariable::One,
        RightRule::new(
            First::new(
                TerminalSymbol::from_original(BinDigitTerminal::Char('1')).into(),
                Metasymbol::Empty.into(),
            ),
            Second::new(Metasymbol::Failure.into()),
        ),
    );

    let mut rules2: RuleSet<BinDigitTerminal, BinDigitVariable> = RuleSet::new();

    rules2.insert(
        BinDigitVariable::BinDigit,
        RightRule::from_right_rule_kind(
            (
                RightRuleKind::T(BinDigitTerminal::Char('0')),
                RightRuleKind::Empty,
            ),
            RightRuleKind::V(BinDigitVariable::One),
        ),
    );
    rules2.insert(
        BinDigitVariable::One,
        RightRule::from_right_rule_kind(
            (
                RightRuleKind::T(BinDigitTerminal::Char('1')),
                RightRuleKind::Empty,
            ),
            RightRuleKind::Failure,
        ),
    );

    assert_eq!(
        rules.get(&BinDigitVariable::BinDigit),
        rules2.get(&BinDigitVariable::BinDigit)
    );
    assert_eq!(
        rules.get(&BinDigitVariable::One),
        rules2.get(&BinDigitVariable::One)
    );
}

/// ```
/// BinDigit = '0' () / One
/// One = '1' () / f
/// ```
#[test]
fn rules_rules() {
    let mut rules: RuleSet<BinDigitTerminal, BinDigitVariable> = RuleSet::new();

    rules.insert(
        BinDigitVariable::BinDigit,
        RightRule::new(
            First::new(
                E::from_t(BinDigitTerminal::Char('0')),
                Metasymbol::Empty.into(),
            ),
            Second::new(E::from_v(BinDigitVariable::One)),
        ),
    );
    rules.insert(
        BinDigitVariable::One,
        RightRule::new(
            First::new(
                E::from_t(BinDigitTerminal::Char('1')),
                Metasymbol::Empty.into(),
            ),
            Second::new(Metasymbol::Failure.into()),
        ),
    );

    let mut rules2: RuleSet<BinDigitTerminal, BinDigitVariable> = RuleSet::new();

    rules2.insert(
        BinDigitVariable::BinDigit,
        RightRule::from_right_rule_kind(
            (
                RightRuleKind::T(BinDigitTerminal::Char('0')),
                RightRuleKind::Empty,
            ),
            RightRuleKind::V(BinDigitVariable::One),
        ),
    );
    rules2.insert(
        BinDigitVariable::One,
        RightRule::from_right_rule_kind(
            (
                RightRuleKind::T(BinDigitTerminal::Char('1')),
                RightRuleKind::Empty,
            ),
            RightRuleKind::Failure,
        ),
    );

    assert_eq!(
        rules.get(&BinDigitVariable::BinDigit),
        rules2.get(&BinDigitVariable::BinDigit)
    );
    assert_eq!(
        rules.get(&BinDigitVariable::One),
        rules2.get(&BinDigitVariable::One)
    );
}

/// A second insert for the same variable shadows the first.
#[test]
fn rules_insert_shadows() {
    let mut rules: RuleSet<BinDigitTerminal, BinDigitVariable> = RuleSet::new();
    assert_eq!(rules.get(&BinDigitVariable::BinDigit), None);

    let first_rule = RightRule::from_right_rule_kind(
        (
            RightRuleKind::T(BinDigitTerminal::Char('0')),
            RightRuleKind::Empty,
        ),
        RightRuleKind::Failure,
    );
    let second_rule = RightRule::from_right_rule_kind(
        (
            RightRuleKind::T(BinDigitTerminal::Char('1')),
            RightRuleKind::Empty,
        ),
        RightRuleKind::Failure,
    );

    rules.insert(BinDigitVariable::BinDigit, first_rule);
    rules.insert(BinDigitVariable::BinDigit, second_rule.clone());
    assert_eq!(rules.get(&BinDigitVariable::BinDigit), Some(&second_rule));
    assert_eq!(rules.get(&BinDigitVariable::One), None);
    assert_eq!(rules.rule_count(), 2);
}
