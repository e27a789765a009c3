use mpl::parse::{Parse, ParseError};
use mpl::rules::{RightRule, RightRuleKind, RuleSet};
use mpl::span::StartAndLenSpan;
use mpl::symbols::{SliceTerminal, Variable};
use mpl::trees::AST;

#[derive(Copy, Clone, Debug, Hash, Eq, PartialEq)]
enum WavRiffVariable {
    // RIFF chunk
    Riff,
    FileSize,
    Wave,
    U32,
}

impl Variable for WavRiffVariable {
    fn v_eq(&self, other: &Self) -> bool {
        self == other
    }
}

/// ```
/// Riff = b"RIFF" FileSize / f
/// FileSize = U32 Wave / f
/// Wave = b"WAVE" () / f
///
/// U32 = ???? () / f
/// ```
#[test]
fn wav_riff() {
    let mut rules = RuleSet::new();

    rules.insert(
        WavRiffVariable::Riff,
        RightRule::from_right_rule_kind(
            (
                RightRuleKind::T(SliceTerminal::<u8>::Slice(b"RIFF".to_vec())),
                RightRuleKind::V(WavRiffVariable::FileSize),
            ),
            RightRuleKind::Failure,
        ),
    );
    rules.insert(
        WavRiffVariable::FileSize,
        RightRule::from_right_rule_kind(
            (
                RightRuleKind::V(WavRiffVariable::U32),
                RightRuleKind::V(WavRiffVariable::Wave),
            ),
            RightRuleKind::Failure,
        ),
    );
    rules.insert(
        WavRiffVariable::Wave,
        RightRule::from_right_rule_kind(
            (
                RightRuleKind::T(SliceTerminal::<u8>::Slice(b"WAVE".to_vec())),
                RightRuleKind::Empty,
            ),
            RightRuleKind::Failure,
        ),
    );
    rules.insert(
        WavRiffVariable::U32,
        RightRule::from_right_rule_kind(
            (RightRuleKind::Any(4), RightRuleKind::Empty),
            RightRuleKind::Failure,
        ),
    );

    let input: &[u8] = &[
        0x52, 0x49, 0x46, 0x46, 0x04, 0x00, 0x00, 0x00, 0x57, 0x41, 0x56, 0x45,
    ][..];
    // all of the span
    let all_of_the_span = StartAndLenSpan::<u32, u16>::from_start_len(0, input.len() as u16);

    let result: Result<
        AST<WavRiffVariable, StartAndLenSpan<u32, u16>, ()>,
        ParseError<WavRiffVariable, StartAndLenSpan<u32, u16>, ()>,
    > = input.minimal_parse(&rules, &WavRiffVariable::Riff, &all_of_the_span);

    assert!(result.is_ok());

    let input: &[u8] = &[
        0x52, 0x43, 0x46, 0x46, 0x04, 0x00, 0x00, 0x00, 0x57, 0x41, 0x56, 0x45,
    ][..];
    // all of the span
    let all_of_the_span = StartAndLenSpan::<u32, u16>::from_start_len(0, input.len() as u16);

    let result: Result<
        AST<WavRiffVariable, StartAndLenSpan<u32, u16>, ()>,
        ParseError<WavRiffVariable, StartAndLenSpan<u32, u16>, ()>,
    > = input.minimal_parse(&rules, &WavRiffVariable::Riff, &all_of_the_span);

    assert!(result.is_err());
}
