use mpl::parse::{Parse, ParseError};
use mpl::rules::{RightRule, RightRuleKind, Rule, RuleSet};
use mpl::span::{Span, StartAndLenSpan};
use mpl::symbols::{SliceTerminal, Variable};
use mpl::trees::AST;
use std::convert::TryInto;

#[derive(Copy, Clone, Debug, Hash, Eq, PartialEq)]
enum WaveFmtVariable {
    // RIFF chunk
    Riff,
    FileSize,
    Wave,

    // Lexical analysis
    U32,
}

impl Variable for WaveFmtVariable {
    fn v_eq(&self, other: &Self) -> bool {
        self == other
    }
}

/// ```
/// Riff = b"RIFF" FileSize / f
/// FileSize = U32 Wave / f
/// Wave = b"WAVE" () / f
///
/// U32 = ???? () / f
/// ```
#[test]
fn wave_fmt() {
    let riff_rule: Rule<SliceTerminal<u8>, WaveFmtVariable> = Rule::new(
        WaveFmtVariable::Riff,
        RightRule::from_right_rule_kind(
            (
                RightRuleKind::T(SliceTerminal::<u8>::Slice(b"RIFF".to_vec())),
                RightRuleKind::V(WaveFmtVariable::FileSize),
            ),
            RightRuleKind::Failure,
        ),
    );
    let file_size_rule: Rule<SliceTerminal<u8>, WaveFmtVariable> = Rule::new(
        WaveFmtVariable::FileSize,
        RightRule::from_right_rule_kind(
            (
                RightRuleKind::V(WaveFmtVariable::U32),
                RightRuleKind::V(WaveFmtVariable::Wave),
            ),
            RightRuleKind::Failure,
        ),
    );
    let wave_rule: Rule<SliceTerminal<u8>, WaveFmtVariable> = Rule::new(
        WaveFmtVariable::Wave,
        RightRule::from_right_rule_kind(
            (
                RightRuleKind::T(SliceTerminal::<u8>::Slice(b"WAVE".to_vec())),
                RightRuleKind::Empty,
            ),
            RightRuleKind::Failure,
        ),
    );

    let u32_rule: Rule<SliceTerminal<u8>, WaveFmtVariable> = Rule::new(
        WaveFmtVariable::U32,
        RightRule::from_right_rule_kind(
            (RightRuleKind::Any(4), RightRuleKind::Empty),
            RightRuleKind::Failure,
        ),
    );

    let mut rules = RuleSet::new();

    rules.insert_rule(riff_rule);
    rules.insert_rule(file_size_rule);
    rules.insert_rule(wave_rule);

    rules.insert_rule(u32_rule);

    let input: &[u8] = &[
        0x52, 0x49, 0x46, 0x46, 0x04, 0x00, 0x00, 0x00, 0x57, 0x41, 0x56, 0x45,
    ][..];
    // all of the span
    let all_of_the_span = StartAndLenSpan::<u32, u16>::from_start_len(0, input.len() as u16);

    let result: Result<
        AST<WaveFmtVariable, StartAndLenSpan<u32, u16>, ()>,
        ParseError<WaveFmtVariable, StartAndLenSpan<u32, u16>, ()>,
    > = input.minimal_parse(&rules, &WaveFmtVariable::Riff, &all_of_the_span);

    assert!(result.is_ok());

    let input: &[u8] = &[
        0x52, 0x43, 0x46, 0x46, 0x04, 0x00, 0x00, 0x00, 0x57, 0x41, 0x56, 0x45,
    ][..];
    // all of the span
    let all_of_the_span = StartAndLenSpan::<u32, u16>::from_start_len(0, input.len() as u16);

    let result: Result<
        AST<WaveFmtVariable, StartAndLenSpan<u32, u16>, ()>,
        ParseError<WaveFmtVariable, StartAndLenSpan<u32, u16>, ()>,
    > = input.minimal_parse(&rules, &WaveFmtVariable::Riff, &all_of_the_span);

    assert!(result.is_err());
}

/// The matched file-size field decodes as a little-endian `u32`.
#[test]
fn wave_fmt_file_size_bytes() {
    let mut rules: RuleSet<SliceTerminal<u8>, WaveFmtVariable> = RuleSet::new();
    rules.insert(
        WaveFmtVariable::U32,
        RightRule::from_right_rule_kind(
            (RightRuleKind::Any(4), RightRuleKind::Empty),
            RightRuleKind::Failure,
        ),
    );

    let input: &[u8] = &[0x04, 0x00, 0x01, 0x00][..];
    let all_of_the_span = StartAndLenSpan::<u32, u16>::from_start_len(0, input.len() as u16);
    let result: Result<
        AST<WaveFmtVariable, StartAndLenSpan<u32, u16>, ()>,
        ParseError<WaveFmtVariable, StartAndLenSpan<u32, u16>, ()>,
    > = input.minimal_parse(&rules, &WaveFmtVariable::U32, &all_of_the_span);

    let ast = result.unwrap();
    let lo = ast.span.start as usize;
    let hi = ast.span.hi(input) as usize;
    let n = u32::from_le_bytes(input[lo..hi].try_into().unwrap());
    assert_eq!(n, 0x0001_0004);
}
