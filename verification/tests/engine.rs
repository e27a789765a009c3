use mpl::parse::{Parse, ParseError};
use mpl::rules::{RightRule, RightRuleKind, RuleSet};
use mpl::span::StartAndLenSpan;
use mpl::symbols::{Metasymbol, U8SliceTerminal, Variable};
use mpl::trees::AST;

#[derive(Copy, Clone, Debug, Hash, Eq, PartialEq)]
enum V {
    Start,
    Extra,
}

impl Variable for V {
    fn v_eq(&self, other: &Self) -> bool {
        self == other
    }
}

type Sp = StartAndLenSpan<u32, u16>;
type Out = Result<AST<V, Sp, ()>, ParseError<V, Sp, ()>>;

fn run(rules: &RuleSet<U8SliceTerminal, V>, input: &[u8]) -> Out {
    let all_of_the_span = Sp::from_start_len(0, input.len() as u16);
    input.minimal_parse(rules, &V::Start, &all_of_the_span)
}

fn one_rule(
    first: (RightRuleKind<U8SliceTerminal, V>, RightRuleKind<U8SliceTerminal, V>),
    second: RightRuleKind<U8SliceTerminal, V>,
) -> RuleSet<U8SliceTerminal, V> {
    let mut rules = RuleSet::new();
    rules.insert(V::Start, RightRule::from_right_rule_kind(first, second));
    rules
}

/// `Empty` succeeds at every position with a zero-length span, never
/// advancing the cursor: `Start = () () / f` accepts exactly the empty
/// input.
#[test]
fn empty_metasymbol() {
    let rules = one_rule(
        (RightRuleKind::Empty, RightRuleKind::Empty),
        RightRuleKind::Failure,
    );
    assert!(run(&rules, b"").is_ok());
    // The cursor did not advance, so any input is left unconsumed.
    assert!(matches!(run(&rules, b"a"), Err(ParseError::Failure(_))));
}

/// `Failure` fails at every position: `Start = f f / f` accepts nothing,
/// not even the empty input.
#[test]
fn failure_metasymbol() {
    let rules = one_rule(
        (RightRuleKind::Failure, RightRuleKind::Empty),
        RightRuleKind::Failure,
    );
    for input in [&b""[..], &b"a"[..], &b"ab"[..]] {
        assert!(matches!(run(&rules, input), Err(ParseError::Failure(_))));
    }
}

/// `Any(n)` succeeds iff `pos + n <= maxPos`, consuming exactly `n`:
/// `Start = ?? () / f` accepts exactly the two-unit inputs.
#[test]
fn any_metasymbol() {
    let rules = one_rule(
        (RightRuleKind::Any(2), RightRuleKind::Empty),
        RightRuleKind::Failure,
    );
    assert!(matches!(run(&rules, b""), Err(ParseError::Failure(_))));
    assert!(matches!(run(&rules, b"a"), Err(ParseError::Failure(_))));
    assert!(run(&rules, b"ab").is_ok());
    // Three units: Any(2) matches the first two, but the input is not
    // consumed in its entirety.
    assert!(matches!(run(&rules, b"abc"), Err(ParseError::Failure(_))));
}

/// `All` always succeeds, consuming everything up to the bound, the empty
/// case included: `Start = * () / f` accepts every input.
#[test]
fn all_metasymbol() {
    let rules = one_rule(
        (RightRuleKind::All, RightRuleKind::Empty),
        RightRuleKind::Failure,
    );
    for input in [&b""[..], &b"a"[..], &b"some longer input"[..]] {
        let result = run(&rules, input);
        let ast = result.unwrap();
        assert_eq!(ast.span.start, 0);
        assert_eq!(ast.span.len as usize, input.len());
    }
}

/// A reachable variable without a rule is a fatal configuration error,
/// reported as such rather than as a parse failure.
#[test]
fn missing_rule_is_fatal() {
    let rules = one_rule(
        (RightRuleKind::V(V::Extra), RightRuleKind::Empty),
        RightRuleKind::Failure,
    );
    assert!(matches!(
        run(&rules, b"a"),
        Err(ParseError::MissingRule(V::Extra))
    ));
}

/// A rule that is left-recursive at the same position exhausts the
/// recursion budget and is reported as such rather than overflowing the
/// stack.
#[test]
fn left_recursion_is_reported() {
    let rules = one_rule(
        (RightRuleKind::V(V::Start), RightRuleKind::Empty),
        RightRuleKind::Failure,
    );
    assert!(matches!(run(&rules, b"a"), Err(ParseError::DepthLimit)));
}

/// The sequence alternative is attempted before the fallback alternative.
#[test]
fn first_choice_before_second() {
    // Start = () () / * : the sequence alternative already succeeds on the
    // empty input, so the fallback `All` is never reached on "ab".
    let rules = one_rule(
        (RightRuleKind::Empty, RightRuleKind::Empty),
        RightRuleKind::All,
    );
    // On the empty input both alternatives would match; First wins.
    let ast = run(&rules, b"").unwrap();
    let first = ast.as_first();
    assert!(first.is_some());
    // On "ab" the First alternative matches zero units, fails exactness,
    // and the engine falls back to `All`, which consumes everything.
    let ast = run(&rules, b"ab");
    assert!(ast.is_err());
}

/// A little-endian numeric terminal matches exactly its encoding.
#[test]
fn le_u32_terminal() {
    let rules = one_rule(
        (
            RightRuleKind::T(U8SliceTerminal::LEU32(0x0100_0004)),
            RightRuleKind::Empty,
        ),
        RightRuleKind::Failure,
    );
    assert!(run(&rules, &[0x04, 0x00, 0x00, 0x01]).is_ok());
    assert!(run(&rules, &[0x01, 0x00, 0x00, 0x04]).is_err());
    assert!(run(&rules, &[0x04, 0x00, 0x00]).is_err());
}

/// A big-endian numeric terminal matches exactly its encoding.
#[test]
fn be_u16_terminal() {
    let rules = one_rule(
        (
            RightRuleKind::T(U8SliceTerminal::BEU16(0x0102)),
            RightRuleKind::Empty,
        ),
        RightRuleKind::Failure,
    );
    assert!(run(&rules, &[0x01, 0x02]).is_ok());
    assert!(run(&rules, &[0x02, 0x01]).is_err());
}

/// A signed little-endian terminal matches its two's-complement bytes.
#[test]
fn le_i16_terminal() {
    let rules = one_rule(
        (
            RightRuleKind::T(U8SliceTerminal::LEI16(-2)),
            RightRuleKind::Empty,
        ),
        RightRuleKind::Failure,
    );
    assert!(run(&rules, &[0xFE, 0xFF]).is_ok());
    assert!(run(&rules, &[0xFF, 0xFE]).is_err());
}

/// A multi-byte character terminal matches its UTF-8 bytes.
#[test]
fn char_terminal_utf8() {
    let rules = one_rule(
        (
            RightRuleKind::T(U8SliceTerminal::Char('１')),
            RightRuleKind::Empty,
        ),
        RightRuleKind::Failure,
    );
    assert!(run(&rules, "１".as_bytes()).is_ok());
    assert!(run(&rules, b"1").is_err());
    let rules = one_rule(
        (
            RightRuleKind::T(U8SliceTerminal::Char('x')),
            RightRuleKind::Empty,
        ),
        RightRuleKind::Failure,
    );
    assert!(run(&rules, b"x").is_ok());
    assert!(run(&rules, b"y").is_err());
}

/// A string terminal matches its UTF-8 bytes.
#[test]
fn str_terminal_bytes() {
    let rules = one_rule(
        (
            RightRuleKind::T(U8SliceTerminal::Str(String::from("RIFF"))),
            RightRuleKind::All,
        ),
        RightRuleKind::Failure,
    );
    assert!(run(&rules, b"RIFFxxxx").is_ok());
    assert!(run(&rules, b"RIFx").is_err());
}

/// A successful parse consumes the requested span exactly: a strict
/// prefix match is an overall failure.
#[test]
fn exact_consumption() {
    // Start = { b"ab" } () / f
    let rules = one_rule(
        (
            RightRuleKind::T(U8SliceTerminal::U8Slice(b"ab".to_vec())),
            RightRuleKind::Empty,
        ),
        RightRuleKind::Failure,
    );
    let ok = run(&rules, b"ab").unwrap();
    assert_eq!(ok.span.start, 0);
    assert_eq!(ok.span.len, 2);
    // "abc" matches only the prefix "ab": the parse as a whole fails.
    assert!(matches!(run(&rules, b"abc"), Err(ParseError::Failure(_))));
}

/// The failure tree of `Failure` carries a zero-length span at the
/// position where it was tried.
#[test]
fn failure_tree_span() {
    let rules = one_rule(
        (RightRuleKind::Failure, RightRuleKind::Empty),
        RightRuleKind::Failure,
    );
    match run(&rules, b"xyz") {
        Err(ParseError::Failure(ast)) => {
            assert_eq!(ast.span.start, 0);
            assert_eq!(ast.span.len, 0);
            assert_eq!(ast.as_metasymbol(), Some(&Metasymbol::Failure));
        }
        other => panic!("expected a local failure, got {:?}", other),
    }
}

/// A committed fallback alternative is a reduction like any other: the
/// semantic action runs for it, so the variable is recorded in the tree
/// even when the fallback operand is a terminal.
#[test]
fn second_terminal_reduction_is_hooked() {
    // Start = f f / ()
    let rules = one_rule(
        (RightRuleKind::Failure, RightRuleKind::Failure),
        RightRuleKind::Empty,
    );
    let ast = run(&rules, b"").unwrap();
    let internal = ast.as_internal().expect("the reduction of Start must appear in the tree");
    assert_eq!(internal.value, (V::Start, None));
    let second = internal.as_second().expect("Start committed to its fallback alternative");
    assert_eq!(second.0.as_metasymbol(), Some(&Metasymbol::Empty));
    assert_eq!(second.0.span.len, 0);
}
