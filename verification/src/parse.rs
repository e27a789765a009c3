//! Parse
//!
//! The recursive evaluator.  Its behaviour is pinned down by a mathematical
//! model, [`spec_eval`]: a function of the input, the position, the rule
//! table, the variable, the bound, and a recursion budget.  The executable
//! evaluator returns exactly what the model returns, so parsing is a
//! function of its arguments: the same `(input, grammar, start, span)`
//! yields structurally identical trees on every run.
//!
//! The budget guards the one hazard the rule shape allows: a rule whose
//! sequence alternative is left-recursive at the same position recurses
//! without bound.  Exhausting the budget is reported as the fatal
//! [`ParseError::DepthLimit`], never by a crash; the budget picked by
//! [`Parse::minimal_parse`] grows with the input and the rule table, so it
//! is only reached by such degenerate grammars.

use crate::choices::{Choice, First, Second};
use crate::input::Input;
use crate::output::Output;
use crate::position::Position;
use crate::rules::{rules_no_omit, Rules};
use crate::span::{Span, Spanned};
use crate::symbols::{Equivalence, Metasymbol, Terminal, TerminalSymbol, Variable, E};
use crate::trees::{AST, CST};
use vstd::pervasive::unreached;
use vstd::prelude::*;

verus! {

/// Why a parse ended without a result tree.
#[derive(Debug, PartialEq)]
pub enum ParseError<V, S, O> {
    /// A local match failure: the grammar did not derive the requested
    /// span.  Carries the failure tree, with the deepest span reached.
    Failure(AST<V, S, O>),
    /// A reachable variable has no rule: the grammar itself is malformed.
    MissingRule(V),
    /// The recursion budget ran out, as it does on a left-recursive rule.
    DepthLimit,
}

/// The leaf tree a metasymbol match returns: the metasymbol over the span
/// `[lo, lo + size)`.
pub open spec fn spec_meta_leaf<I, V, S, P, O>(m: Metasymbol, lo: int, size: int) -> AST<V, S, O>
    where
    I: Input + ?Sized,
    V: Variable,
    S: Span<I, P>,
    P: Position,
 {
    Spanned {
        node: crate::trees::Node::Leaf(TerminalSymbol::Metasymbol(m)),
        span: S::spec_span(lo, size),
    }
}

/// What matching a terminal symbol at `pos`, bounded by `max_pos`, returns:
/// an original terminal matches as its [`Terminal`] implementation says,
/// and each metasymbol has its fixed semantics.
///
/// - `Empty` succeeds at every position with the zero-length span
///   `[pos, pos)`, never advancing the cursor.
/// - `Failure` fails at every position with the zero-length span
///   `[pos, pos)`.
/// - `Any(n)` succeeds exactly when `pos + n <= max_pos`, consuming `n`
///   units; otherwise it fails over the attempted span `[pos, pos + n)`
///   (clamped to `[pos, pos)` when that span is not representable).
/// - `All` always succeeds, consuming `[pos, max_pos)`, the empty case
///   `pos == max_pos` included.
pub open spec fn spec_eval_terminal_symbol<I, T, V, S, P, O>(
    ts: TerminalSymbol<T>,
    input: &I,
    pos: int,
    max_pos: int,
) -> Result<AST<V, S, O>, AST<V, S, O>>
    where
    I: Input + ?Sized,
    T: Terminal<I, V, S, P, O>,
    V: Variable,
    S: Span<I, P>,
    P: Position,
 {
    match ts {
        TerminalSymbol::Original(t) => t.spec_eval(input, pos, max_pos),
        TerminalSymbol::Metasymbol(m) => match m {
            Metasymbol::Empty => Ok(spec_meta_leaf::<I, V, S, P, O>(Metasymbol::Empty, pos, 0)),
            Metasymbol::Failure => Err(
                spec_meta_leaf::<I, V, S, P, O>(Metasymbol::Failure, pos, 0),
            ),
            Metasymbol::Any(n) => {
                if pos + n as int <= max_pos {
                    Ok(spec_meta_leaf::<I, V, S, P, O>(Metasymbol::Any(n), pos, n as int))
                } else {
                    let attempted: int = if S::len_fits(n as int) && pos + n as int
                        <= P::max_pos_val() {
                        n as int
                    } else {
                        0
                    };
                    Err(spec_meta_leaf::<I, V, S, P, O>(Metasymbol::Any(n), pos, attempted))
                }
            },
            Metasymbol::All => Ok(
                spec_meta_leaf::<I, V, S, P, O>(Metasymbol::All, pos, max_pos - pos),
            ),
            Metasymbol::Omit => Err(spec_meta_leaf::<I, V, S, P, O>(Metasymbol::Omit, pos, 0)),
        },
    }
}

/// What evaluating one operand of a rule at `pos` returns: a terminal
/// symbol via [`spec_eval_terminal_symbol`], a variable via [`spec_eval`].
pub open spec fn spec_eval_e<I, T, V, S, P, R, O>(
    input: &I,
    pos: int,
    rules: &R,
    e: E<T, V>,
    max_pos: int,
    fuel: nat,
) -> Result<AST<V, S, O>, ParseError<V, S, O>>
    where
    I: Input + ?Sized,
    T: Terminal<I, V, S, P, O>,
    V: Variable,
    S: Span<I, P>,
    P: Position,
    R: Rules<T, V>,
    O: Output<I, V, S>,
    decreases fuel, 1int,
{
    match e {
        E::T(ts) => match spec_eval_terminal_symbol::<I, T, V, S, P, O>(ts, input, pos, max_pos) {
            Ok(a) => Ok(a),
            Err(a) => Err(ParseError::Failure(a)),
        },
        E::V(v) => spec_eval::<I, T, V, S, P, R, O>(input, pos, rules, v, max_pos, fuel),
    }
}

/// What the fallback alternative of `variable`'s rule returns at `pos`:
/// on success, terminal or variable alike, the outcome is wrapped in a
/// `Second` reduction for `variable` and passed through the semantic
/// action — the hook runs exactly once per successfully reduced variable —
/// while a failure propagates unchanged.
pub open spec fn spec_eval_second<I, T, V, S, P, R, O>(
    input: &I,
    pos: int,
    rules: &R,
    variable: V,
    second: E<T, V>,
    max_pos: int,
    fuel: nat,
) -> Result<AST<V, S, O>, ParseError<V, S, O>>
    where
    I: Input + ?Sized,
    T: Terminal<I, V, S, P, O>,
    V: Variable,
    S: Span<I, P>,
    P: Position,
    R: Rules<T, V>,
    O: Output<I, V, S>,
    decreases fuel, 2int,
{
    match second {
        E::T(ts) => match spec_eval_terminal_symbol::<I, T, V, S, P, O>(ts, input, pos, max_pos) {
            Ok(a) => {
                let cst = Spanned {
                    node: Equivalence { value: variable, equal: Choice::Second(Second(a)) },
                    span: a.span,
                };
                Ok(O::spec_output(input, cst))
            },
            Err(a) => Err(ParseError::Failure(a)),
        },
        E::V(v) => match spec_eval::<I, T, V, S, P, R, O>(input, pos, rules, v, max_pos, fuel) {
            Ok(ast) => {
                let cst = Spanned {
                    node: Equivalence { value: variable, equal: Choice::Second(Second(ast)) },
                    span: ast.span,
                };
                Ok(O::spec_output(input, cst))
            },
            Err(e) => Err(e),
        },
    }
}

/// What evaluating `variable` at `pos`, bounded by `max_pos`, returns.
///
/// The sequence alternative is tried first: its left operand at `pos`, its
/// right operand at the end of the left operand's span.  When both succeed
/// their spans are merged, the `First` reduction is passed through the
/// semantic action, and that is the result.  When either fails locally,
/// the fallback alternative decides at the original `pos`.  A missing rule
/// and an exhausted budget are fatal and propagate immediately.
pub open spec fn spec_eval<I, T, V, S, P, R, O>(
    input: &I,
    pos: int,
    rules: &R,
    variable: V,
    max_pos: int,
    fuel: nat,
) -> Result<AST<V, S, O>, ParseError<V, S, O>>
    where
    I: Input + ?Sized,
    T: Terminal<I, V, S, P, O>,
    V: Variable,
    S: Span<I, P>,
    P: Position,
    R: Rules<T, V>,
    O: Output<I, V, S>,
    decreases fuel, 0int,
{
    if fuel == 0 {
        Err(ParseError::DepthLimit)
    } else {
        match rules.rule_of(variable) {
            None => Err(ParseError::MissingRule(variable)),
            Some(rule) => {
                let sub = (fuel - 1) as nat;
                match spec_eval_e::<I, T, V, S, P, R, O>(
                    input,
                    pos,
                    rules,
                    rule.first.lhs,
                    max_pos,
                    sub,
                ) {
                    Ok(l) => {
                        let rpos = l.span.lo_val() + l.span.size_val();
                        match spec_eval_e::<I, T, V, S, P, R, O>(
                            input,
                            rpos,
                            rules,
                            rule.first.rhs,
                            max_pos,
                            sub,
                        ) {
                            Ok(r) => {
                                let merged = S::spec_span(
                                    l.span.lo_val(),
                                    l.span.size_val() + r.span.size_val(),
                                );
                                let cst = Spanned {
                                    node: Equivalence {
                                        value: variable,
                                        equal: Choice::First(First { lhs: l, rhs: r }),
                                    },
                                    span: merged,
                                };
                                Ok(O::spec_output(input, cst))
                            },
                            Err(ParseError::Failure(_)) => spec_eval_second::<I, T, V, S, P, R, O>(
                                input,
                                pos,
                                rules,
                                variable,
                                rule.second.0,
                                max_pos,
                                sub,
                            ),
                            Err(e) => Err(e),
                        }
                    },
                    Err(ParseError::Failure(_)) => spec_eval_second::<I, T, V, S, P, R, O>(
                        input,
                        pos,
                        rules,
                        variable,
                        rule.second.0,
                        max_pos,
                        sub,
                    ),
                    Err(e) => Err(e),
                }
            },
        }
    }
}

/// What a whole parse returns: [`spec_eval`] from the start variable over
/// the full span, accepted only when the resulting tree consumed that span
/// exactly.
pub open spec fn spec_minimal_parse<I, T, V, S, P, R, O>(
    input: &I,
    rules: &R,
    start_variable: V,
    all_of_the_span: S,
    budget: nat,
) -> Result<AST<V, S, O>, ParseError<V, S, O>>
    where
    I: Input + ?Sized,
    T: Terminal<I, V, S, P, O>,
    V: Variable,
    S: Span<I, P>,
    P: Position,
    R: Rules<T, V>,
    O: Output<I, V, S>,
 {
    match spec_eval::<I, T, V, S, P, R, O>(
        input,
        all_of_the_span.lo_val(),
        rules,
        start_variable,
        all_of_the_span.lo_val() + all_of_the_span.size_val(),
        budget,
    ) {
        Ok(ast) => {
            if ast.span.lo_val() == all_of_the_span.lo_val() && ast.span.size_val()
                == all_of_the_span.size_val() {
                Ok(ast)
            } else {
                Err(ParseError::Failure(ast))
            }
        },
        Err(e) => Err(e),
    }
}

/// The recursion budget of a parse: `(rules + 1) * (span + 2)`, saturated
/// at `usize::MAX`.  Any evaluation that terminates at all repeats no
/// variable at one position, so its depth is at most the number of rules
/// times the number of positions; this budget dominates that bound.
pub open spec fn spec_parse_budget(rule_count: int, size: int) -> nat {
    let a = if size + 2 > usize::MAX as int {
        usize::MAX as int
    } else {
        size + 2
    };
    let b = if rule_count + 1 > usize::MAX as int {
        usize::MAX as int
    } else {
        rule_count + 1
    };
    if a * b > usize::MAX as int {
        usize::MAX as nat
    } else {
        (a * b) as nat
    }
}

/// On success, [`spec_eval_terminal_symbol`] spans `[pos, hi]` with
/// `hi <= max_pos`; on failure its tree starts at `pos`.  Both trees are
/// representable.
pub proof fn lemma_spec_eval_terminal_symbol_spans<I, T, V, S, P, O>(
    ts: TerminalSymbol<T>,
    input: &I,
    pos: int,
    max_pos: int,
)
    where
    I: Input + ?Sized,
    T: Terminal<I, V, S, P, O>,
    V: Variable,
    S: Span<I, P>,
    P: Position,

    requires
        0 <= pos <= max_pos <= P::max_pos_val(),
        S::len_fits(max_pos - pos),
    ensures
        match spec_eval_terminal_symbol::<I, T, V, S, P, O>(ts, input, pos, max_pos) {
            Ok(a) => a.span.lo_val() == pos && 0 <= a.span.size_val() && a.span.size_val()
                <= max_pos - pos && a.span.wf_span(),
            Err(a) => a.span.lo_val() == pos && a.span.wf_span(),
        },
{
    match ts {
        TerminalSymbol::Original(t) => {
            t.lemma_spec_eval_spans(input, pos, max_pos);
        },
        TerminalSymbol::Metasymbol(m) => {
            S::lemma_len_fits_zero();
            S::lemma_spec_span_vals(pos, 0);
            match m {
                Metasymbol::Any(n) => {
                    if pos + n as int <= max_pos {
                        S::lemma_len_fits_mono(max_pos - pos, n as int);
                        S::lemma_spec_span_vals(pos, n as int);
                    } else {
                        if S::len_fits(n as int) && pos + n as int <= P::max_pos_val() {
                            S::lemma_spec_span_vals(pos, n as int);
                        }
                    }
                },
                Metasymbol::All => {
                    S::lemma_spec_span_vals(pos, max_pos - pos);
                },
                _ => {},
            }
        },
    }
}

/// On success, [`spec_eval`] yields a tree whose span starts at `pos` and
/// ends at or before `max_pos`.  In particular the two halves of every
/// merged sequence alternative are contiguous: the left half ends exactly
/// where the right half starts.
pub proof fn lemma_spec_eval_spans<I, T, V, S, P, R, O>(
    input: &I,
    pos: int,
    rules: &R,
    variable: V,
    max_pos: int,
    fuel: nat,
)
    where
    I: Input + ?Sized,
    T: Terminal<I, V, S, P, O>,
    V: Variable,
    S: Span<I, P>,
    P: Position,
    R: Rules<T, V>,
    O: Output<I, V, S>,

    requires
        0 <= pos <= max_pos <= P::max_pos_val(),
        S::len_fits(max_pos - pos),
    ensures
        match spec_eval::<I, T, V, S, P, R, O>(input, pos, rules, variable, max_pos, fuel) {
            Ok(a) => a.span.lo_val() == pos && 0 <= a.span.size_val() && a.span.size_val()
                <= max_pos - pos && a.span.wf_span(),
            Err(_) => true,
        },
    decreases fuel, 0int,
{
    if fuel == 0 {
    } else {
        match rules.rule_of(variable) {
            None => {},
            Some(rule) => {
                let sub = (fuel - 1) as nat;
                lemma_spec_eval_e_spans::<I, T, V, S, P, R, O>(
                    input,
                    pos,
                    rules,
                    rule.first.lhs,
                    max_pos,
                    sub,
                );
                match spec_eval_e::<I, T, V, S, P, R, O>(
                    input,
                    pos,
                    rules,
                    rule.first.lhs,
                    max_pos,
                    sub,
                ) {
                    Ok(l) => {
                        let rpos = l.span.lo_val() + l.span.size_val();
                        S::lemma_len_fits_mono(max_pos - pos, max_pos - rpos);
                        lemma_spec_eval_e_spans::<I, T, V, S, P, R, O>(
                            input,
                            rpos,
                            rules,
                            rule.first.rhs,
                            max_pos,
                            sub,
                        );
                        match spec_eval_e::<I, T, V, S, P, R, O>(
                            input,
                            rpos,
                            rules,
                            rule.first.rhs,
                            max_pos,
                            sub,
                        ) {
                            Ok(r) => {
                                let size = l.span.size_val() + r.span.size_val();
                                S::lemma_len_fits_mono(max_pos - pos, size);
                                S::lemma_spec_span_vals(pos, size);
                                let merged = S::spec_span(pos, size);
                                let cst = Spanned {
                                    node: Equivalence {
                                        value: variable,
                                        equal: Choice::First(First { lhs: l, rhs: r }),
                                    },
                                    span: merged,
                                };
                                O::lemma_spec_output_span(input, cst);
                            },
                            Err(ParseError::Failure(_)) => {
                                lemma_spec_eval_second_spans::<I, T, V, S, P, R, O>(
                                    input,
                                    pos,
                                    rules,
                                    variable,
                                    rule.second.0,
                                    max_pos,
                                    sub,
                                );
                            },
                            Err(_) => {},
                        }
                    },
                    Err(ParseError::Failure(_)) => {
                        lemma_spec_eval_second_spans::<I, T, V, S, P, R, O>(
                            input,
                            pos,
                            rules,
                            variable,
                            rule.second.0,
                            max_pos,
                            sub,
                        );
                    },
                    Err(_) => {},
                }
            },
        }
    }
}

/// Span bounds of [`spec_eval_e`], as in [`lemma_spec_eval_spans`].
pub proof fn lemma_spec_eval_e_spans<I, T, V, S, P, R, O>(
    input: &I,
    pos: int,
    rules: &R,
    e: E<T, V>,
    max_pos: int,
    fuel: nat,
)
    where
    I: Input + ?Sized,
    T: Terminal<I, V, S, P, O>,
    V: Variable,
    S: Span<I, P>,
    P: Position,
    R: Rules<T, V>,
    O: Output<I, V, S>,

    requires
        0 <= pos <= max_pos <= P::max_pos_val(),
        S::len_fits(max_pos - pos),
    ensures
        match spec_eval_e::<I, T, V, S, P, R, O>(input, pos, rules, e, max_pos, fuel) {
            Ok(a) => a.span.lo_val() == pos && 0 <= a.span.size_val() && a.span.size_val()
                <= max_pos - pos && a.span.wf_span(),
            Err(_) => true,
        },
    decreases fuel, 1int,
{
    match e {
        E::T(ts) => {
            lemma_spec_eval_terminal_symbol_spans::<I, T, V, S, P, O>(ts, input, pos, max_pos);
        },
        E::V(v) => {
            lemma_spec_eval_spans::<I, T, V, S, P, R, O>(input, pos, rules, v, max_pos, fuel);
        },
    }
}

/// Span bounds of [`spec_eval_second`], as in [`lemma_spec_eval_spans`].
pub proof fn lemma_spec_eval_second_spans<I, T, V, S, P, R, O>(
    input: &I,
    pos: int,
    rules: &R,
    variable: V,
    second: E<T, V>,
    max_pos: int,
    fuel: nat,
)
    where
    I: Input + ?Sized,
    T: Terminal<I, V, S, P, O>,
    V: Variable,
    S: Span<I, P>,
    P: Position,
    R: Rules<T, V>,
    O: Output<I, V, S>,

    requires
        0 <= pos <= max_pos <= P::max_pos_val(),
        S::len_fits(max_pos - pos),
    ensures
        match spec_eval_second::<I, T, V, S, P, R, O>(
            input,
            pos,
            rules,
            variable,
            second,
            max_pos,
            fuel,
        ) {
            Ok(a) => a.span.lo_val() == pos && 0 <= a.span.size_val() && a.span.size_val()
                <= max_pos - pos && a.span.wf_span(),
            Err(_) => true,
        },
    decreases fuel, 2int,
{
    match second {
        E::T(ts) => {
            lemma_spec_eval_terminal_symbol_spans::<I, T, V, S, P, O>(ts, input, pos, max_pos);
            match spec_eval_terminal_symbol::<I, T, V, S, P, O>(ts, input, pos, max_pos) {
                Ok(a) => {
                    let cst = Spanned {
                        node: Equivalence { value: variable, equal: Choice::Second(Second(a)) },
                        span: a.span,
                    };
                    O::lemma_spec_output_span(input, cst);
                },
                Err(_) => {},
            }
        },
        E::V(v) => {
            lemma_spec_eval_spans::<I, T, V, S, P, R, O>(input, pos, rules, v, max_pos, fuel);
            match spec_eval::<I, T, V, S, P, R, O>(input, pos, rules, v, max_pos, fuel) {
                Ok(ast) => {
                    let cst = Spanned {
                        node: Equivalence { value: variable, equal: Choice::Second(Second(ast)) },
                        span: ast.span,
                    };
                    O::lemma_spec_output_span(input, cst);
                },
                Err(_) => {},
            }
        },
    }
}

/// A verdict, once reached, does not depend on the recursion budget: any
/// outcome other than an exhausted budget stays the same under every
/// larger budget.  The budget therefore only separates diverging
/// evaluations (a left-recursive rule) from deciding ones; it never
/// changes a decision.
pub proof fn lemma_spec_eval_fuel_mono<I, T, V, S, P, R, O>(
    input: &I,
    pos: int,
    rules: &R,
    variable: V,
    max_pos: int,
    fuel1: nat,
    fuel2: nat,
)
    where
    I: Input + ?Sized,
    T: Terminal<I, V, S, P, O>,
    V: Variable,
    S: Span<I, P>,
    P: Position,
    R: Rules<T, V>,
    O: Output<I, V, S>,

    requires
        fuel1 <= fuel2,
        spec_eval::<I, T, V, S, P, R, O>(input, pos, rules, variable, max_pos, fuel1) != Err::<
            AST<V, S, O>,
            ParseError<V, S, O>,
        >(ParseError::DepthLimit),
    ensures
        spec_eval::<I, T, V, S, P, R, O>(input, pos, rules, variable, max_pos, fuel2)
            == spec_eval::<I, T, V, S, P, R, O>(input, pos, rules, variable, max_pos, fuel1),
    decreases fuel1, 0int,
{
    if fuel1 == 0 {
    } else {
        match rules.rule_of(variable) {
            None => {},
            Some(rule) => {
                let sub1 = (fuel1 - 1) as nat;
                let sub2 = (fuel2 - 1) as nat;
                let left1 = spec_eval_e::<I, T, V, S, P, R, O>(
                    input,
                    pos,
                    rules,
                    rule.first.lhs,
                    max_pos,
                    sub1,
                );
                if left1 != Err::<AST<V, S, O>, ParseError<V, S, O>>(ParseError::DepthLimit) {
                    lemma_spec_eval_e_fuel_mono::<I, T, V, S, P, R, O>(
                        input,
                        pos,
                        rules,
                        rule.first.lhs,
                        max_pos,
                        sub1,
                        sub2,
                    );
                    match left1 {
                        Ok(l) => {
                            let rpos = l.span.lo_val() + l.span.size_val();
                            let right1 = spec_eval_e::<I, T, V, S, P, R, O>(
                                input,
                                rpos,
                                rules,
                                rule.first.rhs,
                                max_pos,
                                sub1,
                            );
                            if right1 != Err::<AST<V, S, O>, ParseError<V, S, O>>(
                                ParseError::DepthLimit,
                            ) {
                                lemma_spec_eval_e_fuel_mono::<I, T, V, S, P, R, O>(
                                    input,
                                    rpos,
                                    rules,
                                    rule.first.rhs,
                                    max_pos,
                                    sub1,
                                    sub2,
                                );
                                match right1 {
                                    Err(ParseError::Failure(_)) => {
                                        lemma_spec_eval_second_fuel_mono::<I, T, V, S, P, R, O>(
                                            input,
                                            pos,
                                            rules,
                                            variable,
                                            rule.second.0,
                                            max_pos,
                                            sub1,
                                            sub2,
                                        );
                                    },
                                    _ => {},
                                }
                            }
                        },
                        Err(ParseError::Failure(_)) => {
                            lemma_spec_eval_second_fuel_mono::<I, T, V, S, P, R, O>(
                                input,
                                pos,
                                rules,
                                variable,
                                rule.second.0,
                                max_pos,
                                sub1,
                                sub2,
                            );
                        },
                        Err(_) => {},
                    }
                }
            },
        }
    }
}

/// Budget independence of [`spec_eval_e`], as in
/// [`lemma_spec_eval_fuel_mono`].
pub proof fn lemma_spec_eval_e_fuel_mono<I, T, V, S, P, R, O>(
    input: &I,
    pos: int,
    rules: &R,
    e: E<T, V>,
    max_pos: int,
    fuel1: nat,
    fuel2: nat,
)
    where
    I: Input + ?Sized,
    T: Terminal<I, V, S, P, O>,
    V: Variable,
    S: Span<I, P>,
    P: Position,
    R: Rules<T, V>,
    O: Output<I, V, S>,

    requires
        fuel1 <= fuel2,
        spec_eval_e::<I, T, V, S, P, R, O>(input, pos, rules, e, max_pos, fuel1) != Err::<
            AST<V, S, O>,
            ParseError<V, S, O>,
        >(ParseError::DepthLimit),
    ensures
        spec_eval_e::<I, T, V, S, P, R, O>(input, pos, rules, e, max_pos, fuel2)
            == spec_eval_e::<I, T, V, S, P, R, O>(input, pos, rules, e, max_pos, fuel1),
    decreases fuel1, 1int,
{
    match e {
        E::T(_) => {},
        E::V(v) => {
            lemma_spec_eval_fuel_mono::<I, T, V, S, P, R, O>(
                input,
                pos,
                rules,
                v,
                max_pos,
                fuel1,
                fuel2,
            );
        },
    }
}

/// Budget independence of [`spec_eval_second`], as in
/// [`lemma_spec_eval_fuel_mono`].
pub proof fn lemma_spec_eval_second_fuel_mono<I, T, V, S, P, R, O>(
    input: &I,
    pos: int,
    rules: &R,
    variable: V,
    second: E<T, V>,
    max_pos: int,
    fuel1: nat,
    fuel2: nat,
)
    where
    I: Input + ?Sized,
    T: Terminal<I, V, S, P, O>,
    V: Variable,
    S: Span<I, P>,
    P: Position,
    R: Rules<T, V>,
    O: Output<I, V, S>,

    requires
        fuel1 <= fuel2,
        spec_eval_second::<I, T, V, S, P, R, O>(
            input,
            pos,
            rules,
            variable,
            second,
            max_pos,
            fuel1,
        ) != Err::<AST<V, S, O>, ParseError<V, S, O>>(ParseError::DepthLimit),
    ensures
        spec_eval_second::<I, T, V, S, P, R, O>(input, pos, rules, variable, second, max_pos, fuel2)
            == spec_eval_second::<I, T, V, S, P, R, O>(
            input,
            pos,
            rules,
            variable,
            second,
            max_pos,
            fuel1,
        ),
    decreases fuel1, 2int,
{
    match second {
        E::T(_) => {},
        E::V(v) => {
            lemma_spec_eval_fuel_mono::<I, T, V, S, P, R, O>(
                input,
                pos,
                rules,
                v,
                max_pos,
                fuel1,
                fuel2,
            );
        },
    }
}

/// The merge precondition, in general: the right operand of a sequence
/// alternative is evaluated exactly at the end of the left operand's
/// matched span, and every successful sub-result starts at the position it
/// was evaluated at — so whenever the evaluator merges two spans, the left
/// one ends where the right one begins.
pub proof fn lemma_merge_precondition<I, T, V, S, P, R, O>(
    input: &I,
    pos: int,
    rules: &R,
    lhs: E<T, V>,
    rhs: E<T, V>,
    max_pos: int,
    fuel: nat,
)
    where
    I: Input + ?Sized,
    T: Terminal<I, V, S, P, O>,
    V: Variable,
    S: Span<I, P>,
    P: Position,
    R: Rules<T, V>,
    O: Output<I, V, S>,

    requires
        0 <= pos <= max_pos <= P::max_pos_val(),
        S::len_fits(max_pos - pos),
    ensures
        match spec_eval_e::<I, T, V, S, P, R, O>(input, pos, rules, lhs, max_pos, fuel) {
            Ok(l) => match spec_eval_e::<I, T, V, S, P, R, O>(
                input,
                l.span.lo_val() + l.span.size_val(),
                rules,
                rhs,
                max_pos,
                fuel,
            ) {
                Ok(r) => l.span.lo_val() + l.span.size_val() == r.span.lo_val(),
                Err(_) => true,
            },
            Err(_) => true,
        },
{
    lemma_spec_eval_e_spans::<I, T, V, S, P, R, O>(input, pos, rules, lhs, max_pos, fuel);
    match spec_eval_e::<I, T, V, S, P, R, O>(input, pos, rules, lhs, max_pos, fuel) {
        Ok(l) => {
            let rpos = l.span.lo_val() + l.span.size_val();
            S::lemma_len_fits_mono(max_pos - pos, max_pos - rpos);
            lemma_spec_eval_e_spans::<I, T, V, S, P, R, O>(input, rpos, rules, rhs, max_pos, fuel);
        },
        Err(_) => {},
    }
}

/// Whether a rule table binds every variable.
pub open spec fn rules_total<T, V, R>(rules: &R) -> bool where V: Variable, R: Rules<T, V> {
    forall|v: V| (#[trigger] rules.rule_of(v)) is Some
}

/// Against a total rule table, no evaluation reports a missing rule: that
/// error marks a malformed table, never an input.
pub proof fn lemma_spec_eval_total<I, T, V, S, P, R, O>(
    input: &I,
    pos: int,
    rules: &R,
    variable: V,
    max_pos: int,
    fuel: nat,
)
    where
    I: Input + ?Sized,
    T: Terminal<I, V, S, P, O>,
    V: Variable,
    S: Span<I, P>,
    P: Position,
    R: Rules<T, V>,
    O: Output<I, V, S>,

    requires
        rules_total::<T, V, R>(rules),
    ensures
        !(spec_eval::<I, T, V, S, P, R, O>(input, pos, rules, variable, max_pos, fuel) matches Err(
            ParseError::MissingRule(_),
        )),
    decreases fuel, 0int,
{
    if fuel > 0 {
        match rules.rule_of(variable) {
            None => {},
            Some(rule) => {
                let sub = (fuel - 1) as nat;
                lemma_spec_eval_e_total::<I, T, V, S, P, R, O>(
                    input,
                    pos,
                    rules,
                    rule.first.lhs,
                    max_pos,
                    sub,
                );
                match spec_eval_e::<I, T, V, S, P, R, O>(
                    input,
                    pos,
                    rules,
                    rule.first.lhs,
                    max_pos,
                    sub,
                ) {
                    Ok(l) => {
                        let rpos = l.span.lo_val() + l.span.size_val();
                        lemma_spec_eval_e_total::<I, T, V, S, P, R, O>(
                            input,
                            rpos,
                            rules,
                            rule.first.rhs,
                            max_pos,
                            sub,
                        );
                        lemma_spec_eval_second_total::<I, T, V, S, P, R, O>(
                            input,
                            pos,
                            rules,
                            variable,
                            rule.second.0,
                            max_pos,
                            sub,
                        );
                    },
                    Err(_) => {
                        lemma_spec_eval_second_total::<I, T, V, S, P, R, O>(
                            input,
                            pos,
                            rules,
                            variable,
                            rule.second.0,
                            max_pos,
                            sub,
                        );
                    },
                }
            },
        }
    }
}

/// Totality of [`spec_eval_e`], as in [`lemma_spec_eval_total`].
pub proof fn lemma_spec_eval_e_total<I, T, V, S, P, R, O>(
    input: &I,
    pos: int,
    rules: &R,
    e: E<T, V>,
    max_pos: int,
    fuel: nat,
)
    where
    I: Input + ?Sized,
    T: Terminal<I, V, S, P, O>,
    V: Variable,
    S: Span<I, P>,
    P: Position,
    R: Rules<T, V>,
    O: Output<I, V, S>,

    requires
        rules_total::<T, V, R>(rules),
    ensures
        !(spec_eval_e::<I, T, V, S, P, R, O>(input, pos, rules, e, max_pos, fuel) matches Err(
            ParseError::MissingRule(_),
        )),
    decreases fuel, 1int,
{
    match e {
        E::T(_) => {},
        E::V(v) => {
            lemma_spec_eval_total::<I, T, V, S, P, R, O>(input, pos, rules, v, max_pos, fuel);
        },
    }
}

/// Totality of [`spec_eval_second`], as in [`lemma_spec_eval_total`].
pub proof fn lemma_spec_eval_second_total<I, T, V, S, P, R, O>(
    input: &I,
    pos: int,
    rules: &R,
    variable: V,
    second: E<T, V>,
    max_pos: int,
    fuel: nat,
)
    where
    I: Input + ?Sized,
    T: Terminal<I, V, S, P, O>,
    V: Variable,
    S: Span<I, P>,
    P: Position,
    R: Rules<T, V>,
    O: Output<I, V, S>,

    requires
        rules_total::<T, V, R>(rules),
    ensures
        !(spec_eval_second::<I, T, V, S, P, R, O>(
            input,
            pos,
            rules,
            variable,
            second,
            max_pos,
            fuel,
        ) matches Err(ParseError::MissingRule(_))),
    decreases fuel, 2int,
{
    match second {
        E::T(_) => {},
        E::V(v) => {
            lemma_spec_eval_total::<I, T, V, S, P, R, O>(input, pos, rules, v, max_pos, fuel);
        },
    }
}

/// Parsing is a function of the grammar, the input, the start variable and
/// the span: the model pins every run to the same value, so parsing the
/// same pair twice yields structurally identical trees.
pub proof fn lemma_parse_deterministic<I, T, V, S, P, R, O>(
    input: &I,
    rules: &R,
    start_variable: V,
    all_of_the_span: S,
    budget: nat,
    r1: Result<AST<V, S, O>, ParseError<V, S, O>>,
    r2: Result<AST<V, S, O>, ParseError<V, S, O>>,
)
    where
    I: Input + ?Sized,
    T: Terminal<I, V, S, P, O>,
    V: Variable,
    S: Span<I, P>,
    P: Position,
    R: Rules<T, V>,
    O: Output<I, V, S>,

    requires
        r1 == spec_minimal_parse::<I, T, V, S, P, R, O>(
            input,
            rules,
            start_variable,
            all_of_the_span,
            budget,
        ),
        r2 == spec_minimal_parse::<I, T, V, S, P, R, O>(
            input,
            rules,
            start_variable,
            all_of_the_span,
            budget,
        ),
    ensures
        r1 == r2,
{
}

/// The successful match of `Empty` at `pos`, as a tree.
fn meta_empty_ast<I, T, V, S, P, O>(input: &I, pos: P) -> (r: Result<AST<V, S, O>, AST<V, S, O>>)
    where
    I: Input + ?Sized,
    T: Terminal<I, V, S, P, O>,
    V: Variable,
    S: Span<I, P>,
    P: Position,

    ensures
        r == Ok::<AST<V, S, O>, AST<V, S, O>>(
            spec_meta_leaf::<I, V, S, P, O>(Metasymbol::Empty, pos.pos_val(), 0),
        ),
{
    proof {
        pos.lemma_pos_val_in_range();
        S::lemma_len_fits_zero();
    }
    let span = S::from_lo_hi(pos, pos, input);
    proof {
        S::lemma_spec_span_vals(pos.pos_val(), 0);
        S::lemma_span_injective(span, S::spec_span(pos.pos_val(), 0));
    }
    Ok(AST::from_leaf(TerminalSymbol::Metasymbol(Metasymbol::Empty), span))
}

/// The failed match of `Failure` at `pos`, as a tree.
fn meta_failure_ast<I, T, V, S, P, O>(input: &I, pos: P) -> (r: Result<
    AST<V, S, O>,
    AST<V, S, O>,
>)
    where
    I: Input + ?Sized,
    T: Terminal<I, V, S, P, O>,
    V: Variable,
    S: Span<I, P>,
    P: Position,

    ensures
        r == Err::<AST<V, S, O>, AST<V, S, O>>(
            spec_meta_leaf::<I, V, S, P, O>(Metasymbol::Failure, pos.pos_val(), 0),
        ),
{
    proof {
        pos.lemma_pos_val_in_range();
        S::lemma_len_fits_zero();
    }
    let span = S::from_lo_hi(pos, pos, input);
    proof {
        S::lemma_spec_span_vals(pos.pos_val(), 0);
        S::lemma_span_injective(span, S::spec_span(pos.pos_val(), 0));
    }
    Err(AST::from_leaf(TerminalSymbol::Metasymbol(Metasymbol::Failure), span))
}

/// The match of `Any(n)` at `pos`, as a tree.
fn meta_any_ast<I, T, V, S, P, O>(input: &I, pos: P, max_pos: &P, n: usize) -> (r: Result<
    AST<V, S, O>,
    AST<V, S, O>,
>)
    where
    I: Input + ?Sized,
    T: Terminal<I, V, S, P, O>,
    V: Variable,
    S: Span<I, P>,
    P: Position,

    requires
        pos.pos_val() <= max_pos.pos_val(),
        S::len_fits(max_pos.pos_val() - pos.pos_val()),
    ensures
        r == spec_eval_terminal_symbol::<I, T, V, S, P, O>(
            TerminalSymbol::Metasymbol(Metasymbol::Any(n)),
            input,
            pos.pos_val(),
            max_pos.pos_val(),
        ),
{
    proof {
        pos.lemma_pos_val_in_range();
        max_pos.lemma_pos_val_in_range();
        S::lemma_len_fits_zero();
    }
    match S::checked_from_lo_len(pos, n, input) {
        Some(span) => {
            proof {
                S::lemma_spec_span_vals(pos.pos_val(), n as int);
                S::lemma_span_injective(span, S::spec_span(pos.pos_val(), n as int));
            }
            let hi = span.hi(input);
            let ast = AST::from_leaf(TerminalSymbol::Metasymbol(Metasymbol::Any(n)), span);
            if hi.pos_le(max_pos) {
                Ok(ast)
            } else {
                Err(ast)
            }
        },
        None => {
            let span = S::from_lo_hi(pos, pos, input);
            proof {
                if pos.pos_val() + n as int <= max_pos.pos_val() {
                    S::lemma_len_fits_mono(max_pos.pos_val() - pos.pos_val(), n as int);
                }
                S::lemma_spec_span_vals(pos.pos_val(), 0);
                S::lemma_span_injective(span, S::spec_span(pos.pos_val(), 0));
            }
            Err(AST::from_leaf(TerminalSymbol::Metasymbol(Metasymbol::Any(n)), span))
        },
    }
}

/// The successful match of `All` at `pos`, as a tree.
fn meta_all_ast<I, T, V, S, P, O>(input: &I, pos: P, max_pos: P) -> (r: Result<
    AST<V, S, O>,
    AST<V, S, O>,
>)
    where
    I: Input + ?Sized,
    T: Terminal<I, V, S, P, O>,
    V: Variable,
    S: Span<I, P>,
    P: Position,

    requires
        pos.pos_val() <= max_pos.pos_val(),
        S::len_fits(max_pos.pos_val() - pos.pos_val()),
    ensures
        r == Ok::<AST<V, S, O>, AST<V, S, O>>(
            spec_meta_leaf::<I, V, S, P, O>(
                Metasymbol::All,
                pos.pos_val(),
                max_pos.pos_val() - pos.pos_val(),
            ),
        ),
{
    proof {
        pos.lemma_pos_val_in_range();
        max_pos.lemma_pos_val_in_range();
    }
    let span = S::from_lo_hi(pos, max_pos, input);
    proof {
        S::lemma_spec_span_vals(pos.pos_val(), max_pos.pos_val() - pos.pos_val());
        S::lemma_span_injective(
            span,
            S::spec_span(pos.pos_val(), max_pos.pos_val() - pos.pos_val()),
        );
    }
    Ok(AST::from_leaf(TerminalSymbol::Metasymbol(Metasymbol::All), span))
}

/// Matches one terminal symbol at `pos`: an original terminal through its
/// [`Terminal`] implementation, a metasymbol directly.
pub fn eval_terminal_symbol<I, T, V, S, P, O>(
    input: &I,
    terminal_symbol: &TerminalSymbol<T>,
    pos: P,
    max_pos: &P,
) -> (r: Result<AST<V, S, O>, AST<V, S, O>>)
    where
    I: Input + ?Sized,
    T: Terminal<I, V, S, P, O>,
    V: Variable,
    S: Span<I, P>,
    P: Position,

    requires
        pos.pos_val() <= max_pos.pos_val(),
        S::len_fits(max_pos.pos_val() - pos.pos_val()),
        !(*terminal_symbol == TerminalSymbol::<T>::Metasymbol(Metasymbol::Omit)),
    ensures
        r == spec_eval_terminal_symbol::<I, T, V, S, P, O>(
            *terminal_symbol,
            input,
            pos.pos_val(),
            max_pos.pos_val(),
        ),
{
    match terminal_symbol {
        TerminalSymbol::Original(t) => t.eval(input, pos, max_pos),
        TerminalSymbol::Metasymbol(metasymbol) => match metasymbol {
            Metasymbol::Empty => meta_empty_ast::<I, T, V, S, P, O>(input, pos),
            Metasymbol::Failure => meta_failure_ast::<I, T, V, S, P, O>(input, pos),
            Metasymbol::Any(n) => meta_any_ast::<I, T, V, S, P, O>(input, pos, max_pos, *n),
            Metasymbol::All => meta_all_ast::<I, T, V, S, P, O>(input, pos, *max_pos),
            Metasymbol::Omit => unreached(),
        },
    }
}


/// Evaluates `variable` at `pos`, bounded by `max_pos`, with a recursion
/// budget of `depth` calls: the recursive heart of the engine, shared by
/// every [`Parse`] implementation.
pub fn eval<I, T, V, S, P, R, O>(
    input: &I,
    pos: &P,
    rules: &R,
    variable: &V,
    max_pos: &P,
    depth: usize,
) -> (r: Result<AST<V, S, O>, ParseError<V, S, O>>)
    where
    I: Input + ?Sized,
    T: Terminal<I, V, S, P, O>,
    V: Variable,
    S: Span<I, P>,
    P: Position,
    R: Rules<T, V>,
    O: Output<I, V, S>,

    requires
        pos.pos_val() <= max_pos.pos_val(),
        S::len_fits(max_pos.pos_val() - pos.pos_val()),
        rules_no_omit::<T, V, R>(rules),
    ensures
        r == spec_eval::<I, T, V, S, P, R, O>(
            input,
            pos.pos_val(),
            rules,
            *variable,
            max_pos.pos_val(),
            depth as nat,
        ),
    decreases depth,
{
    proof {
        pos.lemma_pos_val_in_range();
        max_pos.lemma_pos_val_in_range();
    }
    if depth == 0 {
        return Err(ParseError::DepthLimit);
    }
    let rule = match rules.get(variable) {
        Some(rule) => rule,
        None => {
            return Err(ParseError::MissingRule(*variable));
        },
    };
    let ghost sub = (depth - 1) as nat;

    // First choice: the left operand at `pos` ...
    let left: Result<AST<V, S, O>, ParseError<V, S, O>> = match &rule.first.lhs {
        E::T(ts) => match eval_terminal_symbol(input, ts, *pos, max_pos) {
            Ok(a) => Ok(a),
            Err(a) => Err(ParseError::Failure(a)),
        },
        E::V(v) => eval(input, pos, rules, v, max_pos, depth - 1),
    };
    proof {
        assert(left == spec_eval_e::<I, T, V, S, P, R, O>(
            input,
            pos.pos_val(),
            rules,
            rule.first.lhs,
            max_pos.pos_val(),
            sub,
        ));
        lemma_spec_eval_e_spans::<I, T, V, S, P, R, O>(
            input,
            pos.pos_val(),
            rules,
            rule.first.lhs,
            max_pos.pos_val(),
            sub,
        );
    }
    let first_try: Option<Result<AST<V, S, O>, ParseError<V, S, O>>> = match left {
        Ok(l) => {
            // ... then the right operand at the end of its span.
            let rpos = l.span.hi(input);
            proof {
                S::lemma_len_fits_mono(
                    max_pos.pos_val() - pos.pos_val(),
                    max_pos.pos_val() - rpos.pos_val(),
                );
            }
            let right: Result<AST<V, S, O>, ParseError<V, S, O>> = match &rule.first.rhs {
                E::T(ts) => match eval_terminal_symbol(input, ts, rpos, max_pos) {
                    Ok(a) => Ok(a),
                    Err(a) => Err(ParseError::Failure(a)),
                },
                E::V(v) => eval(input, &rpos, rules, v, max_pos, depth - 1),
            };
            proof {
                assert(right == spec_eval_e::<I, T, V, S, P, R, O>(
                    input,
                    rpos.pos_val(),
                    rules,
                    rule.first.rhs,
                    max_pos.pos_val(),
                    sub,
                ));
                lemma_spec_eval_e_spans::<I, T, V, S, P, R, O>(
                    input,
                    rpos.pos_val(),
                    rules,
                    rule.first.rhs,
                    max_pos.pos_val(),
                    sub,
                );
            }
            match right {
                Ok(rast) => {
                    proof {
                        S::lemma_len_fits_mono(
                            max_pos.pos_val() - pos.pos_val(),
                            l.span.size_val() + rast.span.size_val(),
                        );
                    }
                    let merged = S::merge_lhs_and_rhs(&l.span, &rast.span, input);
                    proof {
                        S::lemma_spec_span_vals(
                            pos.pos_val(),
                            l.span.size_val() + rast.span.size_val(),
                        );
                        S::lemma_span_injective(
                            merged,
                            S::spec_span(
                                pos.pos_val(),
                                l.span.size_val() + rast.span.size_val(),
                            ),
                        );
                    }
                    let cst = CST::new(
                        Equivalence::new(*variable, Choice::First(First::new(l, rast))),
                        merged,
                    );
                    let out = O::output_ast(input, cst);
                    Some(Ok(out))
                },
                Err(ParseError::Failure(_)) => None,
                Err(e) => Some(Err(e)),
            }
        },
        Err(ParseError::Failure(_)) => None,
        Err(e) => Some(Err(e)),
    };
    if let Some(result) = first_try {
        return result;
    }
    // Second choice, at the original `pos`.
    match &rule.second.0 {
        E::T(ts) => match eval_terminal_symbol(input, ts, *pos, max_pos) {
            Ok(a) => {
                let span = a.span;
                let cst = CST::new(
                    Equivalence::new(*variable, Choice::Second(Second::new(a))),
                    span,
                );
                let out = O::output_ast(input, cst);
                Ok(out)
            },
            Err(a) => Err(ParseError::Failure(a)),
        },
        E::V(v) => {
            match eval(input, pos, rules, v, max_pos, depth - 1) {
                Ok(ast) => {
                    let span = ast.span;
                    let cst = CST::new(
                        Equivalence::new(*variable, Choice::Second(Second::new(ast))),
                        span,
                    );
                    let out = O::output_ast(input, cst);
                    Ok(out)
                },
                Err(e) => Err(e),
            }
        },
    }
}

/// Types that can be parsed.
///
/// `T` is the terminal alphabet, `V` the variables, `S` the span type over
/// positions `P`, `R` the rule table, and `O` the consumer's output domain.
pub trait Parse<T, V, S, P, R, O>: Input where
    T: Terminal<Self, V, S, P, O>,
    V: Variable,
    S: Span<Self, P>,
    P: Position,
    R: Rules<T, V>,
    O: Output<Self, V, S>,
 {
    /// Parses the whole of `all_of_the_span` as `start_variable`.
    ///
    /// Succeeds exactly when the evaluation of the start variable succeeds
    /// and its tree consumed the requested span in its entirety: a grammar
    /// that matches only a strict prefix fails.
    fn minimal_parse(&self, rules: &R, start_variable: &V, all_of_the_span: &S) -> (r: Result<
        AST<V, S, O>,
        ParseError<V, S, O>,
    >)
        requires
            all_of_the_span.wf_span(),
            rules_no_omit::<T, V, R>(rules),
        ensures
            r == spec_minimal_parse::<Self, T, V, S, P, R, O>(
                self,
                rules,
                *start_variable,
                *all_of_the_span,
                spec_parse_budget(rules.spec_rule_count(), all_of_the_span.size_val()),
            ),
            r matches Ok(ast) ==> ast.span.lo_val() == all_of_the_span.lo_val()
                && ast.span.size_val() == all_of_the_span.size_val(),
    {
        proof {
            all_of_the_span.lemma_span_vals_in_range();
        }
        let lo = all_of_the_span.lo(self);
        let hi = all_of_the_span.hi(self);
        let size = all_of_the_span.size(self);
        let rule_count = rules.rule_count();
        let a = match size.checked_add(2) {
            Some(a) => a,
            None => usize::MAX,
        };
        let b = match rule_count.checked_add(1) {
            Some(b) => b,
            None => usize::MAX,
        };
        let budget = match a.checked_mul(b) {
            Some(p) => p,
            None => usize::MAX,
        };
        proof {
            assert(budget as nat == spec_parse_budget(
                rules.spec_rule_count(),
                all_of_the_span.size_val(),
            ));
        }
        let ast = match eval(self, &lo, rules, start_variable, &hi, budget) {
            Ok(ast) => ast,
            Err(e) => {
                return Err(e);
            },
        };
        if ast.span.eq_span(all_of_the_span) {
            Ok(ast)
        } else {
            Err(ParseError::Failure(ast))
        }
    }

    /// Evaluates `variable` at `pos`, bounded by `max_pos`, with a recursion
    /// budget of `depth` calls.
    ///
    /// The sequence alternative is always attempted before the fallback
    /// alternative; there is no other tie-break.  The right operand of the
    /// sequence starts at the end of the left operand's matched span, and
    /// the two spans are merged on success.
    fn eval(&self, pos: &P, rules: &R, variable: &V, max_pos: &P, depth: usize) -> (r: Result<
        AST<V, S, O>,
        ParseError<V, S, O>,
    >)
        requires
            pos.pos_val() <= max_pos.pos_val(),
            S::len_fits(max_pos.pos_val() - pos.pos_val()),
            rules_no_omit::<T, V, R>(rules),
        ensures
            r == spec_eval::<Self, T, V, S, P, R, O>(
                self,
                pos.pos_val(),
                rules,
                *variable,
                max_pos.pos_val(),
                depth as nat,
            ),
    {
        eval(self, pos, rules, variable, max_pos, depth)
    }

    /// Matches one terminal symbol at `pos`: an original terminal through
    /// its [`Terminal`] implementation, a metasymbol directly.
    fn eval_terminal_symbol(&self, terminal_symbol: &TerminalSymbol<T>, pos: P, max_pos: &P) -> (r:
        Result<AST<V, S, O>, AST<V, S, O>>)
        requires
            pos.pos_val() <= max_pos.pos_val(),
            S::len_fits(max_pos.pos_val() - pos.pos_val()),
            !(*terminal_symbol == TerminalSymbol::<T>::Metasymbol(Metasymbol::Omit)),
        ensures
            r == spec_eval_terminal_symbol::<Self, T, V, S, P, O>(
                *terminal_symbol,
                self,
                pos.pos_val(),
                max_pos.pos_val(),
            ),
    {
        eval_terminal_symbol(self, terminal_symbol, pos, max_pos)
    }

    /// The successful match of `Empty`: a zero-length span at `pos`, never
    /// advancing the cursor.
    fn to_empty_ast(&self, pos: P) -> (r: Result<AST<V, S, O>, AST<V, S, O>>)
        ensures
            r == Ok::<AST<V, S, O>, AST<V, S, O>>(
                spec_meta_leaf::<Self, V, S, P, O>(Metasymbol::Empty, pos.pos_val(), 0),
            ),
            r matches Ok(a) && a.span.lo_val() == pos.pos_val() && a.span.size_val() == 0,
    {
        let r = meta_empty_ast::<Self, T, V, S, P, O>(self, pos);
        proof {
            pos.lemma_pos_val_in_range();
            S::lemma_len_fits_zero();
            S::lemma_spec_span_vals(pos.pos_val(), 0);
        }
        r
    }

    /// The failed match of `Failure`: fails at every position, with a
    /// zero-length span at `pos`.
    fn to_failure_ast(&self, pos: P) -> (r: Result<AST<V, S, O>, AST<V, S, O>>)
        ensures
            r == Err::<AST<V, S, O>, AST<V, S, O>>(
                spec_meta_leaf::<Self, V, S, P, O>(Metasymbol::Failure, pos.pos_val(), 0),
            ),
            r matches Err(a) && a.span.lo_val() == pos.pos_val() && a.span.size_val() == 0,
    {
        let r = meta_failure_ast::<Self, T, V, S, P, O>(self, pos);
        proof {
            pos.lemma_pos_val_in_range();
            S::lemma_len_fits_zero();
            S::lemma_spec_span_vals(pos.pos_val(), 0);
        }
        r
    }

    /// The match of `Any(n)`: succeeds exactly when `pos + n <= max_pos`,
    /// consuming `n` units; fails otherwise over the attempted span
    /// `[pos, pos + n)`, clamped to zero length when not representable.
    fn to_any_ast(&self, pos: P, max_pos: &P, n: usize) -> (r: Result<AST<V, S, O>, AST<V, S, O>>)
        requires
            pos.pos_val() <= max_pos.pos_val(),
            S::len_fits(max_pos.pos_val() - pos.pos_val()),
        ensures
            r == spec_eval_terminal_symbol::<Self, T, V, S, P, O>(
                TerminalSymbol::Metasymbol(Metasymbol::Any(n)),
                self,
                pos.pos_val(),
                max_pos.pos_val(),
            ),
            r is Ok <==> pos.pos_val() + n as int <= max_pos.pos_val(),
            r matches Ok(a) ==> a.span.lo_val() == pos.pos_val() && a.span.size_val() == n as int,
            r matches Err(a) ==> a.span.lo_val() == pos.pos_val(),
    {
        let r = meta_any_ast::<Self, T, V, S, P, O>(self, pos, max_pos, n);
        proof {
            pos.lemma_pos_val_in_range();
            max_pos.lemma_pos_val_in_range();
            S::lemma_len_fits_zero();
            S::lemma_spec_span_vals(pos.pos_val(), 0);
            if pos.pos_val() + n as int <= max_pos.pos_val() {
                S::lemma_len_fits_mono(max_pos.pos_val() - pos.pos_val(), n as int);
                S::lemma_spec_span_vals(pos.pos_val(), n as int);
            } else if S::len_fits(n as int) && pos.pos_val() + n as int <= P::max_pos_val() {
                S::lemma_spec_span_vals(pos.pos_val(), n as int);
            }
        }
        r
    }

    /// The successful match of `All`: always succeeds, consuming everything
    /// up to the bound, the empty case `pos == max_pos` included.
    fn to_all_ast(&self, pos: P, max_pos: P) -> (r: Result<AST<V, S, O>, AST<V, S, O>>)
        requires
            pos.pos_val() <= max_pos.pos_val(),
            S::len_fits(max_pos.pos_val() - pos.pos_val()),
        ensures
            r == Ok::<AST<V, S, O>, AST<V, S, O>>(
                spec_meta_leaf::<Self, V, S, P, O>(
                    Metasymbol::All,
                    pos.pos_val(),
                    max_pos.pos_val() - pos.pos_val(),
                ),
            ),
            r matches Ok(a) && a.span.lo_val() == pos.pos_val() && a.span.size_val()
                == max_pos.pos_val() - pos.pos_val(),
    {
        let r = meta_all_ast::<Self, T, V, S, P, O>(self, pos, max_pos);
        proof {
            pos.lemma_pos_val_in_range();
            max_pos.lemma_pos_val_in_range();
            S::lemma_spec_span_vals(pos.pos_val(), max_pos.pos_val() - pos.pos_val());
        }
        r
    }
}

} // verus!
