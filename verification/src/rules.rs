//! Rules
//!
//! The rule model: exactly one rule `A = B C / D` per variable, and the
//! lookup contract [`Rules`] that the evaluator drives.  Lookups are
//! modelled by the map [`Rules::rule_of`]; a variable that is reachable but
//! absent from the table is a configuration error, never a soft parse
//! failure.

use crate::choices::{First, Second};
use crate::symbols::{Equivalence, Metasymbol, TerminalSymbol, Variable, E};
use vstd::prelude::*;

verus! {

/// The right-hand side of a rule: the sequence alternative `first` and the
/// fallback alternative `second`.
#[derive(Clone, Debug, PartialEq)]
pub struct RightRule<T, V> {
    pub first: First<E<T, V>>,
    pub second: Second<E<T, V>>,
}

impl<T, V> RightRule<T, V> {
    /// Pairs the two alternatives of a rule.
    pub fn new(first: First<E<T, V>>, second: Second<E<T, V>>) -> (r: Self)
        ensures
            r.first == first,
            r.second == second,
    {
        RightRule { first, second }
    }

    /// Builds a rule from the kind of each of its three operands.
    pub fn from_right_rule_kind(
        first: (RightRuleKind<T, V>, RightRuleKind<T, V>),
        second: RightRuleKind<T, V>,
    ) -> (r: Self)
        ensures
            r.first.lhs == spec_e_of_kind(first.0),
            r.first.rhs == spec_e_of_kind(first.1),
            r.second.0 == spec_e_of_kind(second),
    {
        RightRule {
            first: First::new(E::from(first.0), E::from(first.1)),
            second: Second::new(E::from(second)),
        }
    }
}

/// A shorthand for one operand of a rule, used when building rule tables.
pub enum RightRuleKind<T, V> {
    Empty,
    Failure,
    Any(usize),
    All,
    T(T),
    V(V),
}

/// The expression atom a [`RightRuleKind`] stands for.
pub open spec fn spec_e_of_kind<T, V>(kind: RightRuleKind<T, V>) -> E<T, V> {
    match kind {
        RightRuleKind::Empty => E::T(TerminalSymbol::Metasymbol(Metasymbol::Empty)),
        RightRuleKind::Failure => E::T(TerminalSymbol::Metasymbol(Metasymbol::Failure)),
        RightRuleKind::Any(n) => E::T(TerminalSymbol::Metasymbol(Metasymbol::Any(n))),
        RightRuleKind::All => E::T(TerminalSymbol::Metasymbol(Metasymbol::All)),
        RightRuleKind::T(t) => E::T(TerminalSymbol::Original(t)),
        RightRuleKind::V(v) => E::V(v),
    }
}

impl<T, V> From<RightRuleKind<T, V>> for E<T, V> {
    fn from(kind: RightRuleKind<T, V>) -> (r: Self) {
        match kind {
            RightRuleKind::Empty => E::T(TerminalSymbol::Metasymbol(Metasymbol::Empty)),
            RightRuleKind::Failure => E::T(TerminalSymbol::Metasymbol(Metasymbol::Failure)),
            RightRuleKind::Any(n) => E::T(TerminalSymbol::Metasymbol(Metasymbol::Any(n))),
            RightRuleKind::All => E::T(TerminalSymbol::Metasymbol(Metasymbol::All)),
            RightRuleKind::T(t) => E::T(TerminalSymbol::Original(t)),
            RightRuleKind::V(v) => E::V(v),
        }
    }
}

impl<T, V> vstd::std_specs::convert::FromSpecImpl<RightRuleKind<T, V>> for E<T, V> {
    open spec fn obeys_from_spec() -> bool {
        true
    }

    open spec fn from_spec(kind: RightRuleKind<T, V>) -> Self {
        spec_e_of_kind(kind)
    }
}

/// A named rule: a variable together with its right-hand side.
pub type Rule<T, V> = Equivalence<V, RightRule<T, V>>;

/// Whether an expression atom is free of the internal `Omit` marker, which
/// may not appear in a rule.
pub open spec fn e_no_omit<T, V>(e: E<T, V>) -> bool {
    !(e == E::<T, V>::T(TerminalSymbol::Metasymbol(Metasymbol::Omit)))
}

/// Whether a rule is free of the internal `Omit` marker.
pub open spec fn rule_no_omit<T, V>(rule: RightRule<T, V>) -> bool {
    e_no_omit(rule.first.lhs) && e_no_omit(rule.first.rhs) && e_no_omit(rule.second.0)
}

/// Rules types: a total lookup from variables to their rules.
pub trait Rules<T, V>: Sized where V: Variable {
    /// The rule of each variable, or `None` where the table has no entry.
    spec fn rule_of(&self, variable: V) -> Option<RightRule<T, V>>;

    /// How many entries the table holds; only used to size the evaluator's
    /// recursion budget.
    spec fn spec_rule_count(&self) -> int;

    /// Looks a variable's rule up.
    fn get(&self, variable: &V) -> (r: Option<&RightRule<T, V>>)
        ensures
            match r {
                Some(rule) => self.rule_of(*variable) == Some(*rule),
                None => self.rule_of(*variable) is None,
            },
    ;

    /// The number of entries in the table.
    fn rule_count(&self) -> (n: usize)
        ensures
            n == self.spec_rule_count(),
    ;
}

/// Whether every rule of a table is free of the internal `Omit` marker.
pub open spec fn rules_no_omit<T, V, R>(rules: &R) -> bool where V: Variable, R: Rules<T, V> {
    forall|v: V|
        match #[trigger] rules.rule_of(v) {
            Some(rule) => rule_no_omit(rule),
            None => true,
        }
}

/// The rule of a variable within a sequence of bindings; a later binding
/// shadows an earlier one, as a map insert would.
pub open spec fn seq_rule_of<T, V>(entries: Seq<(V, RightRule<T, V>)>, variable: V) -> Option<
    RightRule<T, V>,
>
    decreases entries.len(),
{
    if entries.len() == 0 {
        None
    } else if entries.last().0 == variable {
        Some(entries.last().1)
    } else {
        seq_rule_of(entries.drop_last(), variable)
    }
}

/// The default rule table: one binding per inserted variable, looked up by
/// equality on the variable.
#[derive(Clone, Debug, PartialEq)]
pub struct RuleSet<T, V> {
    entries: Vec<(V, RightRule<T, V>)>,
}

impl<T, V> RuleSet<T, V> where V: Variable {
    /// The empty table.
    pub fn new() -> (r: Self)
        ensures
            forall|v: V| #[trigger] r.rule_of(v) is None,
            r.spec_rule_count() == 0,
    {
        let r = RuleSet { entries: Vec::new() };
        proof {
            assert forall|v: V| #[trigger] r.rule_of(v) is None by {
                reveal_with_fuel(seq_rule_of, 1);
            }
        }
        r
    }

    /// Binds a variable to its rule, shadowing any earlier binding.
    pub fn insert(&mut self, variable: V, rule: RightRule<T, V>)
        ensures
            final (self).rule_of(variable) == Some(rule),
            forall|w: V|
                w != variable ==> #[trigger] final (self).rule_of(w) == old(self).rule_of(w),
            final (self).spec_rule_count() == old(self).spec_rule_count() + 1,
    {
        self.entries.push((variable, rule));
        proof {
            assert forall|w: V| w != variable implies #[trigger] self.rule_of(w) == old(
                self,
            ).rule_of(w) by {
                reveal_with_fuel(seq_rule_of, 2);
                assert(self.entries@.drop_last() =~= old(self).entries@);
            }
            reveal_with_fuel(seq_rule_of, 2);
            assert(self.entries@.last().0 == variable);
        }
    }

    /// Binds a named rule, shadowing any earlier binding of its variable.
    pub fn insert_rule(&mut self, rule: Rule<T, V>)
        ensures
            final (self).rule_of(rule.value) == Some(rule.equal),
            forall|w: V|
                w != rule.value ==> #[trigger] final (self).rule_of(w) == old(self).rule_of(w),
            final (self).spec_rule_count() == old(self).spec_rule_count() + 1,
    {
        self.insert(rule.value, rule.equal);
    }
}

impl<T, V> Rules<T, V> for RuleSet<T, V> where V: Variable {
    closed spec fn rule_of(&self, variable: V) -> Option<RightRule<T, V>> {
        seq_rule_of(self.entries@, variable)
    }

    closed spec fn spec_rule_count(&self) -> int {
        self.entries@.len() as int
    }

    fn get(&self, variable: &V) -> (r: Option<&RightRule<T, V>>) {
        let ghost all = self.entries@;
        let mut i: usize = self.entries.len();
        proof {
            assert(all.take(i as int) =~= all);
        }
        while i > 0
            invariant
                i <= self.entries.len(),
                self.entries@ == all,
                seq_rule_of(all, *variable) == seq_rule_of(all.take(i as int), *variable),
            decreases i,
        {
            i = i - 1;
            let entry = &self.entries[i];
            proof {
                assert(all.take(i as int + 1).last() == all[i as int]);
                assert(all.take(i as int + 1).drop_last() =~= all.take(i as int));
                reveal_with_fuel(seq_rule_of, 2);
            }
            if entry.0.v_eq(variable) {
                return Some(&entry.1);
            }
        }
        proof {
            assert(all.take(0) =~= Seq::<(V, RightRule<T, V>)>::empty());
            reveal_with_fuel(seq_rule_of, 1);
        }
        None
    }

    fn rule_count(&self) -> (n: usize) {
        self.entries.len()
    }
}

} // verus!
