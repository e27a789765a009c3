//! Trees
//!
//! The two tree shapes of a parse.  A CST node is transient: it pairs a
//! variable with the choice it matched and is handed to the semantic-action
//! hook right away.  An AST node is durable: a leaf (a terminal match,
//! possibly payload-bearing) or an internal node (a variable, an optional
//! computed value, and the chosen children).

use crate::choices::{Choice, First, Second};
use crate::span::Spanned;
use crate::symbols::{Equivalence, Metasymbol, TerminalSymbol};
use vstd::prelude::*;

verus! {

/// A leaf node: a terminal symbol, possibly carrying a payload.
pub type Leaf<O> = TerminalSymbol<O>;

/// An internal node: a variable, an optional computed value, and the chosen
/// children.
pub type Internal<V, S, O> = Equivalence<(V, Option<O>), Box<Choice<AST<V, S, O>>>>;

/// A node of the durable tree.
#[derive(Debug, PartialEq)]
pub enum Node<V, S, O> {
    /// Leaf node
    Leaf(Leaf<O>),
    /// Internal node
    Internal(Internal<V, S, O>),
}

/// The durable result of a parse: a tree of terminal matches and committed
/// reductions, each with its span.
pub type AST<V, S, O> = Spanned<Node<V, S, O>, S>;

/// The transient shape handed to the semantic-action hook: a variable, the
/// choice it matched, and the merged span.
pub type CST<V, S, O> = Spanned<Equivalence<V, Choice<AST<V, S, O>>>, S>;

impl<V, S, O> Internal<V, S, O> {
    /// The internal node for a committed sequence alternative.
    pub fn from_first(value: (V, Option<O>), l: AST<V, S, O>, r: AST<V, S, O>) -> (n: Self)
        ensures
            n.value == value,
            *n.equal == Choice::First(First { lhs: l, rhs: r }),
    {
        Equivalence::new(value, Box::new(Choice::First(First::new(l, r))))
    }

    /// The internal node for a committed fallback alternative.
    pub fn from_second(value: (V, Option<O>), e: AST<V, S, O>) -> (n: Self)
        ensures
            n.value == value,
            *n.equal == Choice::Second(Second(e)),
    {
        Equivalence::new(value, Box::new(Choice::Second(Second::new(e))))
    }

    /// The children of the sequence alternative, if that was committed.
    pub fn as_first(&self) -> (r: Option<&First<AST<V, S, O>>>)
        ensures
            match r {
                Some(first) => *self.equal == Choice::First(*first),
                None => *self.equal is Second,
            },
    {
        self.equal.as_first()
    }

    /// The child of the fallback alternative, if that was committed.
    pub fn as_second(&self) -> (r: Option<&Second<AST<V, S, O>>>)
        ensures
            match r {
                Some(second) => *self.equal == Choice::Second(*second),
                None => *self.equal is First,
            },
    {
        self.equal.as_second()
    }

    /// The children of the sequence alternative, if that was committed.
    pub fn into_first(self) -> (r: Option<First<AST<V, S, O>>>)
        ensures
            match r {
                Some(first) => *self.equal == Choice::First(first),
                None => *self.equal is Second,
            },
    {
        (*self.equal).into_first()
    }

    /// The child of the fallback alternative, if that was committed.
    pub fn into_second(self) -> (r: Option<Second<AST<V, S, O>>>)
        ensures
            match r {
                Some(second) => *self.equal == Choice::Second(second),
                None => *self.equal is First,
            },
    {
        (*self.equal).into_second()
    }
}

impl<V, S, O> Node<V, S, O> {
    /// The leaf, if this node is one.
    pub fn as_leaf(&self) -> (r: Option<&Leaf<O>>)
        ensures
            match r {
                Some(leaf) => *self == Node::<V, S, O>::Leaf(*leaf),
                None => *self is Internal,
            },
    {
        match self {
            Node::Leaf(leaf) => Some(leaf),
            Node::Internal(_) => None,
        }
    }

    /// The internal node, if this node is one.
    pub fn as_internal(&self) -> (r: Option<&Internal<V, S, O>>)
        ensures
            match r {
                Some(internal) => *self == Node::<V, S, O>::Internal(*internal),
                None => *self is Leaf,
            },
    {
        match self {
            Node::Leaf(_) => None,
            Node::Internal(internal) => Some(internal),
        }
    }

    /// The leaf, if this node is one.
    pub fn into_leaf(self) -> (r: Option<Leaf<O>>)
        ensures
            match r {
                Some(leaf) => self == Node::<V, S, O>::Leaf(leaf),
                None => self is Internal,
            },
    {
        match self {
            Node::Leaf(leaf) => Some(leaf),
            Node::Internal(_) => None,
        }
    }

    /// The internal node, if this node is one.
    pub fn into_internal(self) -> (r: Option<Internal<V, S, O>>)
        ensures
            match r {
                Some(internal) => self == Node::<V, S, O>::Internal(internal),
                None => self is Leaf,
            },
    {
        match self {
            Node::Leaf(_) => None,
            Node::Internal(internal) => Some(internal),
        }
    }
}

/// The durable tree a committed reduction turns into, when the hook attaches
/// `output` to it: the same children under the same span, with the variable
/// and the computed value at the root.
pub open spec fn spec_ast_from_cst_and_output<V, S, O>(cst: CST<V, S, O>, output: Option<O>) -> AST<
    V,
    S,
    O,
> {
    Spanned {
        node: Node::Internal(
            Equivalence { value: (cst.node.value, output), equal: Box::new(cst.node.equal) },
        ),
        span: cst.span,
    }
}

impl<V, S, O> AST<V, S, O> {
    /// The tree with a single leaf.
    pub fn from_leaf(leaf: Leaf<O>, span: S) -> (r: Self)
        ensures
            r == (Spanned { node: Node::<V, S, O>::Leaf(leaf), span }),
    {
        Spanned::new(Node::Leaf(leaf), span)
    }

    /// The tree rooted at an internal node.
    pub fn from_internal(internal: Internal<V, S, O>, span: S) -> (r: Self)
        ensures
            r == (Spanned { node: Node::<V, S, O>::Internal(internal), span }),
    {
        Spanned::new(Node::Internal(internal), span)
    }

    /// Turns a completed reduction into a durable node carrying `output`.
    pub fn from_cst_and_output(cst: CST<V, S, O>, output: Option<O>) -> (r: Self)
        ensures
            r == spec_ast_from_cst_and_output(cst, output),
            r.span == cst.span,
    {
        match cst.node.equal {
            Choice::First(first) => Self::from_internal(
                Internal::from_first((cst.node.value, output), first.lhs, first.rhs),
                cst.span,
            ),
            Choice::Second(second) => Self::from_internal(
                Internal::from_second((cst.node.value, output), second.0),
                cst.span,
            ),
        }
    }

    /// Turns a completed reduction into a durable node with no computed
    /// value: the default, shape-preserving semantic action.
    pub fn from_cst(cst: CST<V, S, O>) -> (r: Self)
        ensures
            r == spec_ast_from_cst_and_output(cst, None),
            r.span == cst.span,
    {
        Self::from_cst_and_output(cst, None)
    }

    /// The leaf at the root, if there is one.
    pub fn as_leaf(&self) -> (r: Option<&Leaf<O>>)
        ensures
            match r {
                Some(leaf) => self.node == Node::<V, S, O>::Leaf(*leaf),
                None => self.node is Internal,
            },
    {
        self.node.as_leaf()
    }

    /// The internal node at the root, if there is one.
    pub fn as_internal(&self) -> (r: Option<&Internal<V, S, O>>)
        ensures
            match r {
                Some(internal) => self.node == Node::<V, S, O>::Internal(*internal),
                None => self.node is Leaf,
            },
    {
        self.node.as_internal()
    }

    /// The leaf at the root, if there is one.
    pub fn into_leaf(self) -> (r: Option<Leaf<O>>)
        ensures
            match r {
                Some(leaf) => self.node == Node::<V, S, O>::Leaf(leaf),
                None => self.node is Internal,
            },
    {
        self.node.into_leaf()
    }

    /// The internal node at the root, if there is one.
    pub fn into_internal(self) -> (r: Option<Internal<V, S, O>>)
        ensures
            match r {
                Some(internal) => self.node == Node::<V, S, O>::Internal(internal),
                None => self.node is Leaf,
            },
    {
        self.node.into_internal()
    }

    /// The children of the sequence alternative, if the root committed to
    /// one.
    pub fn as_first(&self) -> (r: Option<&First<AST<V, S, O>>>)
        ensures
            match r {
                Some(first) => self.node matches Node::Internal(n) && *n.equal == Choice::First(
                    *first,
                ),
                None => !(self.node matches Node::Internal(n) && *n.equal is First),
            },
    {
        match self.as_internal() {
            Some(n) => n.as_first(),
            None => None,
        }
    }

    /// The child of the fallback alternative, if the root committed to one.
    pub fn as_second(&self) -> (r: Option<&Second<AST<V, S, O>>>)
        ensures
            match r {
                Some(second) => self.node matches Node::Internal(n) && *n.equal == Choice::Second(
                    *second,
                ),
                None => !(self.node matches Node::Internal(n) && *n.equal is Second),
            },
    {
        match self.as_internal() {
            Some(n) => n.as_second(),
            None => None,
        }
    }

    /// The children of the sequence alternative, if the root committed to
    /// one.
    pub fn into_first(self) -> (r: Option<First<AST<V, S, O>>>)
        ensures
            match r {
                Some(first) => self.node matches Node::Internal(n) && *n.equal == Choice::First(
                    first,
                ),
                None => !(self.node matches Node::Internal(n) && *n.equal is First),
            },
    {
        match self.into_internal() {
            Some(n) => n.into_first(),
            None => None,
        }
    }

    /// The child of the fallback alternative, if the root committed to one.
    pub fn into_second(self) -> (r: Option<Second<AST<V, S, O>>>)
        ensures
            match r {
                Some(second) => self.node matches Node::Internal(n) && *n.equal == Choice::Second(
                    second,
                ),
                None => !(self.node matches Node::Internal(n) && *n.equal is Second),
            },
    {
        match self.into_internal() {
            Some(n) => n.into_second(),
            None => None,
        }
    }

    /// The payload of the leaf at the root, if there is one.
    pub fn as_original(&self) -> (r: Option<&O>)
        ensures
            match r {
                Some(original) => self.node == Node::<V, S, O>::Leaf(
                    TerminalSymbol::Original(*original),
                ),
                None => !(self.node matches Node::Leaf(TerminalSymbol::Original(_))),
            },
    {
        match self.as_leaf() {
            Some(n) => n.as_original(),
            None => None,
        }
    }

    /// The metasymbol of the leaf at the root, if there is one.
    pub fn as_metasymbol(&self) -> (r: Option<&Metasymbol>)
        ensures
            match r {
                Some(metasymbol) => self.node == Node::<V, S, O>::Leaf(
                    TerminalSymbol::Metasymbol(*metasymbol),
                ),
                None => !(self.node matches Node::Leaf(TerminalSymbol::Metasymbol(_))),
            },
    {
        match self.as_leaf() {
            Some(n) => n.as_metasymbol(),
            None => None,
        }
    }

    /// The payload of the leaf at the root, if there is one.
    pub fn into_original(self) -> (r: Option<O>)
        ensures
            match r {
                Some(original) => self.node == Node::<V, S, O>::Leaf(
                    TerminalSymbol::Original(original),
                ),
                None => !(self.node matches Node::Leaf(TerminalSymbol::Original(_))),
            },
    {
        match self.into_leaf() {
            Some(n) => n.into_original(),
            None => None,
        }
    }

    /// The metasymbol of the leaf at the root, if there is one.
    pub fn into_metasymbol(self) -> (r: Option<Metasymbol>)
        ensures
            match r {
                Some(metasymbol) => self.node == Node::<V, S, O>::Leaf(
                    TerminalSymbol::Metasymbol(metasymbol),
                ),
                None => !(self.node matches Node::Leaf(TerminalSymbol::Metasymbol(_))),
            },
    {
        match self.into_leaf() {
            Some(n) => n.into_metasymbol(),
            None => None,
        }
    }
}

impl<V, S, O> CST<V, S, O> {
    /// The children of the sequence alternative, if it was the one matched.
    pub fn as_first(&self) -> (r: Option<&First<AST<V, S, O>>>)
        ensures
            match r {
                Some(first) => self.node.equal == Choice::First(*first),
                None => self.node.equal is Second,
            },
    {
        self.node.equal.as_first()
    }

    /// The child of the fallback alternative, if it was the one matched.
    pub fn as_second(&self) -> (r: Option<&Second<AST<V, S, O>>>)
        ensures
            match r {
                Some(second) => self.node.equal == Choice::Second(*second),
                None => self.node.equal is First,
            },
    {
        self.node.equal.as_second()
    }

    /// The children of the sequence alternative, if it was the one matched.
    pub fn into_first(self) -> (r: Option<First<AST<V, S, O>>>)
        ensures
            match r {
                Some(first) => self.node.equal == Choice::First(first),
                None => self.node.equal is Second,
            },
    {
        self.node.equal.into_first()
    }

    /// The child of the fallback alternative, if it was the one matched.
    pub fn into_second(self) -> (r: Option<Second<AST<V, S, O>>>)
        ensures
            match r {
                Some(second) => self.node.equal == Choice::Second(second),
                None => self.node.equal is First,
            },
    {
        self.node.equal.into_second()
    }
}

impl<V, S: Copy, O> CST<V, S, O> {
    /// Discards the matched children, keeping only an omission marker over
    /// the same span.
    pub fn into_omit(self) -> (r: Self)
        ensures
            r.span == self.span,
            r.node.value == self.node.value,
            r.node.equal == Choice::Second(
                Second(
                    Spanned {
                        node: Node::<V, S, O>::Leaf(TerminalSymbol::Metasymbol(Metasymbol::Omit)),
                        span: self.span,
                    },
                ),
            ),
    {
        let span = self.span;
        let omit_leaf = AST::from_leaf(TerminalSymbol::Metasymbol(Metasymbol::Omit), span);
        Spanned::new(Equivalence::new(self.node.value, Choice::Second(Second::new(omit_leaf))), span)
    }
}

} // verus!
