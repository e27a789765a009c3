//! Output
//!
//! The semantic-action hook: the one point where the engine is not generic
//! over the consumer's semantic domain.  The hook is invoked exactly once
//! per successfully reduced variable, consumes the transient CST node, and
//! returns the durable AST node for that reduction.  It is a pure function
//! of the input and the CST node, it cannot fail the parse, and it must
//! preserve the node's span.

use crate::input::Input;
use crate::trees::{spec_ast_from_cst_and_output, AST, CST};
use vstd::prelude::*;

verus! {

/// Output types: the consumer's semantic domain, with its semantic action.
pub trait Output<I, V, S>: Sized where I: Input + ?Sized {
    /// What the semantic action returns for a completed reduction.
    spec fn spec_output(input: &I, cst: CST<V, S, Self>) -> AST<V, S, Self>;

    /// The semantic action preserves the span of the reduction.
    proof fn lemma_spec_output_span(input: &I, cst: CST<V, S, Self>)
        ensures
            Self::spec_output(input, cst).span == cst.span,
    ;

    /// The semantic action: turns a completed reduction into its durable
    /// node, optionally attaching a computed value.
    fn output_ast(input: &I, cst: CST<V, S, Self>) -> (r: AST<V, S, Self>)
        ensures
            r == Self::spec_output(input, cst),
    ;
}

/// The default semantic action: keep the tree shape, compute nothing.
impl<I, V, S> Output<I, V, S> for () where I: Input + ?Sized {
    open spec fn spec_output(input: &I, cst: CST<V, S, Self>) -> AST<V, S, Self> {
        spec_ast_from_cst_and_output(cst, None)
    }

    proof fn lemma_spec_output_span(input: &I, cst: CST<V, S, Self>) {
    }

    fn output_ast(input: &I, cst: CST<V, S, Self>) -> (r: AST<V, S, Self>) {
        AST::from_cst(cst)
    }
}

} // verus!
