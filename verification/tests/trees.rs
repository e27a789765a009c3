use mpl::choices::{Choice, First, Second};
use mpl::span::{Spanned, StartAndLenSpan};
use mpl::symbols::{Equivalence, Metasymbol, TerminalSymbol, Variable};
use mpl::trees::{AST, CST};

#[derive(Copy, Clone, Debug, Eq, PartialEq)]
enum V {
    A,
}

impl Variable for V {
    fn v_eq(&self, other: &Self) -> bool {
        self == other
    }
}

type Sp = StartAndLenSpan<u32, u16>;

fn leaf(meta: Metasymbol, start: u32, len: u16) -> AST<V, Sp, &'static str> {
    AST::from_leaf(
        TerminalSymbol::Metasymbol(meta),
        Sp::from_start_len(start, len),
    )
}

/// Attaching an output to a completed reduction keeps the span and the
/// children, and records the variable with the computed value.
#[test]
fn from_cst_and_output_attaches_payload() {
    let l = leaf(Metasymbol::Any(1), 0, 1);
    let r = leaf(Metasymbol::Any(1), 1, 1);
    let cst: CST<V, Sp, &'static str> = Spanned::new(
        Equivalence::new(V::A, Choice::First(First::new(l, r))),
        Sp::from_start_len(0, 2),
    );

    let ast = AST::from_cst_and_output(cst, Some("payload"));
    assert_eq!(ast.span, Sp::from_start_len(0, 2));
    let internal = ast.as_internal().unwrap();
    assert_eq!(internal.value, (V::A, Some("payload")));
    let first = internal.as_first().unwrap();
    assert_eq!(first.lhs.span, Sp::from_start_len(0, 1));
    assert_eq!(first.rhs.span, Sp::from_start_len(1, 1));
}

/// The default, shape-preserving action attaches no value.
#[test]
fn from_cst_keeps_shape() {
    let inner = leaf(Metasymbol::All, 0, 3);
    let cst: CST<V, Sp, &'static str> = Spanned::new(
        Equivalence::new(V::A, Choice::Second(Second::new(inner))),
        Sp::from_start_len(0, 3),
    );

    let ast = AST::from_cst(cst);
    assert_eq!(ast.span, Sp::from_start_len(0, 3));
    let internal = ast.as_internal().unwrap();
    assert_eq!(internal.value, (V::A, None));
    assert!(internal.as_second().is_some());
    assert!(internal.as_first().is_none());
    assert!(ast.as_leaf().is_none());
}

/// Discarding a reduction's children keeps only an omission marker over
/// the same span.
#[test]
fn into_omit_discards_children() {
    let l = leaf(Metasymbol::Any(1), 4, 1);
    let r = leaf(Metasymbol::Any(1), 5, 1);
    let cst: CST<V, Sp, &'static str> = Spanned::new(
        Equivalence::new(V::A, Choice::First(First::new(l, r))),
        Sp::from_start_len(4, 2),
    );

    let omitted = cst.into_omit();
    assert_eq!(omitted.span, Sp::from_start_len(4, 2));
    let second = omitted.node.equal.as_second().unwrap();
    assert_eq!(second.0.as_metasymbol(), Some(&Metasymbol::Omit));
    assert_eq!(second.0.span, Sp::from_start_len(4, 2));
}

/// Leaf accessors tell leaves and internal nodes apart.
#[test]
fn leaf_accessors() {
    let ast = leaf(Metasymbol::Empty, 2, 0);
    assert_eq!(ast.as_metasymbol(), Some(&Metasymbol::Empty));
    assert!(ast.as_original().is_none());
    assert!(ast.as_internal().is_none());
    assert_eq!(
        ast.into_metasymbol(),
        Some(Metasymbol::Empty)
    );

    let ast: AST<V, Sp, &'static str> = AST::from_leaf(
        TerminalSymbol::from_original("x"),
        Sp::from_start_len(0, 1),
    );
    assert_eq!(ast.as_original(), Some(&"x"));
    assert!(ast.as_metasymbol().is_none());
    assert_eq!(ast.into_original(), Some("x"));
}
