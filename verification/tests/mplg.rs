use mpl::mplg::{parse_mplg, MplgE, MplgLines, MplgOutput, MplgText};
use mpl::rules::RightRule;
use mpl::symbols::{Metasymbol, TerminalSymbol, E};

/// Descriptions the bootstrap grammar accepts.
#[test]
fn mplg() {
    let inputs = [
        "",
        "\n",
        "\r\n",
        "\r\n\n\r\n",
        // Rule
        "A = B C / D\n",
        "Abc1 = B1 CC / D0d\n",
        // Rules
        "A = B C / D\r\nE = F G / H\nI = J K / L\r\nM = N O / P\n",
        // LineComment
        "//\n",
        "//\r\n",
        "// \n",
        "// Hello\n",
        "//A = B C / D\n",
        "// \"こんにちは!\"\n",
        // LineComments
        "//\r\n// a\r\n//b\n",
        // Strings
        "A = \"string\" \"''\r\n\n\\\"\\\"\n\" / \"\"\n",
    ];
    for input in inputs {
        let result = parse_mplg(input.as_bytes());
        assert!(result.is_ok(), "rejected {:?}", input);
    }
}

/// Descriptions over the whole notation, accepted and rejected.
#[test]
fn parser_mplg() {
    let inputs = [
        // Ok
        ("", true),
        ("\n", true),
        ("\r\n", true),
        ("\r\n\n\r\n", true),
        // Rule
        ("A = B C / D\n", true),
        ("Abc1 = B1 CC / D0d\n", true),
        // Rules
        ("A = B C / D\r\nE = F G / H\nI = J K / L\r\nM = N O / P\n", true),
        // LineComment
        ("//\n", true),
        ("//\r\n", true),
        ("// \n", true),
        ("// Hello\n", true),
        ("//A = B C / D\n", true),
        ("// \"こんにちは!\"\n", true),
        // LineComments
        ("//\r\n// a\r\n//b\n", true),
        // Metasymbols
        ("A = () () / ()\n", true),
        ("A = f f / f\n", true),
        ("A = ? ?? / ???\n", true),
        ("A = * * / *\n", true),
        // Chars
        ("A = { 'b' } { 'c' } / { 'd' }\n", true),
        // Strings
        ("A = { \"string\" } { \"''\r\n\n\\\"\\\"\n\" } / { \"\" }\n", true),
        // Integers
        ("A = { 1234567890 } { 1_2__3 } / { 1_____ }\n", true),
        // Struct
        ("A = { Str(\"b\") } { Null(1) } / { A(2) }\n", true),
        // Mplg
        ("// Mplg = Line Mplg / ()\nMplg = Line Mplg / ()\r\n\n", true),
        // Err
        ("A = B\n", false),
        ("A = B C / D", false),
        ("A = B / C / D\n", false),
        ("a = B C / D\n", false),
        ("A = b c / d\n", false),
        ("() = B C / D\n", false),
        ("A = { 'bb' } { 'c' } / { 'd' }\n", false),
    ];
    for input in inputs {
        let result = parse_mplg(input.0.as_bytes());
        if input.1 {
            assert!(result.is_ok(), "rejected {:?}", input.0);
        } else {
            assert!(result.is_err(), "accepted {:?}", input.0);
        }
    }
}

fn lines_vec(mut lines: MplgLines) -> Vec<MplgOutput> {
    let mut out = Vec::new();
    loop {
        match lines {
            MplgLines::Cons(head, tail) => {
                out.push(*head);
                lines = *tail;
            }
            MplgLines::Nil => return out,
        }
    }
}

fn text(input: &str, t: MplgText) -> &str {
    &input[t.lo as usize..t.hi as usize]
}

/// A parsed description summarises each rule line: the variable's name
/// and the three operands.
#[test]
fn parse_mplg_rule_summary() {
    let input = "A = B () / \"x\"\n// note\nCde = f * / Qr\n";
    let ast = parse_mplg(input.as_bytes()).unwrap();
    let lines = lines_vec(ast.into_original().unwrap().to_lines().unwrap());

    let mut rules: Vec<RightRule<MplgText, MplgText>> = Vec::new();
    let mut names: Vec<&str> = Vec::new();
    let mut comments: Vec<&str> = Vec::new();
    for line in lines {
        match line {
            MplgOutput::Rule(rule) => {
                names.push(text(input, rule.value));
                rules.push(rule.equal);
            }
            MplgOutput::Str(t) => comments.push(text(input, t)),
            other => panic!("unexpected line {:?}", other),
        }
    }
    assert_eq!(names, ["A", "Cde"]);
    assert_eq!(comments, ["// note"]);

    // A = B () / "x"
    match &rules[0].first.lhs {
        E::V(v) => assert_eq!(text(input, *v), "B"),
        other => panic!("unexpected operand {:?}", other),
    }
    assert_eq!(
        rules[0].first.rhs,
        E::T(TerminalSymbol::Metasymbol(Metasymbol::Empty))
    );
    match &rules[0].second.0 {
        E::T(TerminalSymbol::Original(t)) => assert_eq!(text(input, *t), "x"),
        other => panic!("unexpected operand {:?}", other),
    }

    // Cde = f * / Qr
    assert_eq!(
        rules[1].first.lhs,
        E::T(TerminalSymbol::Metasymbol(Metasymbol::Failure))
    );
    assert_eq!(
        rules[1].first.rhs,
        E::T(TerminalSymbol::Metasymbol(Metasymbol::All))
    );
    match &rules[1].second.0 {
        E::V(v) => assert_eq!(text(input, *v), "Qr"),
        other => panic!("unexpected operand {:?}", other),
    }
}
