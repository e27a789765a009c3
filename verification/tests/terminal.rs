use mpl::symbols::{SliceTerminal, StrTerminal, U8SliceTerminal};

#[test]
fn slice_terminal_convert() {
    let c = SliceTerminal::from('A');
    let s = SliceTerminal::from(vec!['a', 'b', 'c']);

    assert_eq!(c, SliceTerminal::Element('A'));
    assert_eq!(s, SliceTerminal::Slice(vec!['a', 'b', 'c']));
}

#[test]
fn str_terminal_convert() {
    let c = StrTerminal::from('A');
    let s = StrTerminal::from(String::from("abc"));

    assert_eq!(c, StrTerminal::Char('A'));
    assert_eq!(s, StrTerminal::Str(String::from("abc")));
}

#[test]
fn u8slice_terminal_convert() {
    let c = U8SliceTerminal::from('A');
    let s = U8SliceTerminal::from(vec![0, 1, 2]);

    assert_eq!(c, U8SliceTerminal::Char('A'));
    assert_eq!(s, U8SliceTerminal::U8Slice(vec![0, 1, 2]));
}
