use mpl::span::{Span, StartAndLenSpan};

#[test]
fn from_lo_len() {
    let input = "0123456789";
    let span = StartAndLenSpan::<usize, usize>::from_lo_len(1, 9, input);

    assert_eq!(1, span.start);
    assert_eq!(9, span.len);
    assert_eq!(10, span.hi(input));
}

#[test]
fn from_lo_hi() {
    let input = "0123456789";
    let span = StartAndLenSpan::<u32, u16>::from_lo_hi(1, 10, input);

    assert_eq!(1, span.start);
    assert_eq!(9, span.len);
    assert_eq!(10, span.hi(input));
}

#[test]
fn merge_lhs_and_rhs() {
    let input: String = (0..=54)
        .map(|n: usize| n.to_string())
        .collect::<Vec<String>>()
        .join("");
    let input: &str = &input;

    let lhs = StartAndLenSpan::<u16, u16>::from_lo_hi(5, 100, input);
    let rhs = StartAndLenSpan::from_lo_hi(100, 1000, input);

    let merged_span = Span::merge_lhs_and_rhs(&lhs, &rhs, input);

    assert_eq!(5, merged_span.start);
    assert_eq!(1000, merged_span.hi(input));

    let lhs = StartAndLenSpan::<u16, u16>::from_lo_hi(0, 5, input);
    let rhs = StartAndLenSpan::from_lo_hi(5, 10, input);

    let merged_span = Span::merge_lhs_and_rhs(&lhs, &rhs, input);

    assert_eq!(0, merged_span.start);
    assert_eq!(10, merged_span.hi(input));

    assert_eq!(StartAndLenSpan::from_lo_hi(0, 10, input), merged_span);
}

#[test]
fn from_start_len_fields() {
    let span = StartAndLenSpan::<u32, u16>::from_start_len(3, 4);
    assert_eq!(3, span.start);
    assert_eq!(4, span.len);
}

#[test]
fn checked_from_lo_len_guards_overflow() {
    let input = "0123456789";
    // A length beyond the length type's range is refused, not wrapped.
    let too_long: Option<StartAndLenSpan<u32, u16>> =
        Span::checked_from_lo_len(0, (u16::MAX as usize) + 1, input);
    assert_eq!(too_long, None);

    // A span whose end would leave the position type's range is refused.
    let too_high: Option<StartAndLenSpan<u32, u16>> =
        Span::checked_from_lo_len(u32::MAX, 1, input);
    assert_eq!(too_high, None);

    let fine: Option<StartAndLenSpan<u32, u16>> = Span::checked_from_lo_len(1, 9, input);
    assert_eq!(fine, Some(StartAndLenSpan::from_lo_hi(1, 10, input)));
}
