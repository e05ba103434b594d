use timelog::server::coerce_age;

#[test]
fn plain_number() {
    assert_eq!(coerce_age("37"), Some(37));
}

#[test]
fn leading_plus() {
    assert_eq!(coerce_age("+42"), Some(42));
}

#[test]
fn negative_number() {
    assert_eq!(coerce_age("-1"), Some(-1));
}

#[test]
fn leading_zeros() {
    assert_eq!(coerce_age("0007"), Some(7));
}

#[test]
fn zero() {
    assert_eq!(coerce_age("0"), Some(0));
}

#[test]
fn not_a_number() {
    assert_eq!(coerce_age("abc"), None);
}

#[test]
fn not_applicable_text() {
    assert_eq!(coerce_age("n/a"), None);
}

#[test]
fn empty_text() {
    assert_eq!(coerce_age(""), None);
}

#[test]
fn bare_signs() {
    assert_eq!(coerce_age("-"), None);
    assert_eq!(coerce_age("+"), None);
}

#[test]
fn trailing_garbage() {
    assert_eq!(coerce_age("12a"), None);
    assert_eq!(coerce_age("1 "), None);
    assert_eq!(coerce_age(" 1"), None);
    assert_eq!(coerce_age("1.5"), None);
}

#[test]
fn extremes_of_range() {
    assert_eq!(coerce_age("2147483647"), Some(i32::MAX));
    assert_eq!(coerce_age("-2147483648"), Some(i32::MIN));
}

#[test]
fn just_past_the_range() {
    assert_eq!(coerce_age("2147483648"), None);
    assert_eq!(coerce_age("-2147483649"), None);
    assert_eq!(coerce_age("99999999999999999999"), None);
}

#[test]
fn non_ascii_digits_rejected() {
    assert_eq!(coerce_age("١٢٣"), None);
    assert_eq!(coerce_age("4২"), None);
}

#[test]
fn agrees_with_std_parse() {
    let samples = [
        "", "0", "00", "7", "+7", "-7", "37", "-37", "123456789", "-123456789", "2147483646",
        "2147483647", "2147483648", "-2147483647", "-2147483648", "-2147483649", "+2147483647",
        "4294967296", "1e3", "0x10", "٣", "--1", "+-1", "1+1", "\u{0}1", "9 ", " 9", "nine",
    ];
    for s in samples {
        assert_eq!(coerce_age(s), s.parse::<i32>().ok(), "input {:?}", s);
    }
}
