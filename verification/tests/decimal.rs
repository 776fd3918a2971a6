use ezo_ph::decimal::{Decimal, Places};
use ezo_ph::number::{check_digit, parse_digits, parse_unsigned, push_numeral};
use ezo_ph::text::{
    chars_of, is_printable, is_text, split_chars, strip_prefix, text_of, to_upper, to_uppercase,
};

fn chars(text: &str) -> Vec<char> {
    text.chars().collect()
}

fn parsed(text: &str) -> Option<i64> {
    Decimal::parse(text).map(|d| d.thousandths)
}

#[test]
fn reads_decimal_numbers() {
    assert_eq!(parsed("0"), Some(0));
    assert_eq!(parsed("7"), Some(7_000));
    assert_eq!(parsed("12.5"), Some(12_500));
    assert_eq!(parsed("14.0"), Some(14_000));
    assert_eq!(parsed("14.56"), Some(14_560));
    assert_eq!(parsed("9.560"), Some(9_560));
    assert_eq!(parsed("0.001"), Some(1));
    assert_eq!(parsed("-0.5"), Some(-500));
    assert_eq!(parsed("-100.3"), Some(-100_300));
    assert_eq!(parsed("+3.25"), Some(3_250));
    assert_eq!(parsed("5."), Some(5_000));
    assert_eq!(parsed(".5"), Some(500));
    assert_eq!(parsed("-.5"), Some(-500));
    assert_eq!(parsed("-0"), Some(0));
    assert_eq!(parsed("007.10"), Some(7_100));
    assert_eq!(parsed("1.0000"), Some(1_000));
    assert_eq!(parsed("1.2340000"), Some(1_234));
    assert_eq!(Decimal::read(&chars("12.5")), Some(Decimal::from_thousandths(12_500)));
}

#[test]
fn rejects_what_is_not_a_decimal_number() {
    for text in [
        "", "-", "+", ".", "-.", "x", "-x", "1a21.43", "10.5.5", "1,5", " 1", "1 ", "--1", "+-1",
        "1e3", "1E3", "inf", "nan", "NaN", "0x10", "$", "1.2,43", "1..2", "٣",
    ] {
        assert_eq!(parsed(text), None, "{:?}", text);
    }
}

#[test]
fn rejects_a_number_finer_than_thousandths() {
    assert_eq!(parsed("1.0001"), None);
    assert_eq!(parsed("0.00000001"), None);
    assert_eq!(parsed("14.0005"), None);
    assert_eq!(parsed("1.23400001"), None);
}

#[test]
fn takes_every_count_of_thousandths_that_fits() {
    assert_eq!(parsed("9223372036854775.807"), Some(i64::MAX));
    assert_eq!(parsed("9223372036854775.808"), None);
    assert_eq!(parsed("-9223372036854775.807"), Some(-i64::MAX));
    assert_eq!(parsed("-9223372036854775.808"), Some(i64::MIN));
    assert_eq!(parsed("-9223372036854775.809"), None);
    assert_eq!(parsed("9223372036854776"), None);
    assert_eq!(parsed("99999999999999999999999999"), None);
    assert_eq!(parsed("00000000000000000000000001"), Some(1_000));
}

#[test]
fn writes_with_three_fractional_digits() {
    let cases = [
        (0, "0.000"),
        (1, "0.001"),
        (-1, "-0.001"),
        (12_500, "12.500"),
        (19_500, "19.500"),
        (-100_300, "-100.300"),
        (999, "0.999"),
        (1_000, "1.000"),
        (i64::MAX, "9223372036854775.807"),
        (i64::MIN, "-9223372036854775.808"),
    ];
    for (thousandths, text) in cases {
        assert_eq!(Decimal::from_thousandths(thousandths).to_fixed(Places::Three), text);
    }
}

#[test]
fn writes_with_two_fractional_digits_rounding_half_to_even() {
    let cases = [
        (0, "0.00"),
        (7_000, "7.00"),
        (4_000, "4.00"),
        (10_056, "10.06"),
        (10_054, "10.05"),
        (125, "0.12"),
        (135, "0.14"),
        (115, "0.12"),
        (5, "0.00"),
        (15, "0.02"),
        (995, "1.00"),
        (9_995, "10.00"),
        (-4, "-0.00"),
        (-125, "-0.12"),
        (-135, "-0.14"),
        (-121_430, "-121.43"),
        (i64::MAX, "9223372036854775.81"),
        (i64::MIN, "-9223372036854775.81"),
    ];
    for (thousandths, text) in cases {
        assert_eq!(Decimal::from_thousandths(thousandths).to_fixed(Places::Two), text);
    }
}

#[test]
fn reads_back_what_it_writes() {
    for t in [0, 1, -1, 9, 10, 99, 100, 999, 1_000, 12_345, -12_345, i64::MAX, i64::MIN] {
        let d = Decimal::from_thousandths(t);
        assert_eq!(Decimal::parse(&d.to_fixed(Places::Three)), Some(d));
    }
    for t in [0, 10, -10, 990, 1_000, 12_340, -12_340, 9_223_372_036_854_775_800] {
        let d = Decimal::from_thousandths(t);
        assert_eq!(Decimal::parse(&d.to_fixed(Places::Two)), Some(d));
    }
}

#[test]
fn writes_after_what_is_there() {
    let mut text = String::from("T,");
    Decimal::from_thousandths(19_500).write_fixed(&mut text, Places::Three);
    assert_eq!(text, "T,19.500");
    Decimal::from_thousandths(-5).write_fixed(&mut text, Places::Two);
    assert_eq!(text, "T,19.500-0.00");
}

#[test]
fn reads_and_writes_digits() {
    assert!(check_digit('0') && check_digit('9'));
    assert!(!check_digit('/') && !check_digit(':') && !check_digit('a'));
    assert_eq!(parse_digits(&chars(""), 10), Some(0));
    assert_eq!(parse_digits(&chars("0042"), 100), Some(42));
    assert_eq!(parse_digits(&chars("100"), 100), Some(100));
    assert_eq!(parse_digits(&chars("101"), 100), None);
    assert_eq!(parse_digits(&chars("1x"), 100), None);
    assert_eq!(parse_digits(&chars("18446744073709551615"), u64::MAX), Some(u64::MAX));
    assert_eq!(parse_digits(&chars("18446744073709551616"), u64::MAX), None);
    assert_eq!(parse_unsigned(&chars("+12"), 100), Some(12));
    assert_eq!(parse_unsigned(&chars("12"), 100), Some(12));
    assert_eq!(parse_unsigned(&chars(""), 100), None);
    assert_eq!(parse_unsigned(&chars("+"), 100), None);
    assert_eq!(parse_unsigned(&chars("-1"), 100), None);
    assert_eq!(parse_unsigned(&chars("++1"), 100), None);
    let mut text = String::from("n=");
    push_numeral(&mut text, 0);
    push_numeral(&mut text, 65_535);
    push_numeral(&mut text, u64::MAX);
    assert_eq!(text, "n=06553518446744073709551615");
}

#[test]
fn splits_at_every_separator() {
    let pieces = |text: &str| -> Vec<String> {
        split_chars(&chars(text), ',').iter().map(|p| p.iter().collect()).collect()
    };
    assert_eq!(pieces(""), vec![""]);
    assert_eq!(pieces("a"), vec!["a"]);
    assert_eq!(pieces(","), vec!["", ""]);
    assert_eq!(pieces("a,b"), vec!["a", "b"]);
    assert_eq!(pieces("a,,b,"), vec!["a", "", "b", ""]);
    assert_eq!(pieces(",a"), vec!["", "a"]);
}

#[test]
fn handles_characters() {
    assert_eq!(chars_of("pH é"), chars("pH é"));
    assert_eq!(text_of(&chars("pH é")), "pH é");
    assert_eq!(to_upper('a'), 'A');
    assert_eq!(to_upper('z'), 'Z');
    assert_eq!(to_upper('A'), 'A');
    assert_eq!(to_upper('1'), '1');
    assert_eq!(to_upper('é'), 'é');
    assert_eq!(to_upper('{'), '{');
    assert_eq!(to_upper('`'), '`');
    assert_eq!(to_uppercase(&chars("cal,Mid,1.5é")), chars("CAL,MID,1.5é"));
    assert!(is_text(&chars("R"), "R"));
    assert!(!is_text(&chars("R"), "r"));
    assert!(!is_text(&chars("R"), "RR"));
    assert!(is_text(&chars(""), ""));
    assert_eq!(strip_prefix(&chars("?T,1"), "?T,"), Some(&chars("1")[..]));
    assert_eq!(strip_prefix(&chars("?T,"), "?T,"), Some(&chars("")[..]));
    assert_eq!(strip_prefix(&chars("?T"), "?T,"), None);
    assert_eq!(strip_prefix(&chars("?t,1"), "?T,"), None);
    assert!(is_printable(&chars(" az~")));
    assert!(is_printable(&chars("")));
    assert!(!is_printable(&chars("a\nb")));
}
