use attempt::pattern::{CodePattern, ParsingErrorKind};

const ERR_STR: &str = "256";

type K = ParsingErrorKind;

fn check_pattern_parsing_status_codes_fails_on_invalid_chars(s: &str) {
    let err = CodePattern::from_str(s).err().unwrap();
    assert_eq!(
        err.kind,
        K::InvalidCharacters,
        "Invalid error kind for \"{}\"",
        s
    );
    assert_eq!(err.idx, s.find('!').unwrap(), "Invalid index for \"{}\"", s);
}

fn check_pattern_parsing_status_codes_fails_on_invalid_status_codes(s: &str) {
    let err = CodePattern::from_str(s).err().unwrap();
    assert_eq!(
        err.kind,
        K::InvalidValue,
        "Invalid error kind for \"{}\"",
        s
    );
    assert_eq!(
        err.idx,
        s.find(ERR_STR).unwrap() + ERR_STR.len() - 1,
        "Invalid index for \"{}\"",
        s
    );
}

fn check_pattern_parsing_status_codes_catches_invalid_whitespace(s: &str, kind: ParsingErrorKind) {
    let err = CodePattern::from_str(s).err().unwrap();
    assert_eq!(err.kind, kind, "Invalid error kind for \"{}\"", s);
    assert_eq!(err.idx, s.find(' ').unwrap(), "Invalid index for \"{}\"", s);
}

fn check_parsing_fails_on_empty(s: &str) {
    let err = CodePattern::from_str(s).err().unwrap();
    assert_eq!(
        err.kind,
        ParsingErrorKind::Empty,
        "Invalid error kind for \"{}\"",
        s
    );
    assert_eq!(err.idx, 0, "Invalid index for \"{}\"", s);
}

#[test]
fn pattern_parsing_single_status_code() {
    let s = CodePattern::from_str("1").unwrap();
    assert_eq!(s, CodePattern::only(1));
    assert!(s.contains(1));
    assert!(!s.contains(0));
}

#[test]
fn pattern_parsing_several_status_codes() {
    let s = CodePattern::from_str("1,2,3").unwrap();
    assert_eq!(s, CodePattern::default().with_range(1..=3));
    assert!(s.contains(1));
    assert!(s.contains(2));
    assert!(s.contains(3));
    assert!(!s.contains(0));
}

#[test]
fn pattern_parsing_status_code_range() {
    let s = CodePattern::from_str("1..3").unwrap();
    assert_eq!(s, CodePattern::default().with_range(1..=3));
    assert!(s.contains(1));
    assert!(s.contains(2));
    assert!(s.contains(3));
    assert!(!s.contains(0))
}

#[test]
fn pattern_backwards_ranges_are_fixed() {
    let a = CodePattern::from_str("1..10").unwrap();
    let b = CodePattern::from_str("10..1").unwrap();
    assert_eq!(a, b);
}

#[test]
fn pattern_parsing_complex_status_code() {
    let s = CodePattern::from_str("1..3,5,10..12").unwrap();
    assert_eq!(
        s,
        CodePattern::default()
            .with_range(1..=3)
            .with_code(5)
            .with_range(10..=12)
    );
    assert!(s.contains(1));
    assert!(s.contains(2));
    assert!(s.contains(3));

    assert!(s.contains(5));

    assert!(s.contains(10));
    assert!(s.contains(11));
    assert!(s.contains(12));

    assert!(!s.contains(0))
}

#[test]
fn pattern_parsing_status_codes_ignores_gratuitous_commas() {
    assert!(CodePattern::from_str("1,").is_ok());
    assert!(CodePattern::from_str(",1").is_ok());
    assert!(CodePattern::from_str("1,2,,,,").is_ok());
    assert!(CodePattern::from_str(",,,,1,2").is_ok());
    assert!(CodePattern::from_str("1,,,,2").is_ok());
}

#[test]
fn pattern_parsing_status_codes_fails_on_invalid_chars() {
    check_pattern_parsing_status_codes_fails_on_invalid_chars("123!123");
    check_pattern_parsing_status_codes_fails_on_invalid_chars("1!2..3");
    check_pattern_parsing_status_codes_fails_on_invalid_chars("123!");
    check_pattern_parsing_status_codes_fails_on_invalid_chars("!123");
    check_pattern_parsing_status_codes_fails_on_invalid_chars("1,!123");
    check_pattern_parsing_status_codes_fails_on_invalid_chars("1..5,!123");
}

#[test]
fn pattern_parsing_status_codes_fails_on_invalid_status_codes() {
    check_pattern_parsing_status_codes_fails_on_invalid_status_codes("256");
    check_pattern_parsing_status_codes_fails_on_invalid_status_codes("1,2,256");
    check_pattern_parsing_status_codes_fails_on_invalid_status_codes("1,256,2");
    check_pattern_parsing_status_codes_fails_on_invalid_status_codes("1..256");
    check_pattern_parsing_status_codes_fails_on_invalid_status_codes("256..1");
    check_pattern_parsing_status_codes_fails_on_invalid_status_codes("1,2,1..256");
    check_pattern_parsing_status_codes_fails_on_invalid_status_codes("1,1..256,2");
    check_pattern_parsing_status_codes_fails_on_invalid_status_codes("1..256,1,2");
    check_pattern_parsing_status_codes_fails_on_invalid_status_codes("1,2,256..1");
    check_pattern_parsing_status_codes_fails_on_invalid_status_codes("1,256..1,2");
    check_pattern_parsing_status_codes_fails_on_invalid_status_codes("256..1,1,2");
}

#[test]
fn pattern_parsing_status_codes_fails_on_bad_ranges() {
    let err = CodePattern::from_str("123..").err().unwrap();
    assert_eq!(err.kind, K::FootlessRange);
    assert_eq!(err.idx, 4);

    let err = CodePattern::from_str("..123").err().unwrap();
    assert_eq!(err.kind, K::HeadlessRange);
    assert_eq!(err.idx, 0);

    let err = CodePattern::from_str("1..2..3").err().unwrap();
    assert_eq!(err.kind, K::BrokenRange);
    assert_eq!(err.idx, 4);

    let err = CodePattern::from_str("123..,1").err().unwrap();
    assert_eq!(err.kind, K::FootlessRange);
    assert_eq!(err.idx, 5);

    let err = CodePattern::from_str("1,123..").err().unwrap();
    assert_eq!(err.kind, K::FootlessRange);
    assert_eq!(err.idx, 6);

    let err = CodePattern::from_str("..123,1").err().unwrap();
    assert_eq!(err.kind, K::HeadlessRange);
    assert_eq!(err.idx, 0);

    let err = CodePattern::from_str("1,..123").err().unwrap();
    assert_eq!(err.kind, K::HeadlessRange);
    assert_eq!(err.idx, 2);

    let err = CodePattern::from_str("1..2..3,1").err().unwrap();
    assert_eq!(err.kind, K::BrokenRange);
    assert_eq!(err.idx, 4);

    let err = CodePattern::from_str("1,1..2..3").err().unwrap();
    assert_eq!(err.kind, K::BrokenRange);
    assert_eq!(err.idx, 6);
}

#[test]
fn pattern_valid_whitespace_is_ignored() {
    let a = CodePattern::from_str("1,2,3").unwrap();
    let b = CodePattern::from_str("1, 2,\t3").unwrap();
    assert_eq!(a, b);

    let c = CodePattern::from_str("\t\t   \t1, \t2,       3          ").unwrap();
    assert_eq!(a, c);
}

#[test]
fn pattern_parsing_status_codes_catches_invalid_whitespace() {
    check_pattern_parsing_status_codes_catches_invalid_whitespace("1 2", K::InvalidNumber);
    check_pattern_parsing_status_codes_catches_invalid_whitespace("5,1 2", K::InvalidNumber);
    check_pattern_parsing_status_codes_catches_invalid_whitespace("1 2,5", K::InvalidNumber);

    check_pattern_parsing_status_codes_catches_invalid_whitespace("1. .2", K::WrongDots);
    check_pattern_parsing_status_codes_catches_invalid_whitespace("5,1. .2", K::WrongDots);
    check_pattern_parsing_status_codes_catches_invalid_whitespace("1. .2,5", K::WrongDots);
}

#[test]
fn parsing_fails_on_empty() {
    check_parsing_fails_on_empty("");
    check_parsing_fails_on_empty("    ");
    check_parsing_fails_on_empty("  ,,,  ");
}

#[test]
fn pattern_error_report_points_at_the_character() {
    let err = CodePattern::from_str("1,2!").err().unwrap();
    assert_eq!(err.input, "1,2!");
    assert_eq!(
        err.message(),
        "Invalid characters: must be digits, commas, periods, or whitespace.\n  1,2!\n     ^"
    );
    assert_eq!(K::Empty.message(), "Invalid value: Pattern cannot be empty.");
}

#[test]
fn pattern_contains_exactly_the_listed_codes() {
    let s = CodePattern::from_str("1..3,5,10..12").unwrap();
    let members: Vec<i32> = (-5..300).filter(|c| s.contains(*c)).collect();
    assert_eq!(members, vec![1, 2, 3, 5, 10, 11, 12]);
}

#[test]
fn pattern_edge_codes() {
    let s = CodePattern::from_str("0, 255").unwrap();
    assert!(s.contains(0));
    assert!(s.contains(255));
    assert!(!s.contains(256));
    assert!(!s.contains(-1));
    let all = CodePattern::from_str("255..0").unwrap();
    assert_eq!(all, CodePattern::default().with_range(0..=255));
    let err = CodePattern::from_str("99999999999").err().unwrap();
    assert_eq!(err.kind, K::InvalidNumber);
    assert_eq!(err.idx, 10);
    let err = CodePattern::from_str("1.2").err().unwrap();
    assert_eq!((err.kind, err.idx), (K::WrongDots, 2));
    let err = CodePattern::from_str("1...2").err().unwrap();
    assert_eq!((err.kind, err.idx), (K::WrongDots, 3));
}

#[test]
fn pattern_with_backwards_range_adds_nothing() {
    let s = CodePattern::only(7).with_range(5..=3);
    assert_eq!(s, CodePattern::only(7));
}
