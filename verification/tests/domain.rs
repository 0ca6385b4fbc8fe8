use eq_grapher::components::domain::Domain;
use eq_grapher::error::PipelineError;
use eq_grapher::interval::{parse_domain, DomainInterval, MAX_SAMPLES};
use eq_grapher::key::Key;

fn interval(start: i64, end: i64) -> Result<DomainInterval, PipelineError> {
    Ok(DomainInterval { start, end })
}

#[test]
fn plain_domains() {
    assert_eq!(parse_domain("0..3"), interval(0, 3));
    assert_eq!(parse_domain("-2..2"), interval(-2, 2));
    assert_eq!(parse_domain("-5..5"), interval(-5, 5));
    assert_eq!(parse_domain("10..-10"), interval(10, -10));
    assert_eq!(parse_domain("0..0"), interval(0, 0));
    assert_eq!(parse_domain("12345..67890"), interval(12345, 67890));
}

#[test]
fn signs_and_leading_zeros() {
    assert_eq!(parse_domain("+1..+2"), interval(1, 2));
    assert_eq!(parse_domain("-0..+0"), interval(0, 0));
    assert_eq!(parse_domain("007..010"), interval(7, 10));
    assert_eq!(parse_domain("-0012..0"), interval(-12, 0));
}

#[test]
fn ends_of_the_integer_range() {
    assert_eq!(
        parse_domain("-9223372036854775808..9223372036854775807"),
        interval(i64::MIN, i64::MAX)
    );
    assert_eq!(
        parse_domain("+9223372036854775807..-9223372036854775808"),
        interval(i64::MAX, i64::MIN)
    );
    assert_eq!(parse_domain("00000000000000000000000000000000000001..2"), interval(1, 2));
}

#[test]
fn integers_out_of_range_are_format_errors() {
    for text in [
        "9223372036854775808..0",
        "0..9223372036854775808",
        "-9223372036854775809..0",
        "0..-9223372036854775809",
        "99999999999999999999..1",
        "1..184467440737095516160",
        "18446744073709551616..1",
        "1..100000000000000000000000000000000000000000",
    ] {
        assert_eq!(parse_domain(text), Err(PipelineError::DomainFormatError), "{text}");
    }
}

#[test]
fn text_without_integers_is_a_format_error() {
    for text in ["abc", "", ".", "..", "...", "....", "a..b", "x..3", "0..x"] {
        assert_eq!(parse_domain(text), Err(PipelineError::DomainFormatError), "{text}");
    }
}

#[test]
fn a_missing_side_is_a_format_error() {
    for text in ["1..", "..2", "-..2", "1..-", "+..2", "1..+", "3", "-3", "1.2", "1.", ".1"] {
        assert_eq!(parse_domain(text), Err(PipelineError::DomainFormatError), "{text}");
    }
}

#[test]
fn more_than_one_separator_is_a_format_error() {
    for text in ["1..2..3", "1...2", "1....2", "..1..2", "1..2..", "1.. ..2"] {
        assert_eq!(parse_domain(text), Err(PipelineError::DomainFormatError), "{text}");
    }
}

#[test]
fn whitespace_is_not_tolerated() {
    for text in [" 1..2", "1..2 ", "1 ..2", "1.. 2", "1..2\n", "\t1..2", "- 1..2", "1. .2"] {
        assert_eq!(parse_domain(text), Err(PipelineError::DomainFormatError), "{text}");
    }
}

#[test]
fn stray_characters_are_format_errors() {
    for text in [
        "1a..2", "1..2b", "--1..2", "1..--2", "+-1..2", "1_000..2", "1e3..2", "0x10..2", "1,2..3",
        "\u{663}..4", "1..\u{ff12}", "1\u{2025}2", "1\u{2026}2", "\u{2212}1..2",
    ] {
        assert_eq!(parse_domain(text), Err(PipelineError::DomainFormatError), "{text}");
    }
}

#[test]
fn sides_are_read_as_the_standard_library_reads_integers() {
    let sides = [
        "0", "1", "-1", "+1", "", "+", "-", "00", "-00", "9223372036854775807",
        "9223372036854775808", "-9223372036854775808", "-9223372036854775809", "12a", "a12", " 1",
        "1 ", "--1", "++1", "+-1", "1-", "\u{663}", "123456789012345678",
        "1234567890123456789", "12345678901234567890",
    ];
    for left in sides {
        for right in sides {
            let text = format!("{left}..{right}");
            let expected = match (left.parse::<i64>(), right.parse::<i64>()) {
                (Ok(start), Ok(end)) => interval(start, end),
                _ => Err(PipelineError::DomainFormatError),
            };
            assert_eq!(parse_domain(&text), expected, "{text}");
        }
    }
}

#[test]
fn sample_count_is_the_number_of_integers() {
    assert_eq!(DomainInterval { start: 0, end: 3 }.sample_count(), Some(4));
    assert_eq!(DomainInterval { start: -2, end: 2 }.sample_count(), Some(5));
    assert_eq!(DomainInterval { start: 7, end: 7 }.sample_count(), Some(1));
    assert_eq!(DomainInterval { start: 3, end: 0 }.sample_count(), Some(0));
    assert_eq!(DomainInterval { start: i64::MAX, end: i64::MIN }.sample_count(), Some(0));
    assert_eq!(
        DomainInterval { start: 1, end: MAX_SAMPLES as i64 }.sample_count(),
        Some(MAX_SAMPLES as usize)
    );
    assert_eq!(DomainInterval { start: 0, end: MAX_SAMPLES as i64 }.sample_count(), None);
    assert_eq!(DomainInterval { start: i64::MIN, end: i64::MAX }.sample_count(), None);
    assert_eq!(
        DomainInterval { start: i64::MAX - 999_999, end: i64::MAX }.sample_count(),
        Some(1_000_000)
    );
}

#[test]
fn domain_field_takes_characters_and_backspace() {
    let mut field = Domain::new();
    assert_eq!(field.domain_text, "");
    assert!(field.event(Key::Char('0')));
    assert!(field.event(Key::Char('.')));
    assert!(field.event(Key::Char('x')));
    assert_eq!(field.domain_text, "0.x");
    assert!(!field.event(Key::Backspace));
    assert_eq!(field.domain_text, "0.");
    for key in [Key::Tab, Key::Enter, Key::Esc, Key::Other] {
        assert!(!field.event(key));
        assert_eq!(field.domain_text, "0.");
    }
    assert!(field.event(Key::Char('.')));
    assert!(field.event(Key::Char('3')));
    assert_eq!(field.interval(), interval(0, 3));
    field.reset();
    assert_eq!(field.domain_text, "");
    assert_eq!(field.interval(), Err(PipelineError::DomainFormatError));
}

#[test]
fn backspace_on_an_empty_domain_field_does_nothing() {
    let mut field = Domain::new();
    assert!(!field.event(Key::Backspace));
    assert_eq!(field.domain_text, "");
    assert!(field.event(Key::Char('\u{e9}')));
    assert!(!field.event(Key::Backspace));
    assert_eq!(field.domain_text, "");
}
