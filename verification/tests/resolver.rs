use k2::error::{Boundary, Conflict, ReadError};
use k2::instant::{is_expression_supported, parse_datetime, parse_relative};
use k2::text::parse_i64;
use k2::window::{resolve, resolve_now, resolve_parsed, Window, WindowStart};

const NOW: i64 = 1_700_000_000_000;

#[test]
fn absolute_start_and_end_resolve() {
    let window = resolve(
        Some("2023-11-14T00:00:00+00:00"),
        Some("2023-11-14T01:00:00+01:00"),
        None,
        None,
        None,
        NOW,
    )
    .unwrap();
    assert_eq!(window.start, Some(WindowStart::Absolute(1_699_920_000_000)));
    assert_eq!(window.end, 1_699_920_000_000);
}

#[test]
fn absolute_start_alone_ends_now() {
    let window = resolve(Some("1970-01-01T00:00:01.5Z"), None, None, None, None, NOW).unwrap();
    assert_eq!(window, Window { start: Some(WindowStart::Absolute(1_500)), end: NOW });
}

#[test]
fn literal_offset_alone_resolves() {
    let window = resolve(None, None, Some("-10"), None, None, NOW).unwrap();
    assert_eq!(window, Window { start: Some(WindowStart::Tail(-10)), end: NOW });
    let window = resolve(None, None, Some("25"), None, None, NOW).unwrap();
    assert_eq!(window, Window { start: Some(WindowStart::Tail(25)), end: NOW });
}

#[test]
fn relative_start_alone_resolves() {
    let window = resolve(None, None, None, Some("1 hour ago"), None, NOW).unwrap();
    assert_eq!(window, Window { start: Some(WindowStart::Relative(NOW - 3_600_000)), end: NOW });
}

#[test]
fn relative_start_and_end_resolve() {
    let window = resolve(None, None, None, Some("2 days ago"), Some("30 minutes ago"), NOW).unwrap();
    assert_eq!(
        window,
        Window { start: Some(WindowStart::Relative(NOW - 172_800_000)), end: NOW - 1_800_000 }
    );
}

#[test]
fn no_parameters_give_an_open_start() {
    let window = resolve(None, None, None, None, None, NOW).unwrap();
    assert_eq!(window, Window { start: None, end: NOW });
    assert_eq!(resolve_parsed(None, None, None, None, None, 7), Ok(Window { start: None, end: 7 }));
}

#[test]
fn ambiguous_start_is_a_conflict() {
    let got = resolve(Some("2023-11-14T00:00:00Z"), None, None, Some("1 hour ago"), None, NOW);
    assert_eq!(got, Err(ReadError::ConflictingParameters(Conflict::AmbiguousStart)));
    let got = resolve(Some("2023-11-14T00:00:00Z"), None, Some("3"), Some("1 hour ago"), None, NOW);
    assert_eq!(got, Err(ReadError::ConflictingParameters(Conflict::AmbiguousStart)));
}

#[test]
fn ambiguous_end_is_a_conflict() {
    let got = resolve(None, Some("2023-11-14T00:00:00Z"), None, None, Some("1 hour ago"), NOW);
    assert_eq!(got, Err(ReadError::ConflictingParameters(Conflict::AmbiguousEnd)));
}

#[test]
fn every_other_mixture_is_a_conflict() {
    let mixture = Err(ReadError::ConflictingParameters(Conflict::Mixture));
    assert_eq!(resolve_parsed(None, Some(5), None, None, None, NOW), mixture);
    assert_eq!(resolve_parsed(None, None, None, None, Some(5), NOW), mixture);
    assert_eq!(resolve_parsed(Some(1), None, Some(2), None, None, NOW), mixture);
    assert_eq!(resolve_parsed(Some(1), Some(2), Some(3), None, None, NOW), mixture);
    assert_eq!(resolve_parsed(None, None, Some(2), Some(3), None, NOW), mixture);
    assert_eq!(resolve_parsed(Some(1), Some(2), None, Some(3), None, NOW), mixture);
    assert_eq!(resolve_parsed(Some(1), None, None, None, Some(3), NOW), mixture);
    assert_eq!(resolve_parsed(Some(1), Some(2), Some(3), Some(4), Some(5), NOW), mixture);
}

#[test]
fn all_thirty_two_presence_patterns() {
    let mut accepted = 0;
    for bits in 0u32..32 {
        let pick = |bit: u32, value: i64| if bits & (1 << bit) != 0 { Some(value) } else { None };
        let got = resolve_parsed(pick(0, 10), pick(1, 20), pick(2, 30), pick(3, 40), pick(4, 50), NOW);
        let legal = matches!(bits, 0 | 0b00001 | 0b00011 | 0b00100 | 0b01000 | 0b11000);
        assert_eq!(got.is_ok(), legal);
        if let Err(error) = got {
            assert!(matches!(error, ReadError::ConflictingParameters(_)));
        } else {
            accepted += 1;
        }
    }
    assert_eq!(accepted, 6);
}

#[test]
fn malformed_timestamp_is_refused() {
    assert_eq!(
        parse_datetime("yesterday", Boundary::End),
        Err(ReadError::InvalidTimestamp(Boundary::End))
    );
    assert_eq!(
        parse_datetime("2023-11-14 00:00:00", Boundary::Start),
        Err(ReadError::InvalidTimestamp(Boundary::Start))
    );
    assert_eq!(
        resolve(Some("2023-11-14T00:00:00Z"), Some("soon"), None, None, None, NOW),
        Err(ReadError::InvalidTimestamp(Boundary::End))
    );
    assert_eq!(
        resolve(Some("2023-13-14T00:00:00Z"), None, None, None, None, NOW),
        Err(ReadError::InvalidTimestamp(Boundary::Start))
    );
    assert_eq!(
        resolve(None, Some("not a date"), None, None, None, NOW),
        Err(ReadError::InvalidTimestamp(Boundary::End))
    );
}

#[test]
fn well_formed_timestamp_is_read() {
    assert_eq!(parse_datetime("1970-01-01T00:00:00Z", Boundary::End), Ok(0));
    assert_eq!(parse_datetime("1969-12-31T23:59:59Z", Boundary::End), Ok(-1_000));
    assert_eq!(parse_datetime("2001-09-09T01:46:40.555+00:00", Boundary::End), Ok(1_000_000_000_555));
    assert_eq!(parse_datetime("1996-12-19T16:39:57-08:00", Boundary::End), Ok(851_042_397_000));
}

#[test]
fn malformed_offset_is_refused() {
    assert_eq!(resolve(None, None, Some("ten"), None, None, NOW), Err(ReadError::InvalidOffset));
    assert_eq!(resolve(None, None, Some(""), None, None, NOW), Err(ReadError::InvalidOffset));
    assert_eq!(
        resolve(None, None, Some("9223372036854775808"), None, None, NOW),
        Err(ReadError::InvalidOffset)
    );
}

#[test]
fn malformed_expression_is_refused() {
    assert_eq!(
        resolve(None, None, None, Some("a while back"), None, NOW),
        Err(ReadError::InvalidRelativeOffset(Boundary::Start))
    );
    assert_eq!(
        resolve(None, None, None, Some("1 hour ago"), Some("whenever"), NOW),
        Err(ReadError::InvalidRelativeOffset(Boundary::End))
    );
    assert_eq!(
        parse_relative("", NOW, Boundary::End),
        Err(ReadError::InvalidRelativeOffset(Boundary::End))
    );
}

#[test]
fn the_first_malformed_parameter_decides() {
    assert_eq!(
        resolve(Some("bad"), Some("bad"), Some("bad"), Some("bad"), Some("bad"), NOW),
        Err(ReadError::InvalidTimestamp(Boundary::Start))
    );
    assert_eq!(
        resolve(None, None, Some("bad"), Some("bad"), None, NOW),
        Err(ReadError::InvalidOffset)
    );
    assert_eq!(
        resolve(Some("2023-11-14T00:00:00Z"), None, None, Some("bad"), None, NOW),
        Err(ReadError::InvalidRelativeOffset(Boundary::Start))
    );
}

#[test]
fn relative_expressions_follow_the_anchor() {
    assert_eq!(parse_relative("now", NOW, Boundary::Start), Ok(NOW));
    assert_eq!(parse_relative("15m ago", NOW, Boundary::Start), Ok(NOW - 900_000));
    assert_eq!(parse_relative("3 hours", NOW, Boundary::Start), Ok(NOW + 10_800_000));
    assert_eq!(parse_relative("1 hour ago", 3_600_000, Boundary::Start), Ok(0));
    // 2023-11-14 22:13:20 UTC is a Tuesday.
    assert_eq!(parse_relative("2018-03-21 11:00", NOW, Boundary::Start), Ok(1_521_630_000_000));
}

#[test]
fn unsupported_expressions_are_refused_without_parsing() {
    assert!(is_expression_supported("1 hour ago"));
    assert!(is_expression_supported("999999 days ago"));
    assert!(is_expression_supported("10:30:05.123456"));
    assert!(is_expression_supported("10:30:05.1234567890"));
    assert!(is_expression_supported("ends with a dot."));
    assert!(!is_expression_supported("1000000 days ago"));
    assert!(!is_expression_supported("3 h\u{e9}\u{e9}\u{e9}"));
    assert!(!is_expression_supported("1:2:3.x"));
    assert!(!is_expression_supported("1:2:3. 5"));
    assert_eq!(parse_relative("1000000 days ago", NOW, Boundary::Start), Err(ReadError::InvalidRelativeOffset(Boundary::Start)));
    assert_eq!(parse_relative("1:2:3.x", NOW, Boundary::Start), Err(ReadError::InvalidRelativeOffset(Boundary::Start)));
    assert_eq!(parse_relative("3 h\u{e9}\u{e9}\u{e9}", NOW, Boundary::Start), Err(ReadError::InvalidRelativeOffset(Boundary::Start)));
    assert_eq!(parse_relative("999999 days ago", NOW, Boundary::Start), Ok(NOW - 999_999 * 86_400_000));
    assert_eq!(parse_relative("999999 years", NOW, Boundary::Start), Err(ReadError::InvalidRelativeOffset(Boundary::Start)));
}

#[test]
fn anchors_outside_the_supported_years_are_refused() {
    assert_eq!(parse_relative("1 hour ago", -1, Boundary::Start), Err(ReadError::InvalidRelativeOffset(Boundary::Start)));
    assert_eq!(
        parse_relative("1 hour ago", 253_402_300_800_000, Boundary::Start),
        Err(ReadError::InvalidRelativeOffset(Boundary::Start))
    );
    assert_eq!(
        parse_relative("1 hour ago", 253_402_300_799_999, Boundary::Start),
        Ok(253_402_300_799_999 - 3_600_000)
    );
    assert_eq!(parse_relative("999999 weeks", 253_402_300_799_999, Boundary::Start).is_ok(), true);
}

#[test]
fn decimal_integers_are_read_as_the_standard_library_reads_them() {
    let cases = [
        "0", "-0", "+0", "7", "+7", "-7", "007", "-9223372036854775808", "9223372036854775807",
        "9223372036854775808", "-9223372036854775809", "", "+", "-", "--1", "1-", " 1", "1 ",
        "1_000", "0x10", "12a", "\u{663}", "99999999999999999999999999", "000000000000000000000000012",
    ];
    for case in cases {
        assert_eq!(parse_i64(case), case.parse::<i64>().ok(), "{:?}", case);
    }
    assert_eq!(parse_i64("-42"), Some(-42));
    assert_eq!(parse_i64("+42"), Some(42));
}

#[test]
fn resolving_now_reads_the_clock_once() {
    let window = resolve_now(None, None, None, Some("now"), None).unwrap();
    assert!(window.end > NOW);
    assert_eq!(window.start, Some(WindowStart::Relative(window.end)));
    let window = resolve_now(None, None, None, Some("1 hour ago"), Some("10 min ago")).unwrap();
    match window.start {
        Some(WindowStart::Relative(start)) => assert_eq!(window.end - start, 3_000_000),
        _ => panic!("expected a relative start"),
    }
    assert_eq!(
        resolve_now(Some("2023-11-14T00:00:00Z"), Some("2023-11-15T00:00:00Z"), None, None, None),
        Ok(Window { start: Some(WindowStart::Absolute(1_699_920_000_000)), end: 1_700_006_400_000 })
    );
}
