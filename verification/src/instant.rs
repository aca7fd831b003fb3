//! Points in time as milliseconds since the Unix epoch, and the two ways a
//! user writes one down: as a date-time with offset, or as an English
//! expression relative to the present moment.

use vstd::prelude::*;
use vstd::string::StringExecFns;
use chrono_english::Dialect;
use crate::error::{Boundary, ReadError};
use crate::text::is_decimal_digit;

verus! {

/// The error of `chrono`'s parsers. It is dropped, or asked for its words.
#[verifier::external_type_specification]
#[verifier::external_body]
pub struct ExParseError(chrono::ParseError);

/// The error of `chrono_english`'s parser. It is dropped, or asked for its
/// words.
#[verifier::external_type_specification]
#[verifier::external_body]
pub struct ExDateError(chrono_english::DateError);

/// The kinds of English that `chrono_english` reads, as that crate
/// declares them.
#[verifier::external_type_specification]
pub struct ExDialect(Dialect);

/// The instant that `chrono` reads from an RFC 3339 date-time, in
/// milliseconds since the epoch, or `None` where it rejects the text.
pub uninterp spec fn rfc3339_instant(text: Seq<char>) -> Option<i64>;

/// The instant that `chrono_english` reads from an expression in the given
/// dialect, seen from the instant `now` (UTC, milliseconds since the epoch),
/// or `None` where it rejects the expression.
pub uninterp spec fn relative_instant(text: Seq<char>, now: i64, dialect: Dialect) -> Option<i64>;

/// Longest expression that is handed to the expression parser.
pub const MAX_EXPRESSION_CHARS: usize = 0x7fff_ffff;

/// Longest run of decimal digits, other than a fraction of seconds, that is
/// handed to the expression parser.
pub const MAX_DIGIT_RUN: usize = 6;

/// Last millisecond of the year 9999.
pub const MAX_ANCHOR_MILLIS: i64 = 253_402_300_799_999;

/// The white space beyond ASCII.
pub open spec fn is_wide_space(c: char) -> bool {
    ||| c == '\u{85}'
    ||| c == '\u{a0}'
    ||| c == '\u{1680}'
    ||| '\u{2000}' <= c <= '\u{200a}'
    ||| c == '\u{2028}'
    ||| c == '\u{2029}'
    ||| c == '\u{202f}'
    ||| c == '\u{205f}'
    ||| c == '\u{3000}'
}

/// The characters of a supported expression: ASCII, and white space.
pub open spec fn char_supported(c: char) -> bool {
    c <= '\x7f' || is_wide_space(c)
}

/// Number of decimal digits that stand immediately before position `end`.
pub open spec fn digit_run(text: Seq<char>, end: int) -> int
    decreases end,
{
    if 0 < end <= text.len() && is_decimal_digit(text[end - 1]) {
        1 + digit_run(text, end - 1)
    } else {
        0
    }
}

/// Where the digits that stand immediately before position `end` begin.
pub open spec fn run_start(text: Seq<char>, end: int) -> int {
    end - digit_run(text, end)
}

/// Whether a colon stands immediately before position `at`.
pub open spec fn after_colon(text: Seq<char>, at: int) -> bool {
    0 < at <= text.len() && text[at - 1] == ':'
}

/// Whether a colon stands anywhere before position `at`.
pub open spec fn colon_before(text: Seq<char>, at: int) -> bool {
    exists|j: int| 0 <= j < at && j < text.len() && #[trigger] text[j] == ':'
}

/// Whether the digits from position `start` on are a fraction of seconds:
/// a dot stands before them, digits before the dot, and a colon before
/// those, as in `:05.125`.
pub open spec fn starts_fraction(text: Seq<char>, start: int) -> bool {
    &&& 0 < start <= text.len()
    &&& text[start - 1] == '.'
    &&& digit_run(text, start - 1) > 0
    &&& after_colon(text, run_start(text, start - 1))
}

/// The expressions that are passed on to the expression parser. The parser
/// panics on some others, so an expression is passed on only if
/// - it holds ASCII and white space only: the parser cuts words after
///   their first and third byte, and takes any numeral for a digit of a
///   fraction;
/// - no number in it has more than [`MAX_DIGIT_RUN`] digits, but for a
///   fraction of seconds: the parser negates and multiplies what it reads
///   in 32 bits, and adds the span to the anchor expecting the sum to be a
///   date; a fraction it only reads as a decimal number;
/// - every dot after a colon is its last character or has a digit after
///   it: after the seconds the parser takes what follows a dot for a
///   fraction and expects it to be a number;
/// - it has no more than [`MAX_EXPRESSION_CHARS`] characters: the
///   parser's scanner counts lines in 32 bits.
pub open spec fn expression_supported(text: Seq<char>) -> bool {
    &&& text.len() <= MAX_EXPRESSION_CHARS
    &&& forall|i: int| 0 <= i < text.len() ==> char_supported(#[trigger] text[i])
    &&& forall|i: int|
        0 <= i <= text.len() ==> #[trigger] digit_run(text, i) <= MAX_DIGIT_RUN || starts_fraction(
            text,
            run_start(text, i),
        )
    &&& forall|i: int|
        0 < i < text.len() && text[i - 1] == '.' && colon_before(text, i) ==> is_decimal_digit(
            #[trigger] text[i],
        )
}

/// The present moments from which a relative expression is resolved: the
/// years 1970 to 9999, so that no supported expression leaves the range of
/// dates that can be represented.
pub open spec fn anchor_supported(now: i64) -> bool {
    0 <= now <= MAX_ANCHOR_MILLIS
}

/// What a relative expression resolves to, seen from `now`: the parser's
/// answer in the US dialect where expression and anchor are supported,
/// nothing otherwise.
pub open spec fn relative_target(text: Seq<char>, now: i64) -> Option<i64> {
    if expression_supported(text) && anchor_supported(now) {
        relative_instant(text, now, Dialect::Us)
    } else {
        None
    }
}

/// Trusted: `chrono::DateTime::parse_from_rfc3339`, its result converted to
/// UTC milliseconds by `timestamp_millis`. The contract only gives the
/// outcome its name: the instant on success, and that there is none on
/// failure.
#[verifier::external_body]
fn rfc3339_millis(text: &str) -> (parsed: Result<i64, chrono::ParseError>)
    ensures
        match parsed {
            Ok(ms) => rfc3339_instant(text@) == Some(ms),
            Err(_) => rfc3339_instant(text@) is None,
        },
{
    match chrono::DateTime::parse_from_rfc3339(text) {
        Ok(at) => Ok(at.with_timezone(&chrono::Utc).timestamp_millis()),
        Err(e) => Err(e),
    }
}

/// Trusted: `chrono_english::parse_date_string`, anchored at the UTC
/// instant `now` and its result converted to milliseconds. The contract
/// only gives the outcome its name. The inputs on which the parser would
/// panic, in either dialect, are kept out by the two preconditions.
#[verifier::external_body]
fn relative_millis(text: &str, now: i64, dialect: Dialect) -> (parsed: Result<
    i64,
    chrono_english::DateError,
>)
    requires
        expression_supported(text@),
        anchor_supported(now),
    ensures
        match parsed {
            Ok(ms) => relative_instant(text@, now, dialect) == Some(ms),
            Err(_) => relative_instant(text@, now, dialect) is None,
        },
{
    let base = chrono::DateTime::from_timestamp_millis(now).unwrap();
    match chrono_english::parse_date_string(text, base, dialect) {
        Ok(at) => Ok(at.timestamp_millis()),
        Err(e) => Err(e),
    }
}

/// Trusted: `chrono::Utc::now`, converted to milliseconds. Nothing is
/// promised of the clock's reading.
#[verifier::external_body]
pub(crate) fn current_millis() -> (now: i64)
{
    chrono::Utc::now().timestamp_millis()
}

/// Reads the absolute timestamp for one side of the window: a fully
/// specified date-time with offset.
pub fn parse_datetime(text: &str, side: Boundary) -> (parsed: Result<i64, ReadError>)
    ensures
        parsed == match rfc3339_instant(text@) {
            Some(ms) => Ok::<i64, ReadError>(ms),
            None => Err(ReadError::InvalidTimestamp(side)),
        },
{
    match rfc3339_millis(text) {
        Ok(ms) => Ok(ms),
        Err(_) => Err(ReadError::InvalidTimestamp(side)),
    }
}

/// Why a text is no absolute timestamp, in the parser's own words; nothing
/// for a text that is one.
pub fn datetime_reason(text: &str) -> (reason: Option<String>)
    ensures
        reason is Some <==> rfc3339_instant(text@) is None,
{
    match rfc3339_millis(text) {
        Ok(_) => None,
        Err(fault) => Some(fault.to_string()),
    }
}

/// What is said of an expression that is not passed on to the parser.
pub open spec fn unsupported_reason() -> Seq<char> {
    "expression or present moment not supported"@
}

/// Why an expression does not resolve as seen from `now`: the parser's own
/// words where it was asked, and nothing for an expression that resolves.
pub fn expression_reason(text: &str, now: i64) -> (reason: Option<String>)
    ensures
        reason is Some <==> relative_target(text@, now) is None,
        !(expression_supported(text@) && anchor_supported(now)) ==> reason is Some && reason->0@
            == unsupported_reason(),
{
    if now < 0 || now > MAX_ANCHOR_MILLIS || !is_expression_supported(text) {
        return Some(String::from_str("expression or present moment not supported"));
    }
    match relative_millis(text, now, Dialect::Us) {
        Ok(_) => None,
        Err(fault) => Some(fault.to_string()),
    }
}

/// Decides whether an expression is passed on to the expression parser.
pub fn is_expression_supported(text: &str) -> (ok: bool)
    ensures
        ok == expression_supported(text@),
{
    let mut ok = true;
    let mut count: usize = 0;
    // The digits that end here, and what began them.
    let mut run: usize = 0;
    let mut seconds = false;
    let mut fraction = false;
    // What the last character was.
    let mut colon = false;
    let mut dot = false;
    let mut point = false;
    let mut colon_seen = false;
    for c in it: text.chars()
        invariant
            it.seq() == text@,
            count == if it.index() <= MAX_EXPRESSION_CHARS {
                it.index() as int
            } else {
                MAX_EXPRESSION_CHARS + 1
            },
            run == if digit_run(text@, it.index() as int) <= MAX_DIGIT_RUN {
                digit_run(text@, it.index() as int)
            } else {
                MAX_DIGIT_RUN + 1
            },
            seconds == (digit_run(text@, it.index() as int) > 0 && after_colon(
                text@,
                run_start(text@, it.index() as int),
            )),
            fraction == (digit_run(text@, it.index() as int) > 0 && starts_fraction(
                text@,
                run_start(text@, it.index() as int),
            )),
            colon == after_colon(text@, it.index() as int),
            dot == (it.index() > 0 && text@[it.index() - 1] == '.'),
            point == starts_fraction(text@, it.index() as int),
            colon_seen == colon_before(text@, it.index() as int),
            ok == {
                &&& forall|i: int| 0 <= i < it.index() ==> char_supported(#[trigger] text@[i])
                &&& forall|i: int|
                    0 <= i <= it.index() ==> #[trigger] digit_run(text@, i) <= MAX_DIGIT_RUN
                        || starts_fraction(text@, run_start(text@, i))
                &&& forall|i: int|
                    0 < i < it.index() && text@[i - 1] == '.' && colon_before(text@, i)
                        ==> is_decimal_digit(#[trigger] text@[i])
            },
    {
        let ghost at = it.index() as int;
        assert(c == text@[at]);
        let digit = '0' <= c && c <= '9';
        assert(digit_run(text@, at + 1) == if digit {
            1 + digit_run(text@, at)
        } else {
            0
        });
        assert(colon_before(text@, at + 1) == (colon_before(text@, at) || c == ':')) by {
            if colon_before(text@, at + 1) && c != ':' {
                let j = choose|j: int| 0 <= j < at + 1 && j < text@.len() && #[trigger] text@[j] == ':';
                assert(0 <= j < at && text@[j] == ':');
            }
            if colon_before(text@, at) {
                let j = choose|j: int| 0 <= j < at && j < text@.len() && #[trigger] text@[j] == ':';
                assert(0 <= j < at + 1 && text@[j] == ':');
            }
            if c == ':' {
                assert(0 <= at < at + 1 && text@[at] == ':');
            }
        }
        let wide = c == '\u{85}' || c == '\u{a0}' || c == '\u{1680}' || ('\u{2000}' <= c && c
            <= '\u{200a}') || c == '\u{2028}' || c == '\u{2029}' || c == '\u{202f}' || c
            == '\u{205f}' || c == '\u{3000}';
        if c > '\x7f' && !wide {
            ok = false;
        }
        if dot && colon_seen && !digit {
            ok = false;
        }
        if digit {
            if run == 0 {
                seconds = colon;
                fraction = point;
            }
            if run <= MAX_DIGIT_RUN {
                run = run + 1;
            }
            if run > MAX_DIGIT_RUN && !fraction {
                ok = false;
            }
        } else {
            point = c == '.' && seconds;
            run = 0;
            seconds = false;
            fraction = false;
        }
        if digit {
            point = false;
        }
        colon = c == ':';
        dot = c == '.';
        if c == ':' {
            colon_seen = true;
        }
        if count <= MAX_EXPRESSION_CHARS {
            count = count + 1;
        }
    }
    ok && count <= MAX_EXPRESSION_CHARS
}

/// Resolves the relative expression for one side of the window, as seen
/// from `now`.
pub fn parse_relative(text: &str, now: i64, side: Boundary) -> (parsed: Result<i64, ReadError>)
    ensures
        parsed == match relative_target(text@, now) {
            Some(ms) => Ok::<i64, ReadError>(ms),
            None => Err(ReadError::InvalidRelativeOffset(side)),
        },
{
    if now < 0 || now > MAX_ANCHOR_MILLIS || !is_expression_supported(text) {
        return Err(ReadError::InvalidRelativeOffset(side));
    }
    match relative_millis(text, now, Dialect::Us) {
        Ok(ms) => Ok(ms),
        Err(_) => Err(ReadError::InvalidRelativeOffset(side)),
    }
}

} // verus!
