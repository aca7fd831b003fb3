//! Small helpers on text that the rest of the crate shares.

use vstd::prelude::*;
use vstd::string::StringExecFns;

verus! {

/// Decides whether two texts hold the same characters in the same order.
pub fn str_eq(a: &str, b: &str) -> (same: bool)
    ensures
        same == (a@ == b@),
{
    let left = String::from_str(a);
    let right = String::from_str(b);
    left == right
}

/// The standard library's error for bytes that are not UTF-8. It is only
/// ever passed on.
#[verifier::external_type_specification]
#[verifier::external_body]
pub struct ExUtf8Error(core::str::Utf8Error);

/// Trusted: `core::str::from_utf8`. It succeeds exactly on bytes that are
/// UTF-8, and the text then holds the characters that the bytes encode.
#[verifier::external_body]
pub(crate) fn utf8_text<'a>(bytes: &'a [u8]) -> (text: Result<&'a str, core::str::Utf8Error>)
    ensures
        match text {
            Ok(t) => vstd::utf8::valid_utf8(bytes@) && t@ == vstd::utf8::decode_utf8(bytes@),
            Err(_) => !vstd::utf8::valid_utf8(bytes@),
        },
{
    core::str::from_utf8(bytes)
}

/// Trusted: `String::push` from the standard library. It appends the
/// character.
#[verifier::external_body]
pub(crate) fn push_char(out: &mut String, c: char)
    ensures
        final(out)@ == old(out)@.push(c),
{
    out.push(c)
}

/// The text of a `str` as its `Debug` form shows it: quoted and escaped.
pub uninterp spec fn debug_quoted(text: Seq<char>) -> Seq<char>;

/// Trusted: the `Debug` form of a `str`, through `format!`. The contract
/// only gives the result its name.
#[verifier::external_body]
pub(crate) fn debug_str(text: &str) -> (shown: String)
    ensures
        shown@ == debug_quoted(text@),
{
    format!("{:?}", text)
}

/// Decides whether a character occurs in a text.
pub fn contains_char(text: &str, wanted: char) -> (found: bool)
    ensures
        found == text@.contains(wanted),
{
    let mut found = false;
    for c in it: text.chars()
        invariant
            it.seq() == text@,
            found == exists|i: int| 0 <= i < it.index() && text@[i] == wanted,
    {
        assert(c == text@[it.index() as int]);
        if c == wanted {
            found = true;
        }
    }
    found
}

/// Whether a character is one of the digits `0` to `9`.
pub open spec fn is_decimal_digit(c: char) -> bool {
    '0' <= c <= '9'
}

/// Whether a text holds digits only.
pub open spec fn all_decimal_digits(digits: Seq<char>) -> bool {
    forall|i: int| 0 <= i < digits.len() ==> is_decimal_digit(#[trigger] digits[i])
}

/// The number that a string of decimal digits denotes.
pub open spec fn digits_value(digits: Seq<char>) -> int
    decreases digits.len(),
{
    if digits.len() == 0 {
        0
    } else {
        digits_value(digits.drop_last()) * 10 + (digits.last() as int - '0' as int)
    }
}

/// The integer that a text denotes: an optional `+` or `-`, then at least
/// one decimal digit and nothing else, with a value that an `i64` can hold.
pub open spec fn decimal_i64(text: Seq<char>) -> Option<i64> {
    let signed = text.len() > 0 && (text[0] == '-' || text[0] == '+');
    let digits = if signed { text.skip(1) } else { text };
    let value = if text.len() > 0 && text[0] == '-' {
        -digits_value(digits)
    } else {
        digits_value(digits)
    };
    if digits.len() > 0 && all_decimal_digits(digits) && i64::MIN <= value <= i64::MAX {
        Some(value as i64)
    } else {
        None
    }
}

proof fn lemma_digits_value_nonnegative(digits: Seq<char>)
    requires
        all_decimal_digits(digits),
    ensures
        digits_value(digits) >= 0,
    decreases digits.len(),
{
    if digits.len() > 0 {
        lemma_digits_value_nonnegative(digits.drop_last());
    }
}

/// Reads a decimal integer.
pub fn parse_i64(text: &str) -> (parsed: Option<i64>)
    ensures
        parsed == decimal_i64(text@),
{
    let mut signed = false;
    let mut negative = false;
    let mut valid = true;
    let mut in_range = true;
    let mut seen: bool = false;
    // The digits read so far, negated, so that the smallest `i64` fits.
    let mut acc: i64 = 0;
    for c in it: text.chars()
        invariant
            it.seq() == text@,
            signed == (it.index() > 0 && (text@[0] == '-' || text@[0] == '+')),
            negative == (it.index() > 0 && text@[0] == '-'),
            seen == (it.index() > (if signed { 1int } else { 0int })),
            it.index() == 0 ==> valid && in_range && acc == 0,
            it.index() > 0 ==> {
                let digits = text@.subrange(if signed { 1int } else { 0int }, it.index() as int);
                &&& valid == all_decimal_digits(digits)
                &&& valid && in_range ==> acc == -digits_value(digits)
                &&& valid && !in_range ==> digits_value(digits) > -(i64::MIN as int)
            },
    {
        let ghost idx = it.index() as int;
        assert(c == text@[idx]);
        let first = !seen && !signed;
        if first && (c == '-' || c == '+') {
            assert(idx == 0);
            signed = true;
            negative = c == '-';
            assert(text@.subrange(1, 1).len() == 0);
        } else {
            let ghost start = if signed { 1int } else { 0int };
            let ghost before = text@.subrange(start, idx);
            let ghost after = text@.subrange(start, idx + 1);
            assert(after.drop_last() == before);
            assert(after.last() == c);
            assert(idx == 0 ==> before.len() == 0);
            seen = true;
            if '0' <= c && c <= '9' {
                proof {
                    if valid {
                        lemma_digits_value_nonnegative(before);
                    }
                }
                let d: i64 = (c as u32 - '0' as u32) as i64;
                if in_range {
                    let wide: i128 = acc as i128 * 10 - d as i128;
                    if wide < i64::MIN as i128 {
                        in_range = false;
                    } else {
                        acc = wide as i64;
                    }
                }
            } else {
                valid = false;
                assert(!is_decimal_digit(after[after.len() - 1]));
            }
        }
    }
    proof {
        let start = if signed { 1int } else { 0int };
        if text@.len() > 0 {
            assert(text@.subrange(start, text@.len() as int) == if signed {
                text@.skip(1)
            } else {
                text@
            });
        }
    }
    if !seen || !valid || !in_range {
        None
    } else if negative {
        Some(acc)
    } else if acc == i64::MIN {
        None
    } else {
        Some(-acc)
    }
}


/// The character that shows a digit.
pub open spec fn digit_char(digit: int) -> char {
    if digit == 0 {
        '0'
    } else if digit == 1 {
        '1'
    } else if digit == 2 {
        '2'
    } else if digit == 3 {
        '3'
    } else if digit == 4 {
        '4'
    } else if digit == 5 {
        '5'
    } else if digit == 6 {
        '6'
    } else if digit == 7 {
        '7'
    } else if digit == 8 {
        '8'
    } else {
        '9'
    }
}

/// A natural number in decimal, without leading zeros.
pub open spec fn natural_text(n: nat) -> Seq<char>
    decreases n,
{
    if n < 10 {
        seq![digit_char(n as int)]
    } else {
        natural_text(n / 10).push(digit_char((n % 10) as int))
    }
}

/// An integer in decimal: a minus sign for a negative one, then its
/// magnitude.
pub open spec fn decimal_text(value: int) -> Seq<char> {
    if value < 0 {
        seq!['-'] + natural_text((-value) as nat)
    } else {
        natural_text(value as nat)
    }
}

/// A list of integers as `[1, 2, 3]`.
pub open spec fn list_text(items: Seq<int>) -> Seq<char> {
    seq!['['] + joined_text(items) + seq![']']
}

/// Integers in decimal, separated by a comma and a space.
pub open spec fn joined_text(items: Seq<int>) -> Seq<char>
    decreases items.len(),
{
    if items.len() == 0 {
        Seq::empty()
    } else if items.len() == 1 {
        decimal_text(items[0])
    } else {
        joined_text(items.drop_last()) + seq![',', ' '] + decimal_text(items.last())
    }
}

/// Optional bytes as `None` or `Some([1, 2, 3])`.
pub open spec fn optional_bytes_text(bytes: Option<Seq<u8>>) -> Seq<char> {
    match bytes {
        None => seq!['N', 'o', 'n', 'e'],
        Some(b) => seq!['S', 'o', 'm', 'e', '('] + list_text(b.map_values(|x: u8| x as int))
            + seq![')'],
    }
}

fn digit_str(digit: u64) -> (text: &'static str)
    requires
        digit < 10,
    ensures
        text@ == seq![digit_char(digit as int)],
{
    proof {
        reveal_strlit("0");
        reveal_strlit("1");
        reveal_strlit("2");
        reveal_strlit("3");
        reveal_strlit("4");
        reveal_strlit("5");
        reveal_strlit("6");
        reveal_strlit("7");
        reveal_strlit("8");
        reveal_strlit("9");
    }
    let text = if digit == 0 {
        "0"
    } else if digit == 1 {
        "1"
    } else if digit == 2 {
        "2"
    } else if digit == 3 {
        "3"
    } else if digit == 4 {
        "4"
    } else if digit == 5 {
        "5"
    } else if digit == 6 {
        "6"
    } else if digit == 7 {
        "7"
    } else if digit == 8 {
        "8"
    } else {
        "9"
    };
    assert(text@ =~= seq![digit_char(digit as int)]);
    text
}

/// Appends a natural number in decimal.
pub fn push_natural(out: &mut String, n: u64)
    ensures
        final(out)@ == old(out)@ + natural_text(n as nat),
    decreases n,
{
    if n >= 10 {
        push_natural(out, n / 10);
    }
    out.append(digit_str(n % 10));
    assert(final(out)@ =~= old(out)@ + natural_text(n as nat));
}

/// Appends an integer in decimal.
pub fn push_decimal(out: &mut String, value: i64)
    ensures
        final(out)@ == old(out)@ + decimal_text(value as int),
{
    if value < 0 {
        proof {
            reveal_strlit("-");
        }
        out.append("-");
        let magnitude: u64 = (-(value as i128)) as u64;
        push_natural(out, magnitude);
        assert(final(out)@ =~= old(out)@ + decimal_text(value as int));
    } else {
        push_natural(out, value as u64);
    }
}

/// Appends optional bytes as `None` or `Some([1, 2, 3])`.
pub fn push_optional_bytes(out: &mut String, bytes: &Option<Vec<u8>>)
    ensures
        final(out)@ == old(out)@ + optional_bytes_text(
            match *bytes {
                Some(b) => Some(b@),
                None => None,
            },
        ),
{
    proof {
        reveal_strlit("None");
        reveal_strlit("Some([");
        reveal_strlit(", ");
        reveal_strlit("])");
    }
    match bytes {
        None => {
            out.append("None");
            assert(final(out)@ =~= old(out)@ + optional_bytes_text(None));
        },
        Some(b) => {
            out.append("Some([");
            let ghost items = b@.map_values(|x: u8| x as int);
            let mut i: usize = 0;
            while i < b.len()
                invariant
                    i <= b.len(),
                    items == b@.map_values(|x: u8| x as int),
                    out@ == old(out)@ + seq!['S', 'o', 'm', 'e', '(', '['] + joined_text(
                        items.take(i as int),
                    ),
                decreases b.len() - i,
            {
                let ghost before = items.take(i as int);
                let ghost after = items.take(i + 1);
                assert(after.drop_last() == before);
                assert(after.last() == b@[i as int] as int);
                assert(joined_text(after) =~= if i == 0 {
                    decimal_text(b@[i as int] as int)
                } else {
                    joined_text(before) + seq![',', ' '] + decimal_text(b@[i as int] as int)
                });
                assert(", "@ =~= seq![',', ' ']) by {
                    reveal_strlit(", ");
                }
                if i > 0 {
                    out.append(", ");
                }
                push_decimal(out, b[i] as i64);
                assert(out@ =~= old(out)@ + seq!['S', 'o', 'm', 'e', '(', '['] + joined_text(after));
                i = i + 1;
            }
            assert(items.take(b@.len() as int) == items);
            out.append("])");
            assert(final(out)@ =~= old(out)@ + optional_bytes_text(Some(b@)));
        },
    }
}

/// Appends a list of integers as `[1, 2, 3]`.
pub fn push_list(out: &mut String, items: &Vec<i32>)
    ensures
        final(out)@ == old(out)@ + list_text(items@.map_values(|x: i32| x as int)),
{
    proof {
        reveal_strlit("[");
        reveal_strlit(", ");
        reveal_strlit("]");
    }
    out.append("[");
    let ghost values = items@.map_values(|x: i32| x as int);
    let mut i: usize = 0;
    while i < items.len()
        invariant
            i <= items.len(),
            values == items@.map_values(|x: i32| x as int),
            out@ == old(out)@ + seq!['['] + joined_text(values.take(i as int)),
        decreases items.len() - i,
    {
        let ghost before = values.take(i as int);
        let ghost after = values.take(i + 1);
        assert(after.drop_last() == before);
        assert(after.last() == items@[i as int] as int);
        assert(joined_text(after) =~= if i == 0 {
            decimal_text(items@[i as int] as int)
        } else {
            joined_text(before) + seq![',', ' '] + decimal_text(items@[i as int] as int)
        });
        assert(", "@ =~= seq![',', ' ']) by {
            reveal_strlit(", ");
        }
        if i > 0 {
            out.append(", ");
        }
        push_decimal(out, items[i] as i64);
        assert(out@ =~= old(out)@ + seq!['['] + joined_text(after));
        i = i + 1;
    }
    assert(values.take(items@.len() as int) == values);
    out.append("]");
    assert(final(out)@ =~= old(out)@ + list_text(values));
}

} // verus!
