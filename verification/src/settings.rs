//! What the command line leaves to be worked out before a command runs:
//! the defaults for the client's name and group, the presentation
//! settings, and the payload to publish.

use vstd::prelude::*;
use vstd::string::{StrSliceExecFns, StringExecFns};
use crate::common::{Format, FormatConfig, FormatHint, Verbosity};
use crate::text::{natural_text, push_char, push_natural};

verus! {

/// The characters that a client name keeps as they are.
pub open spec fn is_plain(c: char) -> bool {
    ||| 'a' <= c <= 'z'
    ||| 'A' <= c <= 'Z'
    ||| '0' <= c <= '9'
    ||| c == '.'
    ||| c == '_'
    ||| c == '-'
}

/// What stands for one character of a user name: the character itself if
/// it is plain, else an underscore and the low byte of its code in decimal.
pub open spec fn plain_form(c: char) -> Seq<char> {
    if is_plain(c) {
        seq![c]
    } else {
        seq!['_'] + natural_text((c as u32 % 256) as nat)
    }
}

/// A user name with every character replaced by its plain form.
pub open spec fn plain_name(user: Seq<char>) -> Seq<char>
    decreases user.len(),
{
    if user.len() == 0 {
        Seq::empty()
    } else {
        plain_name(user.drop_last()) + plain_form(user.last())
    }
}

/// The client name for a user who gave none.
pub fn default_client_id(user: &str) -> (name: String)
    ensures
        name@ == plain_name(user@),
{
    let mut name = String::new();
    assert(user@.take(0) =~= Seq::<char>::empty());
    for c in it: user.chars()
        invariant
            it.seq() == user@,
            name@ == plain_name(user@.take(it.index() as int)),
    {
        let ghost idx = it.index() as int;
        assert(c == user@[idx]);
        assert(user@.take(idx + 1).drop_last() == user@.take(idx));
        assert(user@.take(idx + 1).last() == c);
        let plain = ('a' <= c && c <= 'z') || ('A' <= c && c <= 'Z') || ('0' <= c && c <= '9')
            || c == '.' || c == '_' || c == '-';
        if plain {
            push_char(&mut name, c);
        } else {
            push_char(&mut name, '_');
            push_natural(&mut name, (c as u32 % 256) as u64);
        }
        assert(name@ =~= plain_name(user@.take(idx + 1)));
    }
    assert(user@.take(user@.len() as int) == user@);
    name
}

/// The consumer group for a client that gave none: the client's name with
/// `_group` after it.
pub fn default_group(client_id: &str) -> (group: String)
    ensures
        group@ == client_id@ + "_group"@,
{
    let mut group = String::from_str(client_id);
    group.append("_group");
    group
}

/// The presentation settings that the command line asks for: the verbosity
/// by the number of times its flag was given, counted in one byte; the
/// format by its name, `Json` without one; the hint by its name, if any.
pub open spec fn settings_of(
    verbose: u64,
    format: Option<Seq<char>>,
    format_hint: Option<Seq<char>>,
) -> FormatConfig {
    FormatConfig {
        verbosity: Verbosity::of_level((verbose % 256) as u8),
        format_hint: match format_hint {
            Some(name) => Some(FormatHint::of_name(name)),
            None => None,
        },
        format: match format {
            Some(name) => Format::of_name(name),
            None => Format::Json,
        },
    }
}

/// Executable form of [`settings_of`].
pub fn format_settings(verbose: u64, format: Option<&str>, format_hint: Option<&str>) -> (config:
    FormatConfig)
    ensures
        config == settings_of(
            verbose,
            crate::window::text_of(format),
            crate::window::text_of(format_hint),
        ),
{
    FormatConfig {
        verbosity: Verbosity::from((verbose % 256) as u8),
        format_hint: match format_hint {
            Some(name) => Some(FormatHint::from(name)),
            None => None,
        },
        format: match format {
            Some(name) => Format::from(name),
            None => Format::Json,
        },
    }
}

/// The payload to publish out of what was read from standard input: the
/// input without its final line feed, and nothing for an input that does
/// not end in one.
pub fn outgoing_payload(input: &str) -> (payload: Option<&str>)
    ensures
        match payload {
            Some(text) => input@.len() > 0 && input@.last() == '\n' && text@ == input@.drop_last(),
            None => input@.len() == 0 || input@.last() != '\n',
        },
{
    let n = input.unicode_len();
    if n > 0 && input.get_char(n - 1) == '\n' {
        let text = input.substring_char(0, n - 1);
        assert(text@ =~= input@.drop_last());
        Some(text)
    } else {
        None
    }
}

} // verus!
