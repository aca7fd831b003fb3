//! How a record is shown: the lines for standard output, and what there is
//! to complain about on standard error.

use vstd::prelude::*;
use vstd::string::StringExecFns;
use crate::common::{Format, FormatConfig, FormatHint, Verbosity};
use crate::json::{
    json_document,
    json_integer,
    json_null,
    json_quoted,
    json_string,
    object_of,
    object_text,
    parse_json,
    render,
};
use crate::record::{Header, Record};
use crate::text::{
    debug_quoted,
    debug_str,
    decimal_text,
    optional_bytes_text,
    push_decimal,
    push_optional_bytes,
    utf8_text,
};

verus! {

/// Something that went wrong while a record was shown.
#[derive(Debug)]
pub enum Complaint {
    /// The payload is not UTF-8; it was shown as an empty text.
    PayloadNotText(core::str::Utf8Error),
    /// The payload was announced as JSON and is not; it was shown as `null`.
    /// The payload is attached.
    JsonNotParsed(String),
}

/// What showing a record amounts to.
#[derive(Debug)]
pub struct Printed {
    /// The lines for standard output.
    pub lines: Vec<String>,
    /// What to report on standard error.
    pub complaints: Vec<Complaint>,
}

/// The characters of each line.
pub open spec fn texts(lines: Seq<String>) -> Seq<Seq<char>> {
    Seq::new(lines.len(), |i: int| lines[i]@)
}

/// The bytes behind an optional buffer.
pub open spec fn bytes_of(bytes: Option<Vec<u8>>) -> Option<Seq<u8>> {
    match bytes {
        Some(b) => Some(b@),
        None => None,
    }
}

/// The line for one header.
pub open spec fn header_text(header: Header) -> Seq<char> {
    "  Header "@ + debug_quoted(header.key@) + ": "@ + optional_bytes_text(bytes_of(header.value))
}

/// A record laid out for showing, as mathematics.
pub struct DisplayView {
    pub key: Option<Seq<u8>>,
    pub topic: Seq<char>,
    pub partition: i32,
    pub offset: i64,
    pub timestamp: i64,
    pub payload: Seq<char>,
    pub headers: Seq<Header>,
    pub config: FormatConfig,
}

impl DisplayView {
    /// The line that shows everything but the headers.
    pub open spec fn full_text(self) -> Seq<char> {
        "key:'"@ + optional_bytes_text(self.key) + "', topic:'"@ + self.topic
            + "', partition:"@ + decimal_text(self.partition as int) + ", offset:"@ + decimal_text(
            self.offset as int,
        ) + ", timestamp:"@ + decimal_text(self.timestamp as int) + ", payload:"@ + self.payload
    }

    /// The lines of the plain form. The more verbose, the more is shown:
    /// the payload alone; the offset before it; the topic before that; and
    /// at the most verbose every field on one line and a line per header.
    pub open spec fn raw_lines(self) -> Seq<Seq<char>> {
        match self.config.verbosity {
            Verbosity::Silent => seq![self.payload],
            Verbosity::Soft => seq![decimal_text(self.offset as int) + " - "@ + self.payload],
            Verbosity::Loud => seq![
                self.topic + " - "@ + decimal_text(self.offset as int) + " - "@ + self.payload,
            ],
            Verbosity::TooMuch => seq![self.full_text()] + Seq::new(
                self.headers.len(),
                |i: int| header_text(self.headers[i]),
            ),
        }
    }

    /// Whether the payload is to be read as JSON.
    pub open spec fn payload_is_json(self) -> bool {
        self.config.format_hint == Some(FormatHint::Json)
    }

    /// The JSON text of the message member: the payload as a JSON string,
    /// or, where it is announced as JSON, the document it reads as, or
    /// `null` where it does not read as one.
    pub open spec fn message_text(self) -> Seq<char> {
        if self.payload_is_json() {
            match json_document(self.payload) {
                Some(document) => document,
                None => "null"@,
            }
        } else {
            json_quoted(self.payload)
        }
    }

    /// Whether the JSON form has something to complain about: a payload
    /// announced as JSON that is none, unless the user asked for silence.
    pub open spec fn json_complains(self) -> bool {
        self.payload_is_json() && json_document(self.payload) is None
            && self.config.verbosity != Verbosity::Silent
    }

    /// The members of the JSON form: the message, the timestamp as a
    /// number, and the topic as a string.
    pub open spec fn json_members(self) -> Seq<(Seq<char>, Seq<char>)> {
        seq![
            ("message"@, self.message_text()),
            ("timestamp"@, decimal_text(self.timestamp as int)),
            ("topic"@, json_quoted(self.topic)),
        ]
    }

    /// The one line of the JSON form: an object of the three members.
    pub open spec fn json_line(self) -> Seq<char> {
        object_text(self.json_members())
    }

}

/// A record laid out for showing: its payload as text, its timestamp as a
/// number, and the settings to show it by.
pub struct DataDisplay<'a> {
    pub key: &'a Option<Vec<u8>>,
    pub topic: &'a str,
    pub partition: i32,
    pub offset: i64,
    pub timestamp: i64,
    pub payload: &'a str,
    pub headers: &'a Vec<Header>,
    pub format_config: &'a FormatConfig,
}

impl<'a> DataDisplay<'a> {
    pub open spec fn view(self) -> DisplayView {
        DisplayView {
            key: bytes_of(*self.key),
            topic: self.topic@,
            partition: self.partition,
            offset: self.offset,
            timestamp: self.timestamp,
            payload: self.payload@,
            headers: self.headers@,
            config: *self.format_config,
        }
    }

    /// Shows the record in the form that the settings ask for.
    pub fn print(&self) -> (printed: Printed)
        ensures
            self.format_config.format == Format::Raw ==> {
                &&& texts(printed.lines@) == self@.raw_lines()
                &&& printed.complaints@.len() == 0
            },
            self.format_config.format == Format::Json ==> {
                &&& texts(printed.lines@) == seq![self@.json_line()]
                &&& printed.complaints@.len() == if self@.json_complains() {
                    1int
                } else {
                    0int
                }
                &&& self@.json_complains() ==> printed.complaints@[0] is JsonNotParsed
                    && printed.complaints@[0]->JsonNotParsed_0@ == self.payload@
            },
    {
        match self.format_config.format {
            Format::Json => self.as_json(),
            Format::Raw => self.as_raw(),
        }
    }

    fn full_line(&self) -> (line: String)
        ensures
            line@ == self@.full_text(),
    {
        let mut line = String::new();
        line.append("key:'");
        push_optional_bytes(&mut line, self.key);
        line.append("', topic:'");
        line.append(self.topic);
        line.append("', partition:");
        push_decimal(&mut line, self.partition as i64);
        line.append(", offset:");
        push_decimal(&mut line, self.offset);
        line.append(", timestamp:");
        push_decimal(&mut line, self.timestamp);
        line.append(", payload:");
        line.append(self.payload);
        assert(line@ =~= self@.full_text());
        line
    }

    /// Shows the record in the plain form.
    pub fn as_raw(&self) -> (printed: Printed)
        ensures
            texts(printed.lines@) == self@.raw_lines(),
            printed.complaints@.len() == 0,
    {
        let mut lines: Vec<String> = Vec::new();
        match self.format_config.verbosity {
            Verbosity::TooMuch => {
                lines.push(self.full_line());
                let mut i: usize = 0;
                while i < self.headers.len()
                    invariant
                        i <= self.headers.len(),
                        lines@.len() == i + 1,
                        lines@[0]@ == self@.full_text(),
                        forall|k: int|
                            1 <= k <= i ==> (#[trigger] lines@[k])@ == header_text(
                                self.headers@[k - 1],
                            ),
                    decreases self.headers.len() - i,
                {
                    lines.push(header_line(&self.headers[i]));
                    i = i + 1;
                }
                assert(texts(lines@) =~= self@.raw_lines());
            },
            Verbosity::Silent => {
                lines.push(String::from_str(self.payload));
                assert(texts(lines@) =~= self@.raw_lines());
            },
            Verbosity::Soft => {
                let mut line = String::new();
                push_decimal(&mut line, self.offset);
                line.append(" - ");
                line.append(self.payload);
                assert(line@ =~= decimal_text(self.offset as int) + " - "@ + self.payload@);
                lines.push(line);
                assert(texts(lines@) =~= self@.raw_lines());
            },
            Verbosity::Loud => {
                let mut line = String::from_str(self.topic);
                line.append(" - ");
                push_decimal(&mut line, self.offset);
                line.append(" - ");
                line.append(self.payload);
                assert(line@ =~= self.topic@ + " - "@ + decimal_text(self.offset as int) + " - "@
                    + self.payload@);
                lines.push(line);
                assert(texts(lines@) =~= self@.raw_lines());
            },
        }
        Printed { lines, complaints: Vec::new() }
    }

    /// Shows the record as one JSON object with the members `message`,
    /// `timestamp` and `topic`. A payload that was announced as JSON and is
    /// none is shown as `null`.
    pub fn as_json(&self) -> (printed: Printed)
        ensures
            texts(printed.lines@) == seq![self@.json_line()],
            printed.complaints@.len() == if self@.json_complains() {
                1int
            } else {
                0int
            },
            self@.json_complains() ==> printed.complaints@[0] is JsonNotParsed
                && printed.complaints@[0]->JsonNotParsed_0@ == self.payload@,
    {
        let mut complaints: Vec<Complaint> = Vec::new();
        let announced = match self.format_config.format_hint {
            Some(FormatHint::Json) => true,
            _ => false,
        };
        let message = if announced {
            match parse_json(self.payload) {
                Ok(value) => value,
                Err(_) => {
                    match self.format_config.verbosity {
                        Verbosity::Silent => {},
                        _ => {
                            complaints.push(Complaint::JsonNotParsed(String::from_str(self.payload)));
                        },
                    }
                    json_null()
                },
            }
        } else {
            json_string(self.payload)
        };
        let mut members: Vec<(String, serde_json::Value)> = Vec::new();
        members.push((String::from_str("message"), message));
        members.push((String::from_str("timestamp"), json_integer(self.timestamp)));
        members.push((String::from_str("topic"), json_string(self.topic)));
        assert(crate::json::member_texts(members@) =~= self@.json_members());
        let object = object_of(members);
        let mut lines: Vec<String> = Vec::new();
        lines.push(render(&object));
        assert(texts(lines@) =~= seq![self@.json_line()]);
        Printed { lines, complaints }
    }
}

fn header_line(header: &Header) -> (line: String)
    ensures
        line@ == header_text(*header),
{
    let mut line = String::from_str("  Header ");
    let key = debug_str(header.key.as_str());
    line.append(key.as_str());
    line.append(": ");
    push_optional_bytes(&mut line, &header.value);
    assert(line@ =~= header_text(*header));
    line
}

/// The payload as text: the characters that its bytes encode, and the
/// empty text for a payload that is absent or not UTF-8.
pub open spec fn payload_text(payload: Option<Seq<u8>>) -> Seq<char> {
    match payload {
        Some(bytes) => if vstd::utf8::valid_utf8(bytes) {
            vstd::utf8::decode_utf8(bytes)
        } else {
            Seq::empty()
        },
        None => Seq::empty(),
    }
}

/// Whether a payload is there and is not UTF-8.
pub open spec fn payload_garbled(payload: Option<Seq<u8>>) -> bool {
    payload is Some && !vstd::utf8::valid_utf8(payload->0)
}

/// The timestamp that is shown: zero for a record without one.
pub open spec fn shown_timestamp(timestamp: Option<i64>) -> i64 {
    match timestamp {
        Some(at) => at,
        None => 0,
    }
}

/// A record as it is laid out for showing by the given settings.
pub open spec fn display_of(record: Record, config: FormatConfig) -> DisplayView {
    DisplayView {
        key: bytes_of(record.key),
        topic: record.topic@,
        partition: record.partition,
        offset: record.offset,
        timestamp: shown_timestamp(record.timestamp),
        payload: payload_text(bytes_of(record.payload)),
        headers: record.headers@,
        config,
    }
}

/// Shows a record by the given settings. A payload that is not UTF-8 is
/// complained about first and shown as the empty text.
pub fn print_message(record: &Record, config: &FormatConfig) -> (printed: Printed)
    ensures
        ({
            let display = display_of(*record, *config);
            let garbled = payload_garbled(bytes_of(record.payload));
            let own = if garbled {
                1int
            } else {
                0int
            };
            let json = config.format == Format::Json;
            &&& texts(printed.lines@) == if json {
                seq![display.json_line()]
            } else {
                display.raw_lines()
            }
            &&& printed.complaints@.len() == own + if json && display.json_complains() {
                1int
            } else {
                0int
            }
            &&& garbled ==> printed.complaints@[0] is PayloadNotText
            &&& json && display.json_complains() ==> printed.complaints@[own] is JsonNotParsed
                && printed.complaints@[own]->JsonNotParsed_0@ == display.payload
        }),
{
    let mut complaints: Vec<Complaint> = Vec::new();
    let text: &str = match &record.payload {
        None => "",
        Some(bytes) => match utf8_text(bytes.as_slice()) {
            Ok(text) => text,
            Err(fault) => {
                complaints.push(Complaint::PayloadNotText(fault));
                ""
            },
        },
    };
    proof {
        reveal_strlit("");
        assert(""@ =~= Seq::<char>::empty());
    }
    let display = DataDisplay {
        key: &record.key,
        topic: record.topic.as_str(),
        partition: record.partition,
        offset: record.offset,
        timestamp: match record.timestamp {
            Some(at) => at,
            None => 0,
        },
        payload: text,
        headers: &record.headers,
        format_config: config,
    };
    assert(display@ == display_of(*record, *config));
    let shown = display.print();
    let Printed { lines, complaints: mut more } = shown;
    let ghost first = complaints@;
    let ghost second = more@;
    complaints.append(&mut more);
    assert(complaints@ == first + second);
    Printed { lines, complaints }
}

} // verus!
