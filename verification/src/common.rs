//! Presentation settings: how much to print, and in which shape.

use vstd::prelude::*;
use core::cmp::Ordering;
use rdkafka::config::RDKafkaLogLevel;
use crate::text::str_eq;

verus! {

/// The client library's log levels, as that library declares them.
#[verifier::external_type_specification]
pub struct ExRDKafkaLogLevel(RDKafkaLogLevel);

/// The order of two positions in a declaration.
pub open spec fn order_of(left: u8, right: u8) -> Option<Ordering> {
    if left < right {
        Some(Ordering::Less)
    } else if left == right {
        Some(Ordering::Equal)
    } else {
        Some(Ordering::Greater)
    }
}

fn order(left: u8, right: u8) -> (out: Option<Ordering>)
    ensures
        out == order_of(left, right),
{
    if left < right {
        Some(Ordering::Less)
    } else if left == right {
        Some(Ordering::Equal)
    } else {
        Some(Ordering::Greater)
    }
}

/// A hint on how a record's payload is encoded.
#[derive(Debug, Clone, Copy, PartialEq, Eq, Structural)]
pub enum FormatHint {
    Json,
    NoHint,
}

impl FormatHint {
    /// The hint that a name stands for: `"json"` is `Json`, every other name
    /// is `NoHint`.
    pub open spec fn of_name(name: Seq<char>) -> FormatHint {
        if name == "json"@ {
            FormatHint::Json
        } else {
            FormatHint::NoHint
        }
    }
}

impl FormatHint {
    /// Position of the hint in the order `Json < NoHint`.
    pub open spec fn rank(self) -> u8 {
        match self {
            FormatHint::Json => 0,
            FormatHint::NoHint => 1,
        }
    }
}

impl vstd::std_specs::cmp::PartialOrdSpecImpl for FormatHint {
    open spec fn obeys_partial_cmp_spec() -> bool {
        true
    }

    open spec fn partial_cmp_spec(&self, other: &FormatHint) -> Option<Ordering> {
        order_of(self.rank(), other.rank())
    }
}

impl PartialOrd for FormatHint {
    fn partial_cmp(&self, other: &FormatHint) -> (out: Option<Ordering>) {
        let left: u8 = match self {
            FormatHint::Json => 0,
            FormatHint::NoHint => 1,
        };
        let right: u8 = match other {
            FormatHint::Json => 0,
            FormatHint::NoHint => 1,
        };
        order(left, right)
    }
}

impl vstd::std_specs::convert::FromSpecImpl<&str> for FormatHint {
    open spec fn obeys_from_spec() -> bool {
        true
    }

    open spec fn from_spec(hint: &str) -> FormatHint {
        FormatHint::of_name(hint@)
    }
}

impl From<&str> for FormatHint {
    fn from(hint: &str) -> (out: FormatHint) {
        if str_eq(hint, "json") {
            FormatHint::Json
        } else {
            FormatHint::NoHint
        }
    }
}

/// How much of a record is shown. The levels are ordered:
/// `Silent < Soft < Loud < TooMuch`.
#[derive(Debug, Clone, Copy, PartialEq, Eq, Structural)]
pub enum Verbosity {
    Silent,
    Soft,
    Loud,
    TooMuch,
}

impl Verbosity {
    /// Position of the level in the order: 0 for `Silent` up to 3 for
    /// `TooMuch`.
    pub open spec fn rank(self) -> u8 {
        match self {
            Verbosity::Silent => 0,
            Verbosity::Soft => 1,
            Verbosity::Loud => 2,
            Verbosity::TooMuch => 3,
        }
    }

    /// The level chosen by repeating the verbosity flag `level` times:
    /// anything above two repetitions is `TooMuch`.
    pub open spec fn of_level(level: u8) -> Verbosity {
        if level == 0 {
            Verbosity::Silent
        } else if level == 1 {
            Verbosity::Soft
        } else if level == 2 {
            Verbosity::Loud
        } else {
            Verbosity::TooMuch
        }
    }

    /// Executable form of [`Verbosity::rank`].
    pub fn level(&self) -> (n: u8)
        ensures
            n == self.rank(),
    {
        match self {
            Verbosity::Silent => 0,
            Verbosity::Soft => 1,
            Verbosity::Loud => 2,
            Verbosity::TooMuch => 3,
        }
    }
}

impl vstd::std_specs::convert::FromSpecImpl<u8> for Verbosity {
    open spec fn obeys_from_spec() -> bool {
        true
    }

    open spec fn from_spec(level: u8) -> Verbosity {
        Verbosity::of_level(level)
    }
}

impl From<u8> for Verbosity {
    fn from(level: u8) -> (out: Verbosity) {
        match level {
            0 => Verbosity::Silent,
            1 => Verbosity::Soft,
            2 => Verbosity::Loud,
            _ => Verbosity::TooMuch,
        }
    }
}

impl vstd::std_specs::cmp::PartialOrdSpecImpl for Verbosity {
    open spec fn obeys_partial_cmp_spec() -> bool {
        true
    }

    open spec fn partial_cmp_spec(&self, other: &Verbosity) -> Option<Ordering> {
        order_of(self.rank(), other.rank())
    }
}

impl PartialOrd for Verbosity {
    fn partial_cmp(&self, other: &Verbosity) -> (out: Option<Ordering>) {
        order(self.level(), other.level())
    }
}

/// The shape in which a record is printed.
#[derive(Debug, Clone, Copy, PartialEq, Eq, Structural)]
pub enum Format {
    Json,
    Raw,
}

impl Format {
    /// The format that a name stands for: `"json"` is `Json`, every other
    /// name is `Raw`.
    pub open spec fn of_name(name: Seq<char>) -> Format {
        if name == "json"@ {
            Format::Json
        } else {
            Format::Raw
        }
    }
}

impl Format {
    /// Position of the format in the order `Json < Raw`.
    pub open spec fn rank(self) -> u8 {
        match self {
            Format::Json => 0,
            Format::Raw => 1,
        }
    }
}

impl vstd::std_specs::cmp::PartialOrdSpecImpl for Format {
    open spec fn obeys_partial_cmp_spec() -> bool {
        true
    }

    open spec fn partial_cmp_spec(&self, other: &Format) -> Option<Ordering> {
        order_of(self.rank(), other.rank())
    }
}

impl PartialOrd for Format {
    fn partial_cmp(&self, other: &Format) -> (out: Option<Ordering>) {
        let left: u8 = match self {
            Format::Json => 0,
            Format::Raw => 1,
        };
        let right: u8 = match other {
            Format::Json => 0,
            Format::Raw => 1,
        };
        order(left, right)
    }
}

impl vstd::std_specs::convert::FromSpecImpl<&str> for Format {
    open spec fn obeys_from_spec() -> bool {
        true
    }

    open spec fn from_spec(value: &str) -> Format {
        Format::of_name(value@)
    }
}

impl From<&str> for Format {
    fn from(value: &str) -> (out: Format) {
        if str_eq(value, "json") {
            Format::Json
        } else {
            Format::Raw
        }
    }
}

/// The client library's log level for a count of debug flags: the levels
/// from `Emerg` at 0 to `Info` at 6 in their order, and `Debug` for every
/// count above.
pub open spec fn log_level_of(level: u8) -> RDKafkaLogLevel {
    if level == 0 {
        RDKafkaLogLevel::Emerg
    } else if level == 1 {
        RDKafkaLogLevel::Alert
    } else if level == 2 {
        RDKafkaLogLevel::Critical
    } else if level == 3 {
        RDKafkaLogLevel::Error
    } else if level == 4 {
        RDKafkaLogLevel::Warning
    } else if level == 5 {
        RDKafkaLogLevel::Notice
    } else if level == 6 {
        RDKafkaLogLevel::Info
    } else {
        RDKafkaLogLevel::Debug
    }
}

/// Executable form of [`log_level_of`].
pub fn kafka_debug_from_int(level: u8) -> (out: RDKafkaLogLevel)
    ensures
        out == log_level_of(level),
{
    match level {
        0 => RDKafkaLogLevel::Emerg,
        1 => RDKafkaLogLevel::Alert,
        2 => RDKafkaLogLevel::Critical,
        3 => RDKafkaLogLevel::Error,
        4 => RDKafkaLogLevel::Warning,
        5 => RDKafkaLogLevel::Notice,
        6 => RDKafkaLogLevel::Info,
        _ => RDKafkaLogLevel::Debug,
    }
}

/// Everything the presentation of a record depends on.
#[derive(Debug, Clone, Copy, PartialEq, Eq, Structural)]
pub struct FormatConfig {
    pub verbosity: Verbosity,
    pub format_hint: Option<FormatHint>,
    pub format: Format,
}

} // verus!
