//! The fatal conditions of a run and the exit status they map to.

use vstd::prelude::*;
use vstd::string::StringExecFns;

verus! {

/// Why a set of window parameters cannot be used together.
#[derive(Debug, Clone, Copy, PartialEq, Eq, Structural)]
pub enum Conflict {
    /// An absolute and a relative start were both given, and no end.
    AmbiguousStart,
    /// An absolute and a relative end were both given, and no start.
    AmbiguousEnd,
    /// Any other combination that is not one of the legal ones.
    Mixture,
}

/// The side of a window that a parameter speaks of.
#[derive(Debug, Clone, Copy, PartialEq, Eq, Structural)]
pub enum Boundary {
    Start,
    End,
}

/// A condition that ends a run with a failure.
#[derive(Debug, Clone, Copy, PartialEq, Eq, Structural)]
pub enum ReadError {
    /// The window parameters do not form a legal combination.
    ConflictingParameters(Conflict),
    /// The absolute timestamp for this side of the window is not a
    /// date-time with offset.
    InvalidTimestamp(Boundary),
    /// The literal tail offset is not a decimal integer.
    InvalidOffset,
    /// The relative expression for this side of the window is not
    /// understood.
    InvalidRelativeOffset(Boundary),
    /// No topic was named.
    MissingTopic,
    /// None of the three ways to say where to start was used.
    MissingStartCondition,
    /// The cluster could not be asked about the topic or its partitions.
    MetadataUnavailable,
    /// The topic has no partitions, so it does not exist for this purpose.
    NoSuchTopic,
    /// The translation left nothing to read from.
    NoPartitions,
    /// No starting position could be fixed for the partitions.
    TranslationFailed,
    /// The first fetch timed out before any record arrived.
    PollTimeout,
}

/// The coarse family an error belongs to.
#[derive(Debug, Clone, Copy, PartialEq, Eq, Structural)]
pub enum ErrorClass {
    /// Wrong input; found before the cluster is contacted.
    Parameter,
    /// The cluster or the topic's layout is not as needed.
    Cluster,
    /// Time could not be turned into positions.
    Translation,
    /// Nothing arrived at all.
    Stall,
}

/// Exit status of a run that completed.
pub const EXIT_SUCCESS: i32 = 0;

/// Exit status of a run that was abandoned.
pub const EXIT_FAILURE: i32 = 1;

impl ReadError {
    /// The family of this error.
    pub open spec fn class_of(self) -> ErrorClass {
        match self {
            ReadError::ConflictingParameters(_) => ErrorClass::Parameter,
            ReadError::InvalidTimestamp(_) => ErrorClass::Parameter,
            ReadError::InvalidOffset => ErrorClass::Parameter,
            ReadError::InvalidRelativeOffset(_) => ErrorClass::Parameter,
            ReadError::MissingTopic => ErrorClass::Parameter,
            ReadError::MissingStartCondition => ErrorClass::Parameter,
            ReadError::MetadataUnavailable => ErrorClass::Cluster,
            ReadError::NoSuchTopic => ErrorClass::Cluster,
            ReadError::NoPartitions => ErrorClass::Cluster,
            ReadError::TranslationFailed => ErrorClass::Translation,
            ReadError::PollTimeout => ErrorClass::Stall,
        }
    }

    /// The line that tells the user what went wrong with a run on the given
    /// topic.
    pub open spec fn message_of(self, topic: Seq<char>) -> Seq<char> {
        match self {
            ReadError::ConflictingParameters(Conflict::AmbiguousStart) =>
                "Invalid set of params: Only start-offset or start can be set"@,
            ReadError::ConflictingParameters(Conflict::AmbiguousEnd) =>
                "Invalid set of params: Only end-offset or end can be set"@,
            ReadError::ConflictingParameters(Conflict::Mixture) => "Invalid set of params"@,
            ReadError::InvalidTimestamp(Boundary::Start) => "Invalid start datetime"@,
            ReadError::InvalidTimestamp(Boundary::End) => "Invalid end datetime"@,
            ReadError::InvalidOffset => "Invalid offset"@,
            ReadError::InvalidRelativeOffset(Boundary::Start) => "Invalid start offset"@,
            ReadError::InvalidRelativeOffset(Boundary::End) => "Invalid end offset"@,
            ReadError::MissingTopic => "topic is required"@,
            ReadError::MissingStartCondition => "Offset or start date should have been set"@,
            ReadError::MetadataUnavailable => "Metadata could not be loaded"@,
            ReadError::NoSuchTopic => "No partitions found for "@ + topic + "."@,
            ReadError::NoPartitions => "No partition to read from"@,
            ReadError::TranslationFailed => "Starting offsets could not be set"@,
            ReadError::PollTimeout => "Polling timed out no messages read."@,
        }
    }

    /// The line for the user with the reason after it, where one is known.
    pub open spec fn explained(self, topic: Seq<char>, reason: Option<Seq<char>>) -> Seq<char> {
        match reason {
            Some(words) => self.message_of(topic) + ": "@ + words,
            None => self.message_of(topic),
        }
    }

    /// Executable form of [`ReadError::class_of`].
    pub fn class(&self) -> (class: ErrorClass)
        ensures
            class == self.class_of(),
    {
        match self {
            ReadError::ConflictingParameters(_) => ErrorClass::Parameter,
            ReadError::InvalidTimestamp(_) => ErrorClass::Parameter,
            ReadError::InvalidOffset => ErrorClass::Parameter,
            ReadError::InvalidRelativeOffset(_) => ErrorClass::Parameter,
            ReadError::MissingTopic => ErrorClass::Parameter,
            ReadError::MissingStartCondition => ErrorClass::Parameter,
            ReadError::MetadataUnavailable => ErrorClass::Cluster,
            ReadError::NoSuchTopic => ErrorClass::Cluster,
            ReadError::NoPartitions => ErrorClass::Cluster,
            ReadError::TranslationFailed => ErrorClass::Translation,
            ReadError::PollTimeout => ErrorClass::Stall,
        }
    }

    /// Executable form of [`ReadError::message_of`].
    pub fn message(&self, topic: &str) -> (text: String)
        ensures
            text@ == self.message_of(topic@),
    {
        let line: &str = match self {
            ReadError::ConflictingParameters(Conflict::AmbiguousStart) =>
                "Invalid set of params: Only start-offset or start can be set",
            ReadError::ConflictingParameters(Conflict::AmbiguousEnd) =>
                "Invalid set of params: Only end-offset or end can be set",
            ReadError::ConflictingParameters(Conflict::Mixture) => "Invalid set of params",
            ReadError::InvalidTimestamp(Boundary::Start) => "Invalid start datetime",
            ReadError::InvalidTimestamp(Boundary::End) => "Invalid end datetime",
            ReadError::InvalidOffset => "Invalid offset",
            ReadError::InvalidRelativeOffset(Boundary::Start) => "Invalid start offset",
            ReadError::InvalidRelativeOffset(Boundary::End) => "Invalid end offset",
            ReadError::MissingTopic => "topic is required",
            ReadError::MissingStartCondition => "Offset or start date should have been set",
            ReadError::MetadataUnavailable => "Metadata could not be loaded",
            ReadError::NoSuchTopic => {
                let mut text = String::from_str("No partitions found for ");
                text.append(topic);
                text.append(".");
                return text;
            },
            ReadError::NoPartitions => "No partition to read from",
            ReadError::TranslationFailed => "Starting offsets could not be set",
            ReadError::PollTimeout => "Polling timed out no messages read.",
        };
        String::from_str(line)
    }
}

impl ReadError {
    /// Executable form of [`ReadError::explained`].
    pub fn explain(&self, topic: &str, reason: &Option<String>) -> (text: String)
        ensures
            text@ == self.explained(
                topic@,
                match *reason {
                    Some(words) => Some(words@),
                    None => None,
                },
            ),
    {
        let mut text = self.message(topic);
        match reason {
            Some(words) => {
                text.append(": ");
                text.append(words.as_str());
            },
            None => {},
        }
        text
    }
}

/// The exit status for the way a run ended: success is 0, every fatal
/// condition is 1.
pub open spec fn exit_status(outcome: Result<(), ReadError>) -> i32 {
    match outcome {
        Ok(_) => EXIT_SUCCESS,
        Err(_) => EXIT_FAILURE,
    }
}

/// Executable form of [`exit_status`].
pub fn exit_code(outcome: Result<(), ReadError>) -> (code: i32)
    ensures
        code == exit_status(outcome),
        (code == 0) == (outcome is Ok),
{
    match outcome {
        Ok(_) => EXIT_SUCCESS,
        Err(_) => EXIT_FAILURE,
    }
}

} // verus!
