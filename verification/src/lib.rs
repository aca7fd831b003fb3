//! Decision logic of a command-line client for a partitioned message log:
//! resolving a replay window, translating it into per-partition starting
//! positions, deciding when a bounded replay is complete, and rendering the
//! records that are read.
//!
//! Nothing here talks to the cluster or to the terminal. A caller does
//! that: it reports what the cluster answered, and is told what to do next.

/// Presentation settings and the client's log levels.
pub mod common;
/// How a record is shown.
pub mod display;
/// The fatal conditions of a run, and exit statuses.
pub mod error;
/// Instants, and the two ways to write one down.
pub mod instant;
/// JSON values, as far as showing a record needs them.
pub mod json;
/// The report on a cluster's topics.
pub mod listing;
/// The termination oracle.
pub mod oracle;
/// The client's list of topic partitions.
pub mod partitions;
/// The bounded poll loop.
pub mod poll;
/// What holds of every bounded run.
pub mod poll_proofs;
/// A bounded replay from its parameters to its exit.
pub mod read;
/// A fetched record.
pub mod record;
/// Defaults and settings worked out of the command line.
pub mod settings;
/// The live tail.
pub mod tail;
/// Helpers on text.
pub mod text;
/// The offset translator.
pub mod translate;
/// The window resolver.
pub mod window;
