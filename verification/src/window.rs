//! The window resolver: from five optional parameters to one window.

use vstd::prelude::*;
use crate::error::{Boundary, Conflict, ReadError};
use crate::instant::{
    current_millis,
    parse_datetime,
    parse_relative,
    relative_target,
    rfc3339_instant,
};
use crate::text::{decimal_i64, parse_i64};

verus! {

/// Where a replay starts.
#[derive(Debug, Clone, Copy, PartialEq, Eq, Structural)]
pub enum WindowStart {
    /// At an absolute timestamp, in milliseconds since the epoch.
    Absolute(i64),
    /// At the instant that a relative expression resolved to.
    Relative(i64),
    /// A literal count of records before a partition's current tail.
    Tail(i64),
}

/// The span of a replay. The end is always a concrete instant; at most one
/// way of saying where to start is in use.
#[derive(Debug, Clone, Copy, PartialEq, Eq, Structural)]
pub struct Window {
    pub start: Option<WindowStart>,
    pub end: i64,
}

/// Which of the five parameters are present.
pub struct Presence {
    pub start_abs: bool,
    pub end_abs: bool,
    pub literal_offset: bool,
    pub start_relative: bool,
    pub end_relative: bool,
}

impl Presence {
    /// Number of parameters that are present.
    pub open spec fn count(self) -> int {
        (if self.start_abs { 1int } else { 0 }) + (if self.end_abs { 1int } else { 0 }) + (
        if self.literal_offset { 1int } else { 0 }) + (if self.start_relative { 1int } else { 0 })
            + (if self.end_relative { 1int } else { 0 })
    }

    /// The five combinations that may be used.
    pub open spec fn legal(self) -> bool {
        ||| self.start_abs && self.end_abs && !self.literal_offset && !self.start_relative
            && !self.end_relative
        ||| self.start_abs && !self.end_abs && !self.literal_offset && !self.start_relative
            && !self.end_relative
        ||| !self.start_abs && !self.end_abs && self.literal_offset && !self.start_relative
            && !self.end_relative
        ||| !self.start_abs && !self.end_abs && !self.literal_offset && self.start_relative
            && !self.end_relative
        ||| !self.start_abs && !self.end_abs && !self.literal_offset && self.start_relative
            && self.end_relative
    }

    /// How an illegal combination is named.
    pub open spec fn conflict(self) -> Conflict {
        if self.start_abs && !self.end_abs && self.start_relative && !self.end_relative {
            Conflict::AmbiguousStart
        } else if !self.start_abs && self.end_abs && !self.start_relative && self.end_relative {
            Conflict::AmbiguousEnd
        } else {
            Conflict::Mixture
        }
    }
}

/// The presence pattern of five optional values.
pub open spec fn presence_of<A, B, C, D, E>(
    start_abs: Option<A>,
    end_abs: Option<B>,
    literal_offset: Option<C>,
    start_relative: Option<D>,
    end_relative: Option<E>,
) -> Presence {
    Presence {
        start_abs: start_abs is Some,
        end_abs: end_abs is Some,
        literal_offset: literal_offset is Some,
        start_relative: start_relative is Some,
        end_relative: end_relative is Some,
    }
}

/// The window that five parameters stand for once each has been read, as seen
/// at the instant `now`:
/// - with no parameter at all, the window has no start and ends now;
/// - with a legal combination, it starts where the one start parameter says
///   and ends where the end parameter says, or now without one;
/// - every other combination is a conflict.
pub open spec fn window_of(
    start_abs: Option<i64>,
    end_abs: Option<i64>,
    literal_offset: Option<i64>,
    start_relative: Option<i64>,
    end_relative: Option<i64>,
    now: i64,
) -> Result<Window, ReadError> {
    let presence = presence_of(start_abs, end_abs, literal_offset, start_relative, end_relative);
    if presence.count() == 0 {
        Ok(Window { start: None, end: now })
    } else if presence.legal() {
        Ok(
            Window {
                start: Some(
                    match (start_abs, start_relative) {
                        (Some(at), _) => WindowStart::Absolute(at),
                        (None, Some(at)) => WindowStart::Relative(at),
                        (None, None) => WindowStart::Tail(literal_offset->0),
                    },
                ),
                end: match (end_abs, end_relative) {
                    (Some(at), _) => at,
                    (None, Some(at)) => at,
                    (None, None) => now,
                },
            },
        )
    } else {
        Err(ReadError::ConflictingParameters(presence.conflict()))
    }
}

/// Resolves five parameters that have been read already.
pub fn resolve_parsed(
    start_abs: Option<i64>,
    end_abs: Option<i64>,
    literal_offset: Option<i64>,
    start_relative: Option<i64>,
    end_relative: Option<i64>,
    now: i64,
) -> (resolved: Result<Window, ReadError>)
    ensures
        resolved == window_of(
            start_abs,
            end_abs,
            literal_offset,
            start_relative,
            end_relative,
            now,
        ),
{
    match (start_abs, end_abs, literal_offset, start_relative, end_relative) {
        (None, None, None, None, None) => Ok(Window { start: None, end: now }),
        (Some(start), Some(end), None, None, None) => Ok(
            Window { start: Some(WindowStart::Absolute(start)), end },
        ),
        (Some(start), None, None, None, None) => Ok(
            Window { start: Some(WindowStart::Absolute(start)), end: now },
        ),
        (None, None, Some(count), None, None) => Ok(
            Window { start: Some(WindowStart::Tail(count)), end: now },
        ),
        (None, None, None, Some(start), None) => Ok(
            Window { start: Some(WindowStart::Relative(start)), end: now },
        ),
        (None, None, None, Some(start), Some(end)) => Ok(
            Window { start: Some(WindowStart::Relative(start)), end },
        ),
        (Some(_), None, _, Some(_), None) => Err(
            ReadError::ConflictingParameters(Conflict::AmbiguousStart),
        ),
        (None, Some(_), _, None, Some(_)) => Err(
            ReadError::ConflictingParameters(Conflict::AmbiguousEnd),
        ),
        _ => Err(ReadError::ConflictingParameters(Conflict::Mixture)),
    }
}

/// What reading the optional absolute timestamp for one side gives:
/// nothing for an absent one, the instant for a well-formed one,
/// `InvalidTimestamp` for that side otherwise.
pub open spec fn read_timestamp(text: Option<Seq<char>>, side: Boundary) -> Result<
    Option<i64>,
    ReadError,
> {
    match text {
        None => Ok(None),
        Some(t) => match rfc3339_instant(t) {
            Some(ms) => Ok(Some(ms)),
            None => Err(ReadError::InvalidTimestamp(side)),
        },
    }
}

/// What reading an optional literal offset gives.
pub open spec fn read_offset(text: Option<Seq<char>>) -> Result<Option<i64>, ReadError> {
    match text {
        None => Ok(None),
        Some(t) => match decimal_i64(t) {
            Some(n) => Ok(Some(n)),
            None => Err(ReadError::InvalidOffset),
        },
    }
}

/// What reading the optional relative expression for one side gives, as
/// seen from `now`.
pub open spec fn read_expression(text: Option<Seq<char>>, now: i64, side: Boundary) -> Result<
    Option<i64>,
    ReadError,
> {
    match text {
        None => Ok(None),
        Some(t) => match relative_target(t, now) {
            Some(ms) => Ok(Some(ms)),
            None => Err(ReadError::InvalidRelativeOffset(side)),
        },
    }
}

/// The characters of an optional text.
pub open spec fn text_of(text: Option<&str>) -> Option<Seq<char>> {
    match text {
        None => None,
        Some(t) => Some(t@),
    }
}

/// The outcome of resolving five parameters as they were typed. They are read
/// in the order start, end, literal offset, relative start, relative end;
/// the first that is malformed decides the error. Only when all are
/// well-formed is their combination judged.
pub open spec fn resolution(
    start_abs: Option<Seq<char>>,
    end_abs: Option<Seq<char>>,
    literal_offset: Option<Seq<char>>,
    start_relative: Option<Seq<char>>,
    end_relative: Option<Seq<char>>,
    now: i64,
) -> Result<Window, ReadError> {
    match read_timestamp(start_abs, Boundary::Start) {
        Err(e) => Err(e),
        Ok(sa) => match read_timestamp(end_abs, Boundary::End) {
            Err(e) => Err(e),
            Ok(ea) => match read_offset(literal_offset) {
                Err(e) => Err(e),
                Ok(lo) => match read_expression(start_relative, now, Boundary::Start) {
                    Err(e) => Err(e),
                    Ok(sr) => match read_expression(end_relative, now, Boundary::End) {
                        Err(e) => Err(e),
                        Ok(er) => window_of(sa, ea, lo, sr, er, now),
                    },
                },
            },
        },
    }
}

fn optional_timestamp(text: Option<&str>, side: Boundary) -> (read: Result<Option<i64>, ReadError>)
    ensures
        read == read_timestamp(text_of(text), side),
{
    match text {
        None => Ok(None),
        Some(t) => match parse_datetime(t, side) {
            Ok(ms) => Ok(Some(ms)),
            Err(e) => Err(e),
        },
    }
}

fn optional_offset(text: Option<&str>) -> (read: Result<Option<i64>, ReadError>)
    ensures
        read == read_offset(text_of(text)),
{
    match text {
        None => Ok(None),
        Some(t) => match parse_i64(t) {
            Some(n) => Ok(Some(n)),
            None => Err(ReadError::InvalidOffset),
        },
    }
}

fn optional_expression(text: Option<&str>, now: i64, side: Boundary) -> (read: Result<
    Option<i64>,
    ReadError,
>)
    ensures
        read == read_expression(text_of(text), now, side),
{
    match text {
        None => Ok(None),
        Some(t) => match parse_relative(t, now, side) {
            Ok(ms) => Ok(Some(ms)),
            Err(e) => Err(e),
        },
    }
}

/// Validates and normalises the five window parameters as they were typed,
/// at the instant `now`.
pub fn resolve(
    start_abs: Option<&str>,
    end_abs: Option<&str>,
    literal_offset: Option<&str>,
    start_relative: Option<&str>,
    end_relative: Option<&str>,
    now: i64,
) -> (resolved: Result<Window, ReadError>)
    ensures
        resolved == resolution(
            text_of(start_abs),
            text_of(end_abs),
            text_of(literal_offset),
            text_of(start_relative),
            text_of(end_relative),
            now,
        ),
{
    let sa = match optional_timestamp(start_abs, Boundary::Start) {
        Ok(v) => v,
        Err(e) => {
            return Err(e);
        },
    };
    let ea = match optional_timestamp(end_abs, Boundary::End) {
        Ok(v) => v,
        Err(e) => {
            return Err(e);
        },
    };
    let lo = match optional_offset(literal_offset) {
        Ok(v) => v,
        Err(e) => {
            return Err(e);
        },
    };
    let sr = match optional_expression(start_relative, now, Boundary::Start) {
        Ok(v) => v,
        Err(e) => {
            return Err(e);
        },
    };
    let er = match optional_expression(end_relative, now, Boundary::End) {
        Ok(v) => v,
        Err(e) => {
            return Err(e);
        },
    };
    resolve_parsed(sa, ea, lo, sr, er, now)
}

/// Validates and normalises the five window parameters at the present
/// moment: the clock is read once, and that reading is what "now" means
/// for the end of the window and for every relative expression.
pub fn resolve_now(
    start_abs: Option<&str>,
    end_abs: Option<&str>,
    literal_offset: Option<&str>,
    start_relative: Option<&str>,
    end_relative: Option<&str>,
) -> (resolved: Result<Window, ReadError>)
    ensures
        exists|now: i64|
            resolved == #[trigger] resolution(
                text_of(start_abs),
                text_of(end_abs),
                text_of(literal_offset),
                text_of(start_relative),
                text_of(end_relative),
                now,
            ),
{
    let now = current_millis();
    resolve(start_abs, end_abs, literal_offset, start_relative, end_relative, now)
}

impl Window {
    /// The instant at which a time-based window starts.
    pub open spec fn start_instant(self) -> Option<i64> {
        match self.start {
            Some(WindowStart::Absolute(at)) => Some(at),
            Some(WindowStart::Relative(at)) => Some(at),
            _ => None,
        }
    }

    /// The literal tail count of a window that starts before the tail.
    pub open spec fn tail_count(self) -> Option<i64> {
        match self.start {
            Some(WindowStart::Tail(count)) => Some(count),
            _ => None,
        }
    }
}

/// Every legal combination of well-formed parameters resolves, and the
/// window then has a start.
pub proof fn lemma_legal_combinations_resolve(
    start_abs: Option<i64>,
    end_abs: Option<i64>,
    literal_offset: Option<i64>,
    start_relative: Option<i64>,
    end_relative: Option<i64>,
    now: i64,
)
    requires
        presence_of(start_abs, end_abs, literal_offset, start_relative, end_relative).legal(),
    ensures
        window_of(start_abs, end_abs, literal_offset, start_relative, end_relative, now) is Ok,
        window_of(
            start_abs,
            end_abs,
            literal_offset,
            start_relative,
            end_relative,
            now,
        )->Ok_0.start is Some,
{
}

/// Every combination of one or more parameters that is not among the legal
/// ones is refused as conflicting; in particular every combination that
/// pairs an absolute with a relative start, an absolute with a relative end,
/// or the literal offset with anything else.
pub proof fn lemma_illegal_combinations_conflict(
    start_abs: Option<i64>,
    end_abs: Option<i64>,
    literal_offset: Option<i64>,
    start_relative: Option<i64>,
    end_relative: Option<i64>,
    now: i64,
)
    ensures
        ({
            let presence = presence_of(
                start_abs,
                end_abs,
                literal_offset,
                start_relative,
                end_relative,
            );
            let resolved = window_of(
                start_abs,
                end_abs,
                literal_offset,
                start_relative,
                end_relative,
                now,
            );
            &&& presence.count() >= 1 && !presence.legal() ==> resolved == Err::<Window, ReadError>(
                ReadError::ConflictingParameters(presence.conflict()),
            )
            &&& start_abs is Some && start_relative is Some ==> resolved is Err
            &&& end_abs is Some && end_relative is Some ==> resolved is Err
            &&& literal_offset is Some && presence.count() >= 2 ==> resolved is Err
            &&& resolved is Err ==> presence.count() >= 1 && !presence.legal()
        }),
{
}

/// The same of the parameters as they are typed: where every parameter that
/// is present is well-formed, a legal combination resolves to a window with
/// a start, and every other combination of one or more parameters is
/// refused as conflicting. Every refusal is an error of the parameters.
pub proof fn lemma_resolution_by_combination(
    start_abs: Option<Seq<char>>,
    end_abs: Option<Seq<char>>,
    literal_offset: Option<Seq<char>>,
    start_relative: Option<Seq<char>>,
    end_relative: Option<Seq<char>>,
    now: i64,
)
    ensures
        ({
            let presence = presence_of(
                start_abs,
                end_abs,
                literal_offset,
                start_relative,
                end_relative,
            );
            let resolved = resolution(
                start_abs,
                end_abs,
                literal_offset,
                start_relative,
                end_relative,
                now,
            );
            let well_formed = read_timestamp(start_abs, Boundary::Start) is Ok && read_timestamp(
                end_abs,
                Boundary::End,
            ) is Ok && read_offset(literal_offset) is Ok && read_expression(
                start_relative,
                now,
                Boundary::Start,
            ) is Ok && read_expression(end_relative, now, Boundary::End) is Ok;
            &&& well_formed && presence.legal() ==> resolved is Ok && resolved->Ok_0.start is Some
            &&& well_formed && presence.count() >= 1 && !presence.legal() ==> resolved == Err::<
                Window,
                ReadError,
            >(ReadError::ConflictingParameters(presence.conflict()))
            &&& !well_formed ==> resolved is Err && !(resolved->Err_0 is ConflictingParameters)
            &&& resolved is Err ==> resolved->Err_0.class_of() == crate::error::ErrorClass::Parameter
        }),
{
}

/// With no parameter at all the window ends now and has no start, whatever
/// the instant.
pub proof fn lemma_no_parameters(now: i64)
    ensures
        window_of(None, None, None, None, None, now) == Ok::<Window, ReadError>(
            Window { start: None, end: now },
        ),
        resolution(None, None, None, None, None, now) == Ok::<Window, ReadError>(
            Window { start: None, end: now },
        ),
{
}

/// A window given by an absolute start and an absolute end does not depend
/// on when it is resolved.
pub proof fn lemma_absolute_window_is_timeless(start: i64, end: i64, now_a: i64, now_b: i64)
    ensures
        window_of(Some(start), Some(end), None, None, None, now_a) == window_of(
            Some(start),
            Some(end),
            None,
            None,
            None,
            now_b,
        ),
        window_of(Some(start), Some(end), None, None, None, now_a) == Ok::<Window, ReadError>(
            Window { start: Some(WindowStart::Absolute(start)), end },
        ),
{
}

} // verus!
