//! A bounded replay from its parameters to its exit: the window is
//! resolved, the start is translated into positions, the watermarks of the
//! assigned partitions are taken, and the poll loop runs until the window is
//! exhausted. The caller talks to the cluster and reports each answer.

use vstd::prelude::*;
use rdkafka::topic_partition_list::TopicPartitionList;
use rdkafka::Offset;
use crate::error::{exit_status, Boundary, ReadError, EXIT_FAILURE, EXIT_SUCCESS};
use crate::instant::{
    current_millis,
    datetime_reason,
    expression_reason,
    relative_target,
    rfc3339_instant,
};
use crate::oracle::Watermark;
use crate::partitions::{list_entries, list_positions};
use crate::poll::{fresh_run, is_active, step_of, Consumption, PollAction, PollEvent, RunView};
use crate::record::Record;
use crate::translate::{
    begin_of,
    translate_of,
    AnswerView,
    Directive,
    TranslateAction,
    TranslateEvent,
    Translator,
    TranslatorView,
    Wait,
};
use crate::window::{resolution, resolve, Window};

verus! {

/// The parameters of a bounded replay, as they were typed.
#[derive(Debug)]
pub struct ReadParams {
    pub topic: Option<String>,
    pub start: Option<String>,
    pub end: Option<String>,
    pub offset: Option<String>,
    pub start_offset: Option<String>,
    pub end_offset: Option<String>,
}

/// What a replay is busy with.
#[derive(Debug, Clone, Copy, PartialEq, Eq, Structural)]
pub enum Phase {
    /// Turning the window's start into positions.
    Translating,
    /// Waiting for the positions to be assigned and sought.
    Seeking,
    /// Taking the watermarks of the assigned partitions, one by one.
    Snapshotting,
    /// Running the poll loop.
    Polling,
    /// Over, one way or the other.
    Ended,
}

/// An answer to what the replay asked for last.
#[derive(Debug)]
pub enum ReadEvent {
    /// An answer of the cluster to the translator.
    Cluster(TranslateEvent),
    /// Whether the positions were assigned and sought.
    Sought(bool),
    /// The low and high watermark of the partition asked about, or nothing
    /// where they could not be had.
    Watermarks(Option<(i64, i64)>),
    /// The outcome of a fetch.
    Fetched(PollEvent),
}

/// What the caller does next.
#[derive(Debug)]
pub enum ReadAction {
    /// Fetch the topic's metadata and report its partitions.
    FetchMetadata,
    /// Ask the cluster for the offsets at the timestamps of `request`.
    Lookup { request: TopicPartitionList, wait: Wait },
    /// Assign the positions to the consumer and seek to them.
    AssignAndSeek { positions: TopicPartitionList },
    /// Fetch the watermarks of a partition.
    FetchWatermarks { partition: i32 },
    /// Fetch a record.
    Fetch,
    /// Present the record, then fetch again.
    Present(Record),
    /// Log the error that was fetched, then fetch again.
    Report,
    /// Stop with success, after presenting the record if there is one.
    Finish(Option<Record>),
    /// Stop with a failure.
    Abort(ReadError),
}

/// An answer, as mathematics.
pub enum ReadAnswer {
    Cluster(AnswerView),
    Sought(bool),
    Watermarks(Option<(i64, i64)>),
    Fetched(PollEvent),
}

/// What the caller does next, as mathematics.
pub enum ReadDirective {
    FetchMetadata,
    Lookup { entries: Seq<(Seq<char>, i32, Offset)>, wait: Wait },
    AssignAndSeek { entries: Seq<(Seq<char>, i32, Offset)> },
    FetchWatermarks { partition: i32 },
    Fetch,
    Present(Record),
    Report,
    Finish(Option<Record>),
    Abort(ReadError),
}

impl ReadEvent {
    pub open spec fn view(self) -> ReadAnswer {
        match self {
            ReadEvent::Cluster(event) => ReadAnswer::Cluster(event@),
            ReadEvent::Sought(ok) => ReadAnswer::Sought(ok),
            ReadEvent::Watermarks(marks) => ReadAnswer::Watermarks(marks),
            ReadEvent::Fetched(event) => ReadAnswer::Fetched(event),
        }
    }
}

impl ReadAction {
    pub open spec fn view(self) -> ReadDirective {
        match self {
            ReadAction::FetchMetadata => ReadDirective::FetchMetadata,
            ReadAction::Lookup { request, wait } => ReadDirective::Lookup {
                entries: list_entries(request),
                wait,
            },
            ReadAction::AssignAndSeek { positions } => ReadDirective::AssignAndSeek {
                entries: list_entries(positions),
            },
            ReadAction::FetchWatermarks { partition } => ReadDirective::FetchWatermarks {
                partition,
            },
            ReadAction::Fetch => ReadDirective::Fetch,
            ReadAction::Present(record) => ReadDirective::Present(record),
            ReadAction::Report => ReadDirective::Report,
            ReadAction::Finish(record) => ReadDirective::Finish(record),
            ReadAction::Abort(error) => ReadDirective::Abort(error),
        }
    }

    /// The exit status that the action asks for, where it ends the run.
    pub fn exit_code(&self) -> (code: Option<i32>)
        ensures
            code == exit_of(self@),
    {
        match self {
            ReadAction::Finish(_) => Some(EXIT_SUCCESS),
            ReadAction::Abort(_) => Some(EXIT_FAILURE),
            _ => None,
        }
    }
}

/// The exit status that a directive asks for: success where the run is
/// complete, failure where it is abandoned, none while it goes on.
pub open spec fn exit_of(directive: ReadDirective) -> Option<i32> {
    match directive {
        ReadDirective::Finish(_) => Some(exit_status(Ok(()))),
        ReadDirective::Abort(error) => Some(exit_status(Err(error))),
        _ => None,
    }
}

/// The state of a replay, as mathematics.
pub struct SessionView {
    pub phase: Phase,
    pub translator: Option<TranslatorView>,
    pub end: i64,
    pub partitions: Seq<i32>,
    pub marks: Seq<Watermark>,
    pub run: Option<RunView>,
}

/// The partitions that a list of positions names, in its order.
pub open spec fn partitions_of(entries: Seq<(Seq<char>, i32, Offset)>) -> Seq<i32> {
    Seq::new(entries.len(), |i: int| entries[i].1)
}

/// Whether the parser has words on why a parameter was refused: it has for
/// an absolute timestamp or a relative expression that is present and was
/// refused when resolved at `now`.
pub open spec fn has_reason(params: ReadParams, error: ReadError, now: i64) -> bool {
    match error {
        ReadError::InvalidTimestamp(Boundary::Start) => params.start is Some && rfc3339_instant(
            params.start->0@,
        ) is None,
        ReadError::InvalidTimestamp(Boundary::End) => params.end is Some && rfc3339_instant(
            params.end->0@,
        ) is None,
        ReadError::InvalidRelativeOffset(Boundary::Start) => params.start_offset is Some
            && relative_target(params.start_offset->0@, now) is None,
        ReadError::InvalidRelativeOffset(Boundary::End) => params.end_offset is Some
            && relative_target(params.end_offset->0@, now) is None,
        _ => false,
    }
}

/// The parser's words on why a parameter was refused, for the errors that
/// speak of a timestamp or an expression.
pub fn reason_for(params: &ReadParams, error: ReadError, now: i64) -> (reason: Option<String>)
    ensures
        reason is Some <==> has_reason(*params, error, now),
{
    match error {
        ReadError::InvalidTimestamp(Boundary::Start) => match &params.start {
            Some(text) => datetime_reason(text.as_str()),
            None => None,
        },
        ReadError::InvalidTimestamp(Boundary::End) => match &params.end {
            Some(text) => datetime_reason(text.as_str()),
            None => None,
        },
        ReadError::InvalidRelativeOffset(Boundary::Start) => match &params.start_offset {
            Some(text) => expression_reason(text.as_str(), now),
            None => None,
        },
        ReadError::InvalidRelativeOffset(Boundary::End) => match &params.end_offset {
            Some(text) => expression_reason(text.as_str(), now),
            None => None,
        },
        _ => None,
    }
}

/// What the loop's action means to the caller of the replay. A record that
/// is to be presented is handed back; one that is not is dropped.
pub open spec fn directive_of(action: PollAction, event: PollEvent) -> ReadDirective {
    match action {
        PollAction::Present => ReadDirective::Present(event->Record_0),
        PollAction::PresentAndFinish => ReadDirective::Finish(Some(event->Record_0)),
        PollAction::Report => ReadDirective::Report,
        PollAction::Wait => ReadDirective::Fetch,
        PollAction::Finish => ReadDirective::Finish(None),
        PollAction::Abort(error) => ReadDirective::Abort(error),
    }
}

pub open spec fn ended(state: SessionView, error: ReadError) -> (SessionView, ReadDirective) {
    (SessionView { phase: Phase::Ended, ..state }, ReadDirective::Abort(error))
}

/// The characters of an optional owned text.
pub open spec fn chars_of(text: Option<String>) -> Option<Seq<char>> {
    match text {
        None => None,
        Some(t) => Some(t@),
    }
}

/// An empty session in the given phase.
pub open spec fn blank(phase: Phase, end: i64) -> SessionView {
    SessionView {
        phase,
        translator: None,
        end,
        partitions: Seq::empty(),
        marks: Seq::empty(),
        run: None,
    }
}

/// How a replay begins at the instant `now`. Everything that is wrong with
/// the parameters is found here, before the cluster is asked anything: a
/// missing topic first, then what the window resolver refuses, then a
/// window without a start. A replay that ends here has no window, and its
/// end is left at zero.
pub open spec fn begin_at(params: ReadParams, now: i64) -> (SessionView, ReadDirective) {
    if params.topic is None {
        ended(blank(Phase::Ended, 0), ReadError::MissingTopic)
    } else {
        match resolution(
            chars_of(params.start),
            chars_of(params.end),
            chars_of(params.offset),
            chars_of(params.start_offset),
            chars_of(params.end_offset),
            now,
        ) {
            Err(error) => ended(blank(Phase::Ended, 0), error),
            Ok(window) => {
                let (translator, directive) = begin_of(params.topic->0@, window);
                match directive {
                    Directive::Failed(error) => ended(
                        SessionView { translator: Some(translator), ..blank(Phase::Ended, window.end) },
                        error,
                    ),
                    _ => (
                        SessionView {
                            translator: Some(translator),
                            ..blank(Phase::Translating, window.end)
                        },
                        ReadDirective::FetchMetadata,
                    ),
                }
            },
        }
    }
}

/// One step of a replay.
///
/// - While translating, the answer goes to the translator. Its lookups are
///   passed on; its result is assigned and sought; its failure ends the run.
/// - Once the positions are sought, the watermarks of every assigned
///   partition are taken, in the order of the positions. They are taken
///   once: what arrives later is not chased.
/// - With the snapshot complete the poll loop begins, and from then on
///   every fetch outcome goes to it.
/// - A failure to seek or to take a watermark ends the run, and so does an
///   answer that was not asked for.
pub open spec fn read_of(state: SessionView, answer: ReadAnswer) -> (SessionView, ReadDirective) {
    match (state.phase, answer) {
        (Phase::Translating, ReadAnswer::Cluster(cluster)) => if state.translator is Some {
            let (translator, directive) = translate_of(state.translator->0, cluster);
            let next = SessionView { translator: Some(translator), ..state };
            match directive {
                Directive::FetchMetadata => (next, ReadDirective::FetchMetadata),
                Directive::Lookup { entries, wait } => (
                    next,
                    ReadDirective::Lookup { entries, wait },
                ),
                Directive::Assigned(entries) => (
                    SessionView {
                        phase: Phase::Seeking,
                        partitions: partitions_of(entries),
                        ..next
                    },
                    ReadDirective::AssignAndSeek { entries },
                ),
                Directive::Failed(error) => ended(next, error),
            }
        } else {
            ended(state, ReadError::TranslationFailed)
        },
        (Phase::Seeking, ReadAnswer::Sought(ok)) => if !ok {
            ended(state, ReadError::TranslationFailed)
        } else if state.partitions.len() == 0 {
            ended(state, ReadError::NoPartitions)
        } else {
            (
                SessionView { phase: Phase::Snapshotting, marks: Seq::empty(), ..state },
                ReadDirective::FetchWatermarks { partition: state.partitions[0] },
            )
        },
        (Phase::Snapshotting, ReadAnswer::Watermarks(None)) => ended(
            state,
            ReadError::MetadataUnavailable,
        ),
        (Phase::Snapshotting, ReadAnswer::Watermarks(Some(pair))) => if state.marks.len()
            < state.partitions.len() {
            let marks = state.marks.push(
                Watermark {
                    partition: state.partitions[state.marks.len() as int],
                    low: pair.0,
                    high: pair.1,
                },
            );
            if marks.len() < state.partitions.len() {
                (
                    SessionView { marks, ..state },
                    ReadDirective::FetchWatermarks {
                        partition: state.partitions[marks.len() as int],
                    },
                )
            } else {
                (
                    SessionView {
                        phase: Phase::Polling,
                        marks,
                        run: Some(fresh_run(state.end, marks)),
                        ..state
                    },
                    ReadDirective::Fetch,
                )
            }
        } else {
            ended(state, ReadError::TranslationFailed)
        },
        (Phase::Polling, ReadAnswer::Fetched(event)) => if state.run is Some {
            let (run, action) = step_of(state.run->0, event);
            (
                SessionView {
                    phase: if is_active(run.stage) {
                        Phase::Polling
                    } else {
                        Phase::Ended
                    },
                    run: Some(run),
                    ..state
                },
                directive_of(action, event),
            )
        } else {
            ended(state, ReadError::TranslationFailed)
        },
        _ => ended(state, ReadError::TranslationFailed),
    }
}

/// A bounded replay in progress.
pub struct ReadSession {
    phase: Phase,
    translator: Option<Translator>,
    end: i64,
    partitions: Vec<i32>,
    marks: Vec<Watermark>,
    run: Option<Consumption>,
}

fn borrowed(text: &Option<String>) -> (out: Option<&str>)
    ensures
        crate::window::text_of(out) == chars_of(*text),
{
    match text {
        Some(t) => Some(t.as_str()),
        None => None,
    }
}

fn partition_ids(list: &TopicPartitionList) -> (ids: Vec<i32>)
    ensures
        ids@ == partitions_of(list_entries(*list)),
{
    let positions = list_positions(list);
    let mut ids: Vec<i32> = Vec::new();
    let mut i: usize = 0;
    while i < positions.len()
        invariant
            i <= positions.len(),
            positions@.len() == list_entries(*list).len(),
            forall|k: int|
                0 <= k < positions@.len() ==> (#[trigger] positions@[k]) == (
                    list_entries(*list)[k].1,
                    list_entries(*list)[k].2,
                ),
            ids@.len() == i,
            forall|k: int| 0 <= k < i ==> ids@[k] == list_entries(*list)[k].1,
        decreases positions.len() - i,
    {
        ids.push(positions[i].0);
        i = i + 1;
    }
    assert(ids@ =~= partitions_of(list_entries(*list)));
    ids
}

impl ReadSession {
    /// The poll loop's context is sound once there is one.
    pub closed spec fn wf(self) -> bool {
        self.run is Some ==> self.run->0.wf()
    }

    pub closed spec fn view(self) -> SessionView {
        SessionView {
            phase: self.phase,
            translator: match self.translator {
                Some(t) => Some(t@),
                None => None,
            },
            end: self.end,
            partitions: self.partitions@,
            marks: self.marks@,
            run: match self.run {
                Some(r) => Some(r@),
                None => None,
            },
        }
    }

    fn blank(phase: Phase, end: i64) -> (session: ReadSession)
        ensures
            session.wf(),
            session@ == blank(phase, end),
    {
        ReadSession {
            phase,
            translator: None,
            end,
            partitions: Vec::new(),
            marks: Vec::new(),
            run: None,
        }
    }

    /// Begins a replay at the instant `now`.
    pub fn begin_at(params: &ReadParams, now: i64) -> (begun: (ReadSession, ReadAction))
        ensures
            begun.0.wf(),
            (begun.0@, begun.1@) == begin_at(*params, now),
    {
        let topic = match &params.topic {
            Some(topic) => topic,
            None => {
                let session = ReadSession::blank(Phase::Ended, 0);
                return (session, ReadAction::Abort(ReadError::MissingTopic));
            },
        };
        let resolved = resolve(
            borrowed(&params.start),
            borrowed(&params.end),
            borrowed(&params.offset),
            borrowed(&params.start_offset),
            borrowed(&params.end_offset),
            now,
        );
        let window = match resolved {
            Ok(window) => window,
            Err(error) => {
                let session = ReadSession::blank(Phase::Ended, 0);
                return (session, ReadAction::Abort(error));
            },
        };
        let (translator, action) = Translator::begin(topic.as_str(), &window);
        match action {
            TranslateAction::Failed(error) => {
                let mut session = ReadSession::blank(Phase::Ended, window.end);
                session.translator = Some(translator);
                (session, ReadAction::Abort(error))
            },
            _ => {
                let mut session = ReadSession::blank(Phase::Translating, window.end);
                session.translator = Some(translator);
                (session, ReadAction::FetchMetadata)
            },
        }
    }

    /// Begins a replay now: the clock is read once, and everything relative
    /// is resolved against that reading, which is handed back with the
    /// session and the first action.
    pub fn begin(params: &ReadParams) -> (begun: (ReadSession, ReadAction, i64))
        ensures
            begun.0.wf(),
            (begun.0@, begun.1@) == begin_at(*params, begun.2),
    {
        let now = current_millis();
        let (session, action) = ReadSession::begin_at(params, now);
        (session, action, now)
    }

    /// What the replay is busy with.
    pub fn phase(&self) -> (phase: Phase)
        ensures
            phase == self@.phase,
    {
        self.phase
    }

    /// The end of the window, in milliseconds since the epoch.
    pub fn window_end(&self) -> (end: i64)
        ensures
            end == self@.end,
    {
        self.end
    }

    fn end_with(&mut self, error: ReadError) -> (action: ReadAction)
        requires
            old(self).wf(),
        ensures
            final(self).wf(),
            (final(self)@, action@) == ended(old(self)@, error),
    {
        self.phase = Phase::Ended;
        ReadAction::Abort(error)
    }
}

/// Takes the answer to what the replay asked for last and says what to do
/// next.
pub fn read(session: &mut ReadSession, event: ReadEvent) -> (action: ReadAction)
    requires
        old(session).wf(),
    ensures
        final(session).wf(),
        (final(session)@, action@) == read_of(old(session)@, event@),
{
    match (session.phase, event) {
        (Phase::Translating, ReadEvent::Cluster(cluster)) => {
            let mut translator = match session.translator.take() {
                Some(translator) => translator,
                None => {
                    return session.end_with(ReadError::TranslationFailed);
                },
            };
            let action = translator.step(cluster);
            session.translator = Some(translator);
            match action {
                TranslateAction::FetchMetadata => ReadAction::FetchMetadata,
                TranslateAction::Lookup { request, wait } => ReadAction::Lookup { request, wait },
                TranslateAction::Assigned(positions) => {
                    session.partitions = partition_ids(&positions);
                    session.phase = Phase::Seeking;
                    ReadAction::AssignAndSeek { positions }
                },
                TranslateAction::Failed(error) => session.end_with(error),
            }
        },
        (Phase::Seeking, ReadEvent::Sought(ok)) => {
            if !ok {
                session.end_with(ReadError::TranslationFailed)
            } else if session.partitions.len() == 0 {
                session.end_with(ReadError::NoPartitions)
            } else {
                session.phase = Phase::Snapshotting;
                session.marks = Vec::new();
                ReadAction::FetchWatermarks { partition: session.partitions[0] }
            }
        },
        (Phase::Snapshotting, ReadEvent::Watermarks(None)) => session.end_with(
            ReadError::MetadataUnavailable,
        ),
        (Phase::Snapshotting, ReadEvent::Watermarks(Some(pair))) => {
            if session.marks.len() >= session.partitions.len() {
                return session.end_with(ReadError::TranslationFailed);
            }
            let partition = session.partitions[session.marks.len()];
            session.marks.push(Watermark { partition, low: pair.0, high: pair.1 });
            if session.marks.len() < session.partitions.len() {
                ReadAction::FetchWatermarks { partition: session.partitions[session.marks.len()] }
            } else {
                let mut snapshot: Vec<Watermark> = Vec::new();
                let mut i: usize = 0;
                while i < session.marks.len()
                    invariant
                        i <= session.marks.len(),
                        snapshot@ == session.marks@.take(i as int),
                    decreases session.marks.len() - i,
                {
                    snapshot.push(session.marks[i]);
                    assert(session.marks@.take(i as int).push(session.marks@[i as int])
                        == session.marks@.take(i + 1));
                    i = i + 1;
                }
                assert(session.marks@.take(session.marks@.len() as int) == session.marks@);
                session.run = Some(Consumption::new(session.end, snapshot));
                session.phase = Phase::Polling;
                ReadAction::Fetch
            }
        },
        (Phase::Polling, ReadEvent::Fetched(event)) => {
            let mut run = match session.run.take() {
                Some(run) => run,
                None => {
                    return session.end_with(ReadError::TranslationFailed);
                },
            };
            let action = run.on_event(&event);
            let running = match run.stage() {
                crate::poll::Stage::Finished | crate::poll::Stage::Failed => false,
                _ => true,
            };
            session.run = Some(run);
            if !running {
                session.phase = Phase::Ended;
            }
            match (action, event) {
                (PollAction::Present, PollEvent::Record(record)) => ReadAction::Present(record),
                (PollAction::PresentAndFinish, PollEvent::Record(record)) => ReadAction::Finish(
                    Some(record),
                ),
                (PollAction::Report, _) => ReadAction::Report,
                (PollAction::Wait, _) => ReadAction::Fetch,
                (PollAction::Abort(error), _) => ReadAction::Abort(error),
                _ => ReadAction::Finish(None),
            }
        },
        _ => session.end_with(ReadError::TranslationFailed),
    }
}

/// A replay fed a sequence of answers: the state it ends in and what it
/// asked for after each answer.
pub open spec fn read_all(state: SessionView, answers: Seq<ReadAnswer>) -> (
    SessionView,
    Seq<ReadDirective>,
)
    decreases answers.len(),
{
    if answers.len() == 0 {
        (state, Seq::empty())
    } else {
        let (before, asked) = read_all(state, answers.drop_last());
        let (after, directive) = read_of(before, answers.last());
        (after, asked.push(directive))
    }
}

/// The records that a replay hands back for presenting, in order.
pub open spec fn presented(directives: Seq<ReadDirective>) -> Seq<Record>
    decreases directives.len(),
{
    if directives.len() == 0 {
        Seq::empty()
    } else {
        let shown = presented(directives.drop_last());
        match directives.last() {
            ReadDirective::Present(record) => shown.push(record),
            ReadDirective::Finish(Some(record)) => shown.push(record),
            _ => shown,
        }
    }
}

/// A replay between an absolute start and an absolute end does not depend
/// on when it runs: begun at two instants and given the same answers by the
/// cluster, it asks for the same things, presents the same records in the
/// same order, and ends in the same state. Nothing of one run is kept for
/// the next.
pub proof fn lemma_absolute_replay_is_repeatable(
    params: ReadParams,
    now_first: i64,
    now_second: i64,
    answers: Seq<ReadAnswer>,
)
    requires
        params.start is Some,
        params.end is Some,
        params.offset is None,
        params.start_offset is None,
        params.end_offset is None,
    ensures
        begin_at(params, now_first) == begin_at(params, now_second),
        read_all(begin_at(params, now_first).0, answers) == read_all(
            begin_at(params, now_second).0,
            answers,
        ),
        presented(read_all(begin_at(params, now_first).0, answers).1) == presented(
            read_all(begin_at(params, now_second).0, answers).1,
        ),
{
}

/// Whatever is wrong with the parameters is found before the cluster is
/// asked anything: a replay begins by fetching the topic's metadata or not
/// at all, and what keeps it from beginning is an error of the parameters,
/// or a topic name that no topic can have.
pub proof fn lemma_parameters_are_judged_first(params: ReadParams, now: i64)
    ensures
        ({
            let (state, directive) = begin_at(params, now);
            ||| directive == ReadDirective::FetchMetadata && state.phase == Phase::Translating
            ||| {
                &&& directive is Abort
                &&& state.phase == Phase::Ended
                &&& directive->Abort_0.class_of() == crate::error::ErrorClass::Parameter
                    || directive->Abort_0 == ReadError::NoSuchTopic
            }
        }),
{
    crate::window::lemma_resolution_by_combination(
        chars_of(params.start),
        chars_of(params.end),
        chars_of(params.offset),
        chars_of(params.start_offset),
        chars_of(params.end_offset),
        now,
    );
}

} // verus!
