//! The bounded poll loop: what to do with the outcome of each fetch, and when
//! the run is over.

use vstd::prelude::*;
use crate::error::ReadError;
use crate::oracle::{all_done, done_after, verdict_of, Oracle, OracleView, Verdict, Watermark};
use crate::record::Record;

verus! {

/// Where the loop stands.
#[derive(Debug, Clone, Copy, PartialEq, Eq, Structural)]
pub enum Stage {
    /// Created; nothing has been fetched yet.
    Idle,
    /// A fetch is under way.
    Polling,
    /// The last fetch gave a record that is to be presented.
    Presenting,
    /// The last fetch gave nothing to present; another one follows.
    WaitingAgain,
    /// The run is complete.
    Finished,
    /// The run was abandoned.
    Failed,
}

/// The outcome of one fetch.
#[derive(Debug)]
pub enum PollEvent {
    /// The fetch timed out without a record.
    Empty,
    /// The cluster answered with an error.
    Fault,
    /// A record arrived.
    Record(Record),
}

/// What the caller does after a fetch.
#[derive(Debug, Clone, Copy, PartialEq, Eq, Structural)]
pub enum PollAction {
    /// Present the record, then fetch again.
    Present,
    /// Present the record, then stop: the run is complete.
    PresentAndFinish,
    /// Log the error, then fetch again.
    Report,
    /// Fetch again.
    Wait,
    /// Stop without presenting anything: the run is complete.
    Finish,
    /// Stop: the run is abandoned for the given reason.
    Abort(ReadError),
}

/// The state of a run, as mathematics.
pub struct RunView {
    pub oracle: OracleView,
    pub messages_read: bool,
    pub stage: Stage,
}

/// Whether a loop in this stage fetches again.
pub open spec fn is_active(stage: Stage) -> bool {
    stage != Stage::Finished && stage != Stage::Failed
}

/// Whether the action asks for the fetched record to be presented.
pub open spec fn presents(action: PollAction) -> bool {
    action == PollAction::Present || action == PollAction::PresentAndFinish
}

/// The state in which a run begins.
pub open spec fn fresh_run(end: i64, snapshot: Seq<Watermark>) -> RunView {
    RunView {
        oracle: OracleView { end, snapshot, done: Set::empty() },
        messages_read: false,
        stage: Stage::Idle,
    }
}

/// One cycle of the loop.
///
/// - A loop that has stopped stays as it is.
/// - Nothing fetched: with a record read before, the loop waits and fetches
///   again; with none read so far, the run is abandoned with `PollTimeout`.
/// - An error from the cluster is reported, and the loop goes on; it does
///   not count as a record read.
/// - A record after the window's end completes the run at once and is not
///   presented.
/// - Any other record is presented; if it is the last of its partition the
///   partition is done, and once every partition of the snapshot is done the
///   run is complete.
pub open spec fn step_of(run: RunView, event: PollEvent) -> (RunView, PollAction) {
    if run.stage == Stage::Finished {
        (run, PollAction::Finish)
    } else if run.stage == Stage::Failed {
        (run, PollAction::Abort(ReadError::PollTimeout))
    } else {
        match event {
            PollEvent::Empty => if run.messages_read {
                (RunView { stage: Stage::WaitingAgain, ..run }, PollAction::Wait)
            } else {
                (
                    RunView { stage: Stage::Failed, ..run },
                    PollAction::Abort(ReadError::PollTimeout),
                )
            },
            PollEvent::Fault => (RunView { stage: Stage::WaitingAgain, ..run }, PollAction::Report),
            PollEvent::Record(record) => {
                let verdict = verdict_of(run.oracle.end, run.oracle.snapshot, record);
                if verdict == Verdict::RunDone {
                    (
                        RunView { messages_read: true, stage: Stage::Finished, ..run },
                        PollAction::Finish,
                    )
                } else {
                    let done = done_after(run.oracle.done, verdict, record.partition);
                    let oracle = OracleView { done, ..run.oracle };
                    if all_done(run.oracle.snapshot, done) {
                        (
                            RunView { oracle, messages_read: true, stage: Stage::Finished },
                            PollAction::PresentAndFinish,
                        )
                    } else {
                        (
                            RunView { oracle, messages_read: true, stage: Stage::Presenting },
                            PollAction::Present,
                        )
                    }
                }
            },
        }
    }
}

/// The loop run over a sequence of fetch outcomes: the state it ends in and
/// the records it presents, in order.
pub open spec fn replay_of(run: RunView, events: Seq<PollEvent>) -> (RunView, Seq<Record>)
    decreases events.len(),
{
    if events.len() == 0 {
        (run, Seq::empty())
    } else {
        let (before, shown) = replay_of(run, events.drop_last());
        let (after, action) = step_of(before, events.last());
        if presents(action) {
            (after, shown.push(events.last()->Record_0))
        } else {
            (after, shown)
        }
    }
}

/// The per-run consumption context.
pub struct Consumption {
    oracle: Oracle,
    messages_read: bool,
    stage: Stage,
}

impl Consumption {
    pub closed spec fn wf(self) -> bool {
        self.oracle.wf()
    }

    pub closed spec fn view(self) -> RunView {
        RunView { oracle: self.oracle@, messages_read: self.messages_read, stage: self.stage }
    }

    /// The context of a run that is about to begin.
    pub fn new(end: i64, snapshot: Vec<Watermark>) -> (run: Consumption)
        ensures
            run.wf(),
            run@ == fresh_run(end, snapshot@),
    {
        Consumption { oracle: Oracle::new(end, snapshot), messages_read: false, stage: Stage::Idle }
    }

    /// Whether any record has been read in this run.
    pub fn messages_read(&self) -> (read: bool)
        ensures
            read == self@.messages_read,
    {
        self.messages_read
    }

    /// Where the loop stands.
    pub fn stage(&self) -> (stage: Stage)
        ensures
            stage == self@.stage,
    {
        self.stage
    }

    /// The oracle of this run.
    pub fn oracle(&self) -> (oracle: &Oracle)
        ensures
            oracle@ == self@.oracle,
            self.wf() ==> oracle.wf(),
    {
        &self.oracle
    }

    /// How the run ended, once it has: `Ok` when complete, the error when
    /// abandoned.
    pub fn outcome(&self) -> (outcome: Option<Result<(), ReadError>>)
        ensures
            outcome == match self@.stage {
                Stage::Finished => Some(Ok::<(), ReadError>(())),
                Stage::Failed => Some(Err::<(), ReadError>(ReadError::PollTimeout)),
                _ => None,
            },
    {
        match self.stage {
            Stage::Finished => Some(Ok(())),
            Stage::Failed => Some(Err(ReadError::PollTimeout)),
            _ => None,
        }
    }

    /// Notes that a fetch begins. Returns whether the loop still runs; a
    /// loop that has stopped is left as it is.
    pub fn fetch(&mut self) -> (running: bool)
        requires
            old(self).wf(),
        ensures
            final(self).wf(),
            running == is_active(old(self)@.stage),
            final(self)@ == (RunView {
                stage: if running {
                    Stage::Polling
                } else {
                    old(self)@.stage
                },
                ..old(self)@
            }),
    {
        match self.stage {
            Stage::Finished | Stage::Failed => false,
            _ => {
                self.stage = Stage::Polling;
                true
            },
        }
    }

    /// Takes the outcome of a fetch and says what to do next.
    pub fn on_event(&mut self, event: &PollEvent) -> (action: PollAction)
        requires
            old(self).wf(),
        ensures
            final(self).wf(),
            (final(self)@, action) == step_of(old(self)@, *event),
    {
        match self.stage {
            Stage::Finished => {
                return PollAction::Finish;
            },
            Stage::Failed => {
                return PollAction::Abort(ReadError::PollTimeout);
            },
            _ => {},
        }
        match event {
            PollEvent::Empty => {
                if self.messages_read {
                    self.stage = Stage::WaitingAgain;
                    PollAction::Wait
                } else {
                    self.stage = Stage::Failed;
                    PollAction::Abort(ReadError::PollTimeout)
                }
            },
            PollEvent::Fault => {
                self.stage = Stage::WaitingAgain;
                PollAction::Report
            },
            PollEvent::Record(record) => {
                self.messages_read = true;
                let verdict = self.oracle.observe(record);
                if verdict == Verdict::RunDone {
                    self.stage = Stage::Finished;
                    PollAction::Finish
                } else if self.oracle.complete() {
                    self.stage = Stage::Finished;
                    PollAction::PresentAndFinish
                } else {
                    self.stage = Stage::Presenting;
                    PollAction::Present
                }
            },
        }
    }
}

/// Runs the loop over recorded fetch outcomes and returns the records that
/// it presents, in order.
pub fn replay<'a>(run: &mut Consumption, events: &'a Vec<PollEvent>) -> (shown: Vec<&'a Record>)
    requires
        old(run).wf(),
    ensures
        final(run).wf(),
        final(run)@ == replay_of(old(run)@, events@).0,
        shown@.len() == replay_of(old(run)@, events@).1.len(),
        forall|i: int|
            0 <= i < shown@.len() ==> *(#[trigger] shown@[i]) == replay_of(old(run)@, events@).1[i],
{
    let ghost start = run@;
    let mut shown: Vec<&'a Record> = Vec::new();
    let mut i: usize = 0;
    assert(events@.take(0) == Seq::<PollEvent>::empty());
    while i < events.len()
        invariant
            i <= events.len(),
            run.wf(),
            run@ == replay_of(start, events@.take(i as int)).0,
            shown@.len() == replay_of(start, events@.take(i as int)).1.len(),
            forall|k: int|
                0 <= k < shown@.len() ==> *(#[trigger] shown@[k]) == replay_of(
                    start,
                    events@.take(i as int),
                ).1[k],
        decreases events.len() - i,
    {
        let event = &events[i];
        assert(events@.take(i + 1).drop_last() == events@.take(i as int));
        assert(events@.take(i + 1).last() == *event);
        let action = run.on_event(event);
        match action {
            PollAction::Present | PollAction::PresentAndFinish => {
                match event {
                    PollEvent::Record(record) => {
                        shown.push(record);
                    },
                    _ => {},
                }
            },
            _ => {},
        }
        i = i + 1;
    }
    assert(events@.take(events@.len() as int) == events@);
    shown
}

} // verus!
