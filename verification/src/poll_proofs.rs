//! What holds of every bounded run.

use vstd::prelude::*;
use crate::error::{exit_status, ReadError, EXIT_FAILURE};
use crate::oracle::{all_done, high_of, in_snapshot, lemma_high_of_in_snapshot, Watermark};
use crate::poll::{fresh_run, is_active, replay_of, step_of, PollEvent, RunView, Stage};
use crate::record::Record;
use crate::window::{window_of, Window};

verus! {

/// Whether an event is a record whose timestamp lies after `end`.
pub open spec fn is_late(event: PollEvent, end: i64) -> bool {
    event is Record && event->Record_0.timestamp is Some && event->Record_0.timestamp->0 > end
}

/// A loop that has stopped presents nothing more and does not change.
pub proof fn lemma_stopped_stays(run: RunView, events: Seq<PollEvent>)
    requires
        !is_active(run.stage),
    ensures
        replay_of(run, events) == (run, Seq::<Record>::empty()),
    decreases events.len(),
{
    if events.len() > 0 {
        lemma_stopped_stays(run, events.drop_last());
    }
}

/// Running the loop over two batches in turn is running it over their
/// concatenation.
pub proof fn lemma_replay_in_two(run: RunView, head: Seq<PollEvent>, tail: Seq<PollEvent>)
    ensures
        replay_of(run, head + tail).0 == replay_of(replay_of(run, head).0, tail).0,
        replay_of(run, head + tail).1 == replay_of(run, head).1 + replay_of(
            replay_of(run, head).0,
            tail,
        ).1,
    decreases tail.len(),
{
    if tail.len() == 0 {
        assert(head + tail == head);
        assert(replay_of(run, head).1 + Seq::<Record>::empty() == replay_of(run, head).1);
    } else {
        lemma_replay_in_two(run, head, tail.drop_last());
        assert((head + tail).drop_last() == head + tail.drop_last());
        assert((head + tail).last() == tail.last());
        let middle = replay_of(run, head).0;
        let shown_head = replay_of(run, head).1;
        let shown_tail = replay_of(middle, tail.drop_last()).1;
        assert((shown_head + shown_tail).push(tail.last()->Record_0) == shown_head
            + shown_tail.push(tail.last()->Record_0));
    }
}

/// The window's end and the snapshot stay as they were, and what was read
/// stays read.
pub proof fn lemma_replay_keeps_bounds(run: RunView, events: Seq<PollEvent>)
    ensures
        replay_of(run, events).0.oracle.end == run.oracle.end,
        replay_of(run, events).0.oracle.snapshot == run.oracle.snapshot,
        run.messages_read ==> replay_of(run, events).0.messages_read,
        run.oracle.done.subset_of(replay_of(run, events).0.oracle.done),
    decreases events.len(),
{
    if events.len() > 0 {
        lemma_replay_keeps_bounds(run, events.drop_last());
    }
}

/// A record that lies after the window's end stops a running loop at once:
/// the run is complete, and neither that record nor anything fetched after
/// it is presented, whether or not its partition has reached its watermark.
pub proof fn lemma_late_record_ends_run(run: RunView, events: Seq<PollEvent>, at: int)
    requires
        0 <= at < events.len(),
        is_late(events[at], run.oracle.end),
        is_active(replay_of(run, events.take(at)).0.stage),
    ensures
        replay_of(run, events).0.stage == Stage::Finished,
        replay_of(run, events).1 == replay_of(run, events.take(at)).1,
{
    let head = events.take(at + 1);
    let tail = events.skip(at + 1);
    assert(head + tail == events);
    assert(head.drop_last() == events.take(at));
    assert(head.last() == events[at]);
    lemma_replay_keeps_bounds(run, events.take(at));
    lemma_replay_in_two(run, head, tail);
    lemma_stopped_stays(replay_of(run, head).0, tail);
    assert(replay_of(run, head).1 + Seq::<Record>::empty() == replay_of(run, head).1);
}

/// Whether `events` are the records of one partition at consecutive offsets
/// from `first` on, none of them after `end`.
pub open spec fn consecutive_records(
    events: Seq<PollEvent>,
    partition: i32,
    first: int,
    end: i64,
) -> bool {
    forall|i: int|
        0 <= i < events.len() ==> {
            &&& (#[trigger] events[i]) is Record
            &&& events[i]->Record_0.partition == partition
            &&& events[i]->Record_0.offset == first + i
            &&& !is_late(events[i], end)
        }
}

proof fn lemma_below_watermark(end: i64, mark: Watermark, events: Seq<PollEvent>, first: int)
    requires
        consecutive_records(events, mark.partition, first, end),
        first + events.len() < mark.high,
    ensures
        replay_of(fresh_run(end, seq![mark]), events).0 == (RunView {
            messages_read: events.len() > 0,
            stage: if events.len() > 0 {
                Stage::Presenting
            } else {
                Stage::Idle
            },
            ..fresh_run(end, seq![mark])
        }),
        replay_of(fresh_run(end, seq![mark]), events).1 == Seq::new(
            events.len(),
            |i: int| events[i]->Record_0,
        ),
    decreases events.len(),
{
    let snapshot = seq![mark];
    if events.len() > 0 {
        let head = events.drop_last();
        lemma_below_watermark(end, mark, head, first);
        assert(high_of(snapshot, mark.partition) == Some(mark.high));
        assert(snapshot[0] == mark);
        assert(!Set::<i32>::empty().contains(snapshot[0].partition));
        assert(replay_of(fresh_run(end, snapshot), events).1 =~= Seq::new(
            events.len(),
            |i: int| events[i]->Record_0,
        ));
    } else {
        assert(replay_of(fresh_run(end, snapshot), events).1 =~= Seq::new(
            events.len(),
            |i: int| events[i]->Record_0,
        ));
    }
}

/// With one partition in the snapshot and no record after the window's end,
/// a run that is fed that partition's records in offset order from `first`
/// presents exactly the records at the offsets `first` to `high - 1` and is
/// then complete; what is fetched after them is not presented.
pub proof fn lemma_reads_up_to_watermark(
    end: i64,
    mark: Watermark,
    events: Seq<PollEvent>,
    first: int,
)
    requires
        consecutive_records(events, mark.partition, first, end),
        first < mark.high,
        events.len() >= mark.high - first,
    ensures
        replay_of(fresh_run(end, seq![mark]), events).0.stage == Stage::Finished,
        replay_of(fresh_run(end, seq![mark]), events).1 == Seq::new(
            (mark.high - first) as nat,
            |i: int| events[i]->Record_0,
        ),
{
    let snapshot = seq![mark];
    let count = mark.high - first;
    let head = events.take(count);
    let tail = events.skip(count);
    let below = head.drop_last();
    assert(head + tail == events);
    assert(consecutive_records(below, mark.partition, first, end));
    lemma_below_watermark(end, mark, below, first);
    assert(head.last() == events[count - 1]);
    assert(high_of(snapshot, mark.partition) == Some(mark.high));
    assert(snapshot[0] == mark);
    let last = replay_of(fresh_run(end, snapshot), head).0;
    assert(last.stage == Stage::Finished);
    lemma_replay_in_two(fresh_run(end, snapshot), head, tail);
    lemma_stopped_stays(last, tail);
    assert(replay_of(fresh_run(end, snapshot), events).1 =~= Seq::new(
        count as nat,
        |i: int| events[i]->Record_0,
    ));
}

/// Whether every event is an error from the cluster.
pub open spec fn only_faults(events: Seq<PollEvent>) -> bool {
    forall|i: int| 0 <= i < events.len() ==> (#[trigger] events[i]) is Fault
}

/// Whether no event is a record.
pub open spec fn no_records(events: Seq<PollEvent>) -> bool {
    forall|i: int| 0 <= i < events.len() ==> !((#[trigger] events[i]) is Record)
}

proof fn lemma_faults_read_nothing(run: RunView, events: Seq<PollEvent>)
    requires
        is_active(run.stage),
        only_faults(events),
    ensures
        is_active(replay_of(run, events).0.stage),
        replay_of(run, events).0.messages_read == run.messages_read,
        replay_of(run, events).1 == Seq::<Record>::empty(),
    decreases events.len(),
{
    if events.len() > 0 {
        lemma_faults_read_nothing(run, events.drop_last());
    }
}

/// A run in which no record has been read is abandoned by the first fetch
/// that times out, with `PollTimeout` and the failure status; errors from
/// the cluster before it change nothing, and nothing is presented.
pub proof fn lemma_stall_is_fatal(run: RunView, events: Seq<PollEvent>, at: int)
    requires
        is_active(run.stage),
        !run.messages_read,
        0 <= at < events.len(),
        only_faults(events.take(at)),
        events[at] is Empty,
    ensures
        replay_of(run, events).0.stage == Stage::Failed,
        replay_of(run, events).1 == Seq::<Record>::empty(),
        step_of(replay_of(run, events.take(at)).0, events[at]).1 == crate::poll::PollAction::Abort(
            ReadError::PollTimeout,
        ),
        exit_status(Err(ReadError::PollTimeout)) == EXIT_FAILURE,
{
    let head = events.take(at + 1);
    let tail = events.skip(at + 1);
    assert(head + tail == events);
    assert(head.drop_last() == events.take(at));
    assert(head.last() == events[at]);
    lemma_faults_read_nothing(run, events.take(at));
    lemma_replay_in_two(run, head, tail);
    lemma_stopped_stays(replay_of(run, head).0, tail);
    assert(replay_of(run, head).1 + Seq::<Record>::empty() == replay_of(run, head).1);
}

/// Once a record has been read, fetches that give no record never end the
/// run: the loop keeps running, however many of them follow.
pub proof fn lemma_waits_after_reading(run: RunView, events: Seq<PollEvent>)
    requires
        is_active(run.stage),
        run.messages_read,
        no_records(events),
    ensures
        is_active(replay_of(run, events).0.stage),
        replay_of(run, events).0.messages_read,
        replay_of(run, events).0.oracle == run.oracle,
        replay_of(run, events).1 == Seq::<Record>::empty(),
    decreases events.len(),
{
    if events.len() > 0 {
        lemma_waits_after_reading(run, events.drop_last());
    }
}

/// Two runs over the same absolute start and end, resolved at whatever
/// instants, against the same snapshot and the same fetch outcomes, present
/// the same records in the same order and end in the same state: a run
/// leaves nothing behind that a later one could pick up.
pub proof fn lemma_replay_is_repeatable(
    start: i64,
    end: i64,
    now_first: i64,
    now_second: i64,
    snapshot: Seq<Watermark>,
    events: Seq<PollEvent>,
)
    ensures
        ({
            let first = window_of(Some(start), Some(end), None, None, None, now_first);
            let second = window_of(Some(start), Some(end), None, None, None, now_second);
            &&& first is Ok
            &&& first == second
            &&& replay_of(fresh_run(first->Ok_0.end, snapshot), events) == replay_of(
                fresh_run(second->Ok_0.end, snapshot),
                events,
            )
        }),
{
}

/// Whether some event is a record after the window's end.
pub open spec fn has_late_record(events: Seq<PollEvent>, end: i64) -> bool {
    exists|i: int| 0 <= i < events.len() && is_late(#[trigger] events[i], end)
}

/// What holds of a run after any sequence of fetch outcomes:
/// - it is complete only for a reason: every partition of the snapshot is
///   done, or a record after the window's end was fetched;
/// - it is abandoned only with nothing read and nothing presented;
/// - while it goes on after a record, some partition is not yet done;
/// - only partitions of the snapshot are ever done;
/// - no record after the window's end is ever presented;
/// - once something was fetched, the loop is neither idle nor marked as
///   fetching.
pub proof fn lemma_run_invariants(end: i64, snapshot: Seq<Watermark>, events: Seq<PollEvent>)
    ensures
        ({
            let (last, shown) = replay_of(fresh_run(end, snapshot), events);
            &&& last.stage == Stage::Finished ==> all_done(snapshot, last.oracle.done)
                || has_late_record(events, end)
            &&& last.stage == Stage::Failed ==> !last.messages_read && shown.len() == 0
            &&& is_active(last.stage) && last.messages_read ==> !all_done(
                snapshot,
                last.oracle.done,
            )
            &&& !last.messages_read ==> shown.len() == 0
            &&& events.len() > 0 ==> last.stage != Stage::Idle && last.stage != Stage::Polling
            &&& forall|p: i32| last.oracle.done.contains(p) ==> in_snapshot(snapshot, p)
            &&& forall|k: int|
                0 <= k < shown.len() ==> !((#[trigger] shown[k]).timestamp is Some
                    && shown[k].timestamp->0 > end)
        }),
    decreases events.len(),
{
    if events.len() > 0 {
        let head = events.drop_last();
        lemma_run_invariants(end, snapshot, head);
        lemma_replay_keeps_bounds(fresh_run(end, snapshot), head);
        let before = replay_of(fresh_run(end, snapshot), head).0;
        let (last, shown) = replay_of(fresh_run(end, snapshot), events);
        if has_late_record(head, end) {
            let i = choose|i: int| 0 <= i < head.len() && is_late(#[trigger] head[i], end);
            assert(is_late(events[i], end));
        }
        if is_active(before.stage) && events.last() is Record {
            let record = events.last()->Record_0;
            lemma_high_of_in_snapshot(snapshot, record.partition);
            if is_late(events.last(), end) {
                assert(is_late(events[events.len() - 1], end));
            }
        }
    }
}

} // verus!
