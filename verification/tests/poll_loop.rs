use k2::error::{exit_code, ReadError};
use k2::oracle::{Oracle, Verdict, Watermark};
use k2::poll::{replay, Consumption, PollAction, PollEvent, Stage};
use k2::record::Record;

fn record(partition: i32, offset: i64, timestamp: Option<i64>) -> Record {
    Record {
        topic: String::from("events"),
        partition,
        offset,
        timestamp,
        key: None,
        headers: Vec::new(),
        payload: Some(format!("payload {}", offset).into_bytes()),
    }
}

fn mark(partition: i32, low: i64, high: i64) -> Watermark {
    Watermark { partition, low, high }
}

fn offsets(shown: &[&Record]) -> Vec<(i32, i64)> {
    shown.iter().map(|r| (r.partition, r.offset)).collect()
}

#[test]
fn oracle_rules_in_order() {
    let mut oracle = Oracle::new(1_000, vec![mark(0, 0, 100), mark(1, 0, 10)]);
    // Time comes first, even at the watermark.
    assert_eq!(oracle.judge(&record(0, 99, Some(1_001))), Verdict::RunDone);
    assert_eq!(oracle.judge(&record(0, 5, Some(1_001))), Verdict::RunDone);
    // The end itself is still inside the window.
    assert_eq!(oracle.judge(&record(0, 5, Some(1_000))), Verdict::Continue);
    assert_eq!(oracle.judge(&record(0, 98, Some(1_000))), Verdict::Continue);
    assert_eq!(oracle.judge(&record(0, 99, Some(1_000))), Verdict::PartitionDone);
    assert_eq!(oracle.judge(&record(0, 100, None)), Verdict::PartitionDone);
    assert_eq!(oracle.judge(&record(1, 9, None)), Verdict::PartitionDone);
    assert_eq!(oracle.judge(&record(1, 8, None)), Verdict::Continue);
    // A partition outside the snapshot has no watermark to reach.
    assert_eq!(oracle.judge(&record(7, 1_000_000, None)), Verdict::Continue);

    assert!(!oracle.is_done(0));
    assert_eq!(oracle.observe(&record(0, 99, None)), Verdict::PartitionDone);
    assert!(oracle.is_done(0));
    assert!(!oracle.is_done(1));
    assert!(!oracle.complete());
    assert_eq!(oracle.observe(&record(1, 3, None)), Verdict::Continue);
    assert!(!oracle.complete());
    assert_eq!(oracle.observe(&record(1, 9, Some(5_000))), Verdict::RunDone);
    assert!(!oracle.is_done(1));
    assert_eq!(oracle.observe(&record(1, 9, Some(500))), Verdict::PartitionDone);
    assert!(oracle.complete());
    assert_eq!(oracle.end(), 1_000);
    assert_eq!(oracle.snapshot().len(), 2);
}

#[test]
fn oracle_with_extreme_watermarks() {
    let oracle = Oracle::new(i64::MAX, vec![mark(0, 0, i64::MIN), mark(1, 0, i64::MAX), mark(2, 0, 0)]);
    assert_eq!(oracle.judge(&record(0, i64::MIN, None)), Verdict::PartitionDone);
    assert_eq!(oracle.judge(&record(1, i64::MAX - 2, None)), Verdict::Continue);
    assert_eq!(oracle.judge(&record(1, i64::MAX - 1, None)), Verdict::PartitionDone);
    assert_eq!(oracle.judge(&record(2, -1, None)), Verdict::PartitionDone);
    assert_eq!(oracle.judge(&record(2, -2, None)), Verdict::Continue);
    assert_eq!(oracle.judge(&record(2, 0, Some(i64::MAX))), Verdict::PartitionDone);
}

#[test]
fn duplicate_snapshot_entries_follow_the_first() {
    let mut oracle = Oracle::new(0, vec![mark(3, 0, 10), mark(3, 0, 50)]);
    assert_eq!(oracle.observe(&record(3, 9, None)), Verdict::PartitionDone);
    assert!(oracle.complete());
}

#[test]
fn reads_up_to_the_watermark_and_stops() {
    let mut run = Consumption::new(i64::MAX, vec![mark(0, 0, 100)]);
    let events: Vec<PollEvent> =
        (42..120).map(|offset| PollEvent::Record(record(0, offset, Some(offset * 10)))).collect();
    let shown = replay(&mut run, &events);
    let expected: Vec<(i32, i64)> = (42..=99).map(|offset| (0, offset)).collect();
    assert_eq!(offsets(&shown), expected);
    assert_eq!(run.stage(), Stage::Finished);
    assert_eq!(run.outcome(), Some(Ok(())));
    assert_eq!(exit_code(run.outcome().unwrap()), 0);
    assert!(run.oracle().is_done(0));
}

#[test]
fn the_record_at_the_watermark_is_the_last() {
    let mut run = Consumption::new(i64::MAX, vec![mark(0, 0, 100)]);
    for offset in 95..99 {
        assert!(run.fetch());
        assert_eq!(run.stage(), Stage::Polling);
        assert_eq!(run.on_event(&PollEvent::Record(record(0, offset, None))), PollAction::Present);
        assert_eq!(run.stage(), Stage::Presenting);
    }
    assert_eq!(
        run.on_event(&PollEvent::Record(record(0, 99, None))),
        PollAction::PresentAndFinish
    );
    assert_eq!(run.stage(), Stage::Finished);
    assert!(!run.fetch());
    assert_eq!(run.stage(), Stage::Finished);
    assert_eq!(run.on_event(&PollEvent::Record(record(0, 100, None))), PollAction::Finish);
    assert_eq!(run.on_event(&PollEvent::Empty), PollAction::Finish);
}

#[test]
fn a_late_record_ends_the_run_at_once() {
    let mut run = Consumption::new(5_000, vec![mark(0, 0, 100), mark(1, 0, 100)]);
    let events = vec![
        PollEvent::Record(record(0, 10, Some(4_000))),
        PollEvent::Record(record(1, 20, Some(5_000))),
        PollEvent::Record(record(0, 11, Some(5_001))),
        PollEvent::Record(record(0, 12, Some(4_500))),
        PollEvent::Record(record(1, 21, Some(4_600))),
    ];
    let shown = replay(&mut run, &events);
    assert_eq!(offsets(&shown), vec![(0, 10), (1, 20)]);
    assert_eq!(run.stage(), Stage::Finished);
    assert_eq!(run.outcome(), Some(Ok(())));
    assert!(!run.oracle().is_done(0));
    assert!(!run.oracle().is_done(1));
}

#[test]
fn a_late_first_record_is_not_presented() {
    let mut run = Consumption::new(5_000, vec![mark(0, 0, 100)]);
    assert_eq!(run.on_event(&PollEvent::Record(record(0, 0, Some(9_000)))), PollAction::Finish);
    assert!(run.messages_read());
    assert_eq!(run.stage(), Stage::Finished);
}

#[test]
fn nothing_read_and_nothing_fetched_is_a_stall() {
    let mut run = Consumption::new(5_000, vec![mark(0, 0, 100)]);
    assert_eq!(run.stage(), Stage::Idle);
    assert!(!run.messages_read());
    assert_eq!(run.on_event(&PollEvent::Empty), PollAction::Abort(ReadError::PollTimeout));
    assert_eq!(run.stage(), Stage::Failed);
    assert_eq!(run.outcome(), Some(Err(ReadError::PollTimeout)));
    assert_eq!(exit_code(run.outcome().unwrap()), 1);
    assert!(!run.fetch());
    assert_eq!(run.on_event(&PollEvent::Empty), PollAction::Abort(ReadError::PollTimeout));
    assert_eq!(
        run.on_event(&PollEvent::Record(record(0, 1, None))),
        PollAction::Abort(ReadError::PollTimeout)
    );
    assert!(!run.messages_read());
}

#[test]
fn errors_do_not_count_as_records() {
    let mut run = Consumption::new(5_000, vec![mark(0, 0, 100)]);
    assert_eq!(run.on_event(&PollEvent::Fault), PollAction::Report);
    assert_eq!(run.stage(), Stage::WaitingAgain);
    assert_eq!(run.on_event(&PollEvent::Fault), PollAction::Report);
    assert!(!run.messages_read());
    assert_eq!(run.outcome(), None);
    assert_eq!(run.on_event(&PollEvent::Empty), PollAction::Abort(ReadError::PollTimeout));
}

#[test]
fn empty_fetches_after_a_record_are_waited_out() {
    let mut run = Consumption::new(5_000, vec![mark(0, 0, 100)]);
    let mut events = vec![PollEvent::Record(record(0, 3, Some(1)))];
    for _ in 0..50 {
        events.push(PollEvent::Empty);
    }
    events.push(PollEvent::Fault);
    events.push(PollEvent::Empty);
    let shown = replay(&mut run, &events);
    assert_eq!(offsets(&shown), vec![(0, 3)]);
    assert_eq!(run.stage(), Stage::WaitingAgain);
    assert_eq!(run.outcome(), None);
    assert!(run.messages_read());
    assert_eq!(run.on_event(&PollEvent::Empty), PollAction::Wait);
}

#[test]
fn every_partition_must_reach_its_watermark() {
    let mut run = Consumption::new(i64::MAX, vec![mark(0, 0, 3), mark(1, 0, 2), mark(2, 5, 6)]);
    let events = vec![
        PollEvent::Record(record(1, 0, None)),
        PollEvent::Record(record(0, 0, None)),
        PollEvent::Record(record(1, 1, None)),
        PollEvent::Empty,
        PollEvent::Record(record(0, 1, None)),
        PollEvent::Fault,
        PollEvent::Record(record(2, 5, None)),
        PollEvent::Record(record(0, 2, None)),
        PollEvent::Record(record(0, 3, None)),
    ];
    let shown = replay(&mut run, &events);
    assert_eq!(offsets(&shown), vec![(1, 0), (0, 0), (1, 1), (0, 1), (2, 5), (0, 2)]);
    assert_eq!(run.stage(), Stage::Finished);
}

#[test]
fn two_runs_over_the_same_log_show_the_same_records() {
    let events = || -> Vec<PollEvent> {
        vec![
            PollEvent::Record(record(0, 7, Some(100))),
            PollEvent::Fault,
            PollEvent::Record(record(1, 2, Some(150))),
            PollEvent::Empty,
            PollEvent::Record(record(0, 8, Some(200))),
            PollEvent::Record(record(1, 3, Some(901))),
            PollEvent::Record(record(0, 9, Some(300))),
        ]
    };
    let first_events = events();
    let second_events = events();
    let mut first = Consumption::new(900, vec![mark(0, 0, 50), mark(1, 0, 50)]);
    let mut second = Consumption::new(900, vec![mark(0, 0, 50), mark(1, 0, 50)]);
    let shown_first = offsets(&replay(&mut first, &first_events));
    let shown_second = offsets(&replay(&mut second, &second_events));
    assert_eq!(shown_first, vec![(0, 7), (1, 2), (0, 8)]);
    assert_eq!(shown_first, shown_second);
    assert_eq!(first.stage(), second.stage());
}

#[test]
fn an_empty_snapshot_is_complete_after_one_record() {
    let mut run = Consumption::new(i64::MAX, Vec::new());
    assert_eq!(
        run.on_event(&PollEvent::Record(record(0, 0, None))),
        PollAction::PresentAndFinish
    );
}
