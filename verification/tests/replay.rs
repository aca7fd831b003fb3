use k2::error::{Boundary, Conflict, ReadError};
use k2::poll::PollEvent;
use k2::read::{read, reason_for, Phase, ReadAction, ReadEvent, ReadParams, ReadSession};
use k2::record::Record;
use k2::translate::{TranslateEvent, Wait};
use rdkafka::topic_partition_list::TopicPartitionList;
use rdkafka::Offset;

const NOW: i64 = 1_700_000_000_000;

fn params(topic: Option<&str>) -> ReadParams {
    ReadParams {
        topic: topic.map(String::from),
        start: None,
        end: None,
        offset: None,
        start_offset: None,
        end_offset: None,
    }
}

fn record(partition: i32, offset: i64, timestamp: i64) -> Record {
    Record {
        topic: String::from("events"),
        partition,
        offset,
        timestamp: Some(timestamp),
        key: None,
        headers: Vec::new(),
        payload: None,
    }
}

fn entries(list: &TopicPartitionList) -> Vec<(String, i32, Offset)> {
    list.elements().iter().map(|e| (e.topic().to_string(), e.partition(), e.offset())).collect()
}

fn aborted_with(action: &ReadAction) -> Option<ReadError> {
    match action {
        ReadAction::Abort(error) => Some(*error),
        _ => None,
    }
}

#[test]
fn a_replay_needs_a_topic() {
    let mut p = params(None);
    p.start = Some(String::from("not even looked at"));
    let (session, action) = ReadSession::begin_at(&p, NOW);
    assert_eq!(aborted_with(&action), Some(ReadError::MissingTopic));
    assert_eq!(action.exit_code(), Some(1));
    assert_eq!(session.phase(), Phase::Ended);
}

#[test]
fn a_replay_needs_a_start() {
    let (session, action) = ReadSession::begin_at(&params(Some("events")), NOW);
    assert_eq!(aborted_with(&action), Some(ReadError::MissingStartCondition));
    assert_eq!(action.exit_code(), Some(1));
    assert_eq!(session.phase(), Phase::Ended);
    assert_eq!(session.window_end(), NOW);
    let (session, _) = ReadSession::begin_at(&params(None), NOW);
    assert_eq!(session.window_end(), 0);
}

#[test]
fn what_the_resolver_refuses_ends_the_replay_before_it_began() {
    let mut p = params(Some("events"));
    p.start = Some(String::from("2023-11-14T00:00:00Z"));
    p.start_offset = Some(String::from("1 hour ago"));
    let (_, action) = ReadSession::begin_at(&p, NOW);
    assert_eq!(
        aborted_with(&action),
        Some(ReadError::ConflictingParameters(Conflict::AmbiguousStart))
    );
    p.start_offset = None;
    p.start = Some(String::from("14 November"));
    let (_, action) = ReadSession::begin_at(&p, NOW);
    assert_eq!(aborted_with(&action), Some(ReadError::InvalidTimestamp(Boundary::Start)));
    p.start = None;
    p.offset = Some(String::from("1.5"));
    let (_, action) = ReadSession::begin_at(&p, NOW);
    assert_eq!(aborted_with(&action), Some(ReadError::InvalidOffset));
    p.offset = None;
    p.start_offset = Some(String::from("soonish"));
    let (_, action) = ReadSession::begin_at(&p, NOW);
    assert_eq!(aborted_with(&action), Some(ReadError::InvalidRelativeOffset(Boundary::Start)));
}

#[test]
fn a_replay_by_time_from_start_to_finish() {
    let mut p = params(Some("events"));
    p.start = Some(String::from("1970-01-01T00:00:01Z"));
    p.end = Some(String::from("1970-01-01T00:00:05Z"));
    let (mut session, action) = ReadSession::begin_at(&p, NOW);
    assert!(matches!(action, ReadAction::FetchMetadata));
    assert_eq!(action.exit_code(), None);
    assert_eq!(session.phase(), Phase::Translating);
    assert_eq!(session.window_end(), 5_000);

    let action = read(&mut session, ReadEvent::Cluster(TranslateEvent::Partitions(vec![0, 1])));
    let request = match action {
        ReadAction::Lookup { request, wait: Wait::Bounded } => request,
        _ => panic!("expected a bounded lookup"),
    };
    assert_eq!(
        entries(&request),
        vec![
            (String::from("events"), 0, Offset::Offset(1_000)),
            (String::from("events"), 1, Offset::Offset(1_000)),
        ]
    );

    let mut reply = TopicPartitionList::new();
    reply.add_partition_offset("events", 0, Offset::Offset(9)).unwrap();
    reply.add_partition_offset("events", 1, Offset::Offset(3)).unwrap();
    let action = read(&mut session, ReadEvent::Cluster(TranslateEvent::Offsets(reply)));
    let request = match action {
        ReadAction::Lookup { request, wait: Wait::Unbounded } => request,
        _ => panic!("expected an unbounded lookup"),
    };
    assert_eq!(
        entries(&request),
        vec![
            (String::from("events"), 0, Offset::Offset(1_000)),
            (String::from("events"), 1, Offset::Offset(1_000)),
        ]
    );
    assert_eq!(session.phase(), Phase::Translating);

    let mut reply = TopicPartitionList::new();
    reply.add_partition_offset("events", 0, Offset::Offset(10)).unwrap();
    reply.add_partition_offset("events", 1, Offset::Offset(4)).unwrap();
    let action = read(&mut session, ReadEvent::Cluster(TranslateEvent::Offsets(reply)));
    let positions = match action {
        ReadAction::AssignAndSeek { positions } => positions,
        _ => panic!("expected positions"),
    };
    assert_eq!(
        entries(&positions),
        vec![
            (String::from("events"), 0, Offset::Offset(10)),
            (String::from("events"), 1, Offset::Offset(4)),
        ]
    );
    assert_eq!(session.phase(), Phase::Seeking);

    let action = read(&mut session, ReadEvent::Sought(true));
    assert!(matches!(action, ReadAction::FetchWatermarks { partition: 0 }));
    assert_eq!(session.phase(), Phase::Snapshotting);
    let action = read(&mut session, ReadEvent::Watermarks(Some((0, 12))));
    assert!(matches!(action, ReadAction::FetchWatermarks { partition: 1 }));
    let action = read(&mut session, ReadEvent::Watermarks(Some((2, 6))));
    assert!(matches!(action, ReadAction::Fetch));
    assert_eq!(session.phase(), Phase::Polling);

    let mut shown = Vec::new();
    let feed = vec![
        PollEvent::Record(record(0, 10, 1_000)),
        PollEvent::Fault,
        PollEvent::Record(record(1, 4, 1_100)),
        PollEvent::Empty,
        PollEvent::Record(record(1, 5, 1_200)),
        PollEvent::Record(record(0, 11, 1_300)),
    ];
    for event in feed {
        let expected_report = matches!(event, PollEvent::Fault);
        let expected_wait = matches!(event, PollEvent::Empty);
        let action = read(&mut session, ReadEvent::Fetched(event));
        let code = action.exit_code();
        match action {
            ReadAction::Present(record) => {
                assert_eq!(code, None);
                shown.push((record.partition, record.offset));
            }
            ReadAction::Finish(Some(record)) => {
                assert_eq!(code, Some(0));
                shown.push((record.partition, record.offset));
            }
            ReadAction::Report => assert!(expected_report),
            ReadAction::Fetch => assert!(expected_wait),
            _ => panic!("unexpected action"),
        }
    }
    assert_eq!(shown, vec![(0, 10), (1, 4), (1, 5), (0, 11)]);
    assert_eq!(session.phase(), Phase::Ended);
}

#[test]
fn a_replay_from_the_tail_ends_on_a_late_record() {
    let mut p = params(Some("events"));
    p.offset = Some(String::from("-5"));
    let (mut session, _) = ReadSession::begin_at(&p, 2_000);
    let action = read(&mut session, ReadEvent::Cluster(TranslateEvent::Partitions(vec![7])));
    match action {
        ReadAction::AssignAndSeek { positions } => {
            assert_eq!(entries(&positions), vec![(String::from("events"), 7, Offset::OffsetTail(5))])
        }
        _ => panic!("expected positions"),
    }
    read(&mut session, ReadEvent::Sought(true));
    let action = read(&mut session, ReadEvent::Watermarks(Some((0, 100))));
    assert!(matches!(action, ReadAction::Fetch));
    let action = read(&mut session, ReadEvent::Fetched(PollEvent::Record(record(7, 95, 1_999))));
    assert!(matches!(&action, ReadAction::Present(r) if r.offset == 95 && r.partition == 7));
    let action = read(&mut session, ReadEvent::Fetched(PollEvent::Record(record(7, 96, 2_001))));
    assert!(matches!(action, ReadAction::Finish(None)));
    assert_eq!(action.exit_code(), Some(0));
    assert_eq!(session.phase(), Phase::Ended);
    let action = read(&mut session, ReadEvent::Fetched(PollEvent::Record(record(7, 97, 1_000))));
    assert_eq!(aborted_with(&action), Some(ReadError::TranslationFailed));
}

#[test]
fn a_replay_that_fetches_nothing_times_out() {
    let mut p = params(Some("events"));
    p.offset = Some(String::from("1"));
    let (mut session, _) = ReadSession::begin_at(&p, 2_000);
    read(&mut session, ReadEvent::Cluster(TranslateEvent::Partitions(vec![0])));
    read(&mut session, ReadEvent::Sought(true));
    read(&mut session, ReadEvent::Watermarks(Some((0, 0))));
    let action = read(&mut session, ReadEvent::Fetched(PollEvent::Fault));
    assert!(matches!(action, ReadAction::Report));
    let action = read(&mut session, ReadEvent::Fetched(PollEvent::Empty));
    assert_eq!(aborted_with(&action), Some(ReadError::PollTimeout));
    assert_eq!(action.exit_code(), Some(1));
    assert_eq!(session.phase(), Phase::Ended);
}

#[test]
fn failures_on_the_way_end_the_replay() {
    let mut p = params(Some("events"));
    p.offset = Some(String::from("1"));

    let (mut session, _) = ReadSession::begin_at(&p, 2_000);
    let action = read(&mut session, ReadEvent::Cluster(TranslateEvent::MetadataFailed));
    assert_eq!(aborted_with(&action), Some(ReadError::MetadataUnavailable));
    assert_eq!(session.phase(), Phase::Ended);

    let (mut session, _) = ReadSession::begin_at(&p, 2_000);
    let action = read(&mut session, ReadEvent::Cluster(TranslateEvent::Partitions(Vec::new())));
    assert_eq!(aborted_with(&action), Some(ReadError::NoSuchTopic));

    let (mut session, _) = ReadSession::begin_at(&p, 2_000);
    read(&mut session, ReadEvent::Cluster(TranslateEvent::Partitions(vec![0])));
    let action = read(&mut session, ReadEvent::Sought(false));
    assert_eq!(aborted_with(&action), Some(ReadError::TranslationFailed));

    let (mut session, _) = ReadSession::begin_at(&p, 2_000);
    read(&mut session, ReadEvent::Cluster(TranslateEvent::Partitions(vec![0, 1])));
    read(&mut session, ReadEvent::Sought(true));
    read(&mut session, ReadEvent::Watermarks(Some((0, 1))));
    let action = read(&mut session, ReadEvent::Watermarks(None));
    assert_eq!(aborted_with(&action), Some(ReadError::MetadataUnavailable));

    let (mut session, _) = ReadSession::begin_at(&p, 2_000);
    let action = read(&mut session, ReadEvent::Sought(true));
    assert_eq!(aborted_with(&action), Some(ReadError::TranslationFailed));

    let mut by_time = params(Some("events"));
    by_time.start_offset = Some(String::from("1 hour ago"));
    let (mut session, _) = ReadSession::begin_at(&by_time, NOW);
    read(&mut session, ReadEvent::Cluster(TranslateEvent::Partitions(vec![0])));
    let action =
        read(&mut session, ReadEvent::Cluster(TranslateEvent::Offsets(TopicPartitionList::new())));
    assert_eq!(aborted_with(&action), Some(ReadError::NoPartitions));
}

#[test]
fn a_replay_begun_now_reads_the_clock() {
    let mut p = params(Some("events"));
    p.start_offset = Some(String::from("1 hour ago"));
    let (mut session, action, now) = ReadSession::begin(&p);
    assert!(matches!(action, ReadAction::FetchMetadata));
    let end = session.window_end();
    assert!(end > NOW);
    assert_eq!(end, now);
    match read(&mut session, ReadEvent::Cluster(TranslateEvent::Partitions(vec![0]))) {
        ReadAction::Lookup { request, .. } => assert_eq!(
            entries(&request),
            vec![(String::from("events"), 0, Offset::Offset(end - 3_600_000))]
        ),
        _ => panic!("expected a lookup"),
    }
}

#[test]
fn a_refused_parameter_comes_with_the_parsers_words() {
    let mut p = params(Some("events"));
    p.start = Some(String::from("14 November"));
    p.end = Some(String::from("2023-11-14T00:00:00Z"));
    let error = ReadError::InvalidTimestamp(Boundary::Start);
    let reason = reason_for(&p, error, NOW);
    let expected = chrono::DateTime::parse_from_rfc3339("14 November").unwrap_err().to_string();
    assert_eq!(reason, Some(expected.clone()));
    assert_eq!(
        error.explain("events", &reason),
        format!("Invalid start datetime: {}", expected)
    );
    assert_eq!(reason_for(&p, ReadError::InvalidTimestamp(Boundary::End), NOW), None);
    assert_eq!(reason_for(&p, ReadError::InvalidOffset, NOW), None);
    assert_eq!(reason_for(&p, ReadError::InvalidRelativeOffset(Boundary::Start), NOW), None);

    p.start_offset = Some(String::from("a while back"));
    p.end_offset = Some(String::from("1000000 days ago"));
    let reason = reason_for(&p, ReadError::InvalidRelativeOffset(Boundary::Start), NOW);
    assert_eq!(reason, Some(String::from("expected week day or month name")));
    let reason = reason_for(&p, ReadError::InvalidRelativeOffset(Boundary::End), NOW);
    assert_eq!(reason, Some(String::from("expression or present moment not supported")));
    p.end_offset = Some(String::from("1 hour ago"));
    assert_eq!(reason_for(&p, ReadError::InvalidRelativeOffset(Boundary::End), NOW), None);
    assert_eq!(
        reason_for(&p, ReadError::InvalidRelativeOffset(Boundary::End), -1),
        Some(String::from("expression or present moment not supported"))
    );
}
