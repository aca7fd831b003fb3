use k2::error::ReadError;
use k2::translate::{start_offset, TranslateAction, TranslateEvent, Translator, TranslatorStage, Wait};
use k2::window::{Window, WindowStart};
use rdkafka::topic_partition_list::TopicPartitionList;
use rdkafka::Offset;

fn entries(list: &TopicPartitionList) -> Vec<(String, i32, Offset)> {
    list.elements().iter().map(|e| (e.topic().to_string(), e.partition(), e.offset())).collect()
}

fn window(start: Option<WindowStart>) -> Window {
    Window { start, end: 2_000 }
}

fn failed_with(action: &TranslateAction) -> Option<ReadError> {
    match action {
        TranslateAction::Failed(error) => Some(*error),
        _ => None,
    }
}

#[test]
fn a_window_without_start_is_not_translated() {
    let (translator, action) = Translator::begin("events", &window(None));
    assert_eq!(failed_with(&action), Some(ReadError::MissingStartCondition));
    assert_eq!(translator.stage(), TranslatorStage::Failed);
}

#[test]
fn a_topic_name_with_a_nul_names_no_topic() {
    let (translator, action) = Translator::begin("ev\0ents", &window(Some(WindowStart::Tail(5))));
    assert_eq!(failed_with(&action), Some(ReadError::NoSuchTopic));
    assert_eq!(translator.stage(), TranslatorStage::Failed);
}

#[test]
fn a_topic_without_partitions_does_not_exist() {
    let (mut translator, action) = Translator::begin("events", &window(Some(WindowStart::Tail(5))));
    assert!(matches!(action, TranslateAction::FetchMetadata));
    assert_eq!(translator.topic(), "events");
    assert_eq!(translator.stage(), TranslatorStage::AwaitingMetadata);
    let action = translator.step(TranslateEvent::Partitions(Vec::new()));
    assert_eq!(failed_with(&action), Some(ReadError::NoSuchTopic));
    assert_eq!(translator.stage(), TranslatorStage::Failed);
}

#[test]
fn metadata_failure_is_fatal() {
    let (mut translator, _) = Translator::begin("events", &window(Some(WindowStart::Absolute(1))));
    let action = translator.step(TranslateEvent::MetadataFailed);
    assert_eq!(failed_with(&action), Some(ReadError::MetadataUnavailable));
}

#[test]
fn a_start_before_the_tail_needs_no_lookup() {
    for (literal, count) in [(10, 10), (-10, 10), (1, 1), (-1, 1)] {
        let (mut translator, _) =
            Translator::begin("events", &window(Some(WindowStart::Tail(literal))));
        let action = translator.step(TranslateEvent::Partitions(vec![0, 1, 2]));
        match action {
            TranslateAction::Assigned(list) => assert_eq!(
                entries(&list),
                vec![
                    (String::from("events"), 0, Offset::OffsetTail(count)),
                    (String::from("events"), 1, Offset::OffsetTail(count)),
                    (String::from("events"), 2, Offset::OffsetTail(count)),
                ]
            ),
            _ => panic!("expected an assignment"),
        }
        assert_eq!(translator.stage(), TranslatorStage::Done);
    }
}

#[test]
fn a_tail_count_that_cannot_be_encoded_is_fatal() {
    for literal in [0, i64::MIN, i64::MAX, i64::MAX - 1998, -(i64::MAX - 1998)] {
        let (mut translator, _) =
            Translator::begin("events", &window(Some(WindowStart::Tail(literal))));
        let action = translator.step(TranslateEvent::Partitions(vec![0]));
        assert_eq!(failed_with(&action), Some(ReadError::TranslationFailed));
    }
    assert_eq!(
        start_offset(&Some(WindowStart::Tail(i64::MAX - 1999))),
        Some(Offset::OffsetTail(i64::MAX - 1999))
    );
    assert_eq!(
        start_offset(&Some(WindowStart::Tail(-(i64::MAX - 1999)))),
        Some(Offset::OffsetTail(i64::MAX - 1999))
    );
    let (mut translator, _) =
        Translator::begin("events", &window(Some(WindowStart::Tail(i64::MAX - 1999))));
    match translator.step(TranslateEvent::Partitions(vec![4])) {
        TranslateAction::Assigned(list) => assert_eq!(
            entries(&list),
            vec![(String::from("events"), 4, Offset::OffsetTail(i64::MAX - 1999))]
        ),
        _ => panic!("expected an assignment"),
    }
}

#[test]
fn a_start_before_the_epoch_is_fatal() {
    let (mut translator, _) = Translator::begin("events", &window(Some(WindowStart::Absolute(-1))));
    let action = translator.step(TranslateEvent::Partitions(vec![0]));
    assert_eq!(failed_with(&action), Some(ReadError::TranslationFailed));
    assert_eq!(start_offset(&Some(WindowStart::Relative(-5))), None);
    assert_eq!(start_offset(&Some(WindowStart::Relative(0))), Some(Offset::Offset(0)));
    assert_eq!(start_offset(&None), None);
}

#[test]
fn a_start_by_time_is_looked_up_twice() {
    for start in [WindowStart::Absolute(1_500), WindowStart::Relative(1_500)] {
        let (mut translator, _) = Translator::begin("events", &window(Some(start)));
        let first = translator.step(TranslateEvent::Partitions(vec![3, 1]));
        let request = match first {
            TranslateAction::Lookup { request, wait } => {
                assert_eq!(wait, Wait::Bounded);
                request
            }
            _ => panic!("expected a lookup"),
        };
        assert_eq!(
            entries(&request),
            vec![
                (String::from("events"), 3, Offset::Offset(1_500)),
                (String::from("events"), 1, Offset::Offset(1_500)),
            ]
        );
        assert_eq!(translator.stage(), TranslatorStage::AwaitingFirstLookup);

        // The cluster answers with provisional offsets.
        let mut reply = TopicPartitionList::new();
        reply.add_partition_offset("events", 3, Offset::Offset(40)).unwrap();
        reply.add_partition_offset("events", 1, Offset::End).unwrap();
        let second = translator.step(TranslateEvent::Offsets(reply));
        let request = match second {
            TranslateAction::Lookup { request, wait } => {
                assert_eq!(wait, Wait::Unbounded);
                request
            }
            _ => panic!("expected a second lookup"),
        };
        assert_eq!(
            entries(&request),
            vec![
                (String::from("events"), 3, Offset::Offset(1_500)),
                (String::from("events"), 1, Offset::Offset(1_500)),
            ]
        );
        assert_eq!(translator.stage(), TranslatorStage::AwaitingSecondLookup);

        let mut reply = TopicPartitionList::new();
        reply.add_partition_offset("events", 3, Offset::Offset(42)).unwrap();
        reply.add_partition_offset("events", 1, Offset::Offset(17)).unwrap();
        match translator.step(TranslateEvent::Offsets(reply)) {
            TranslateAction::Assigned(list) => assert_eq!(
                entries(&list),
                vec![
                    (String::from("events"), 3, Offset::Offset(42)),
                    (String::from("events"), 1, Offset::Offset(17)),
                ]
            ),
            _ => panic!("expected an assignment"),
        }
        assert_eq!(translator.stage(), TranslatorStage::Done);
    }
}

#[test]
fn a_failed_lookup_is_fatal() {
    let (mut translator, _) = Translator::begin("events", &window(Some(WindowStart::Absolute(5))));
    translator.step(TranslateEvent::Partitions(vec![0]));
    let action = translator.step(TranslateEvent::LookupFailed);
    assert_eq!(failed_with(&action), Some(ReadError::TranslationFailed));

    let (mut translator, _) = Translator::begin("events", &window(Some(WindowStart::Absolute(5))));
    translator.step(TranslateEvent::Partitions(vec![0]));
    let mut reply = TopicPartitionList::new();
    reply.add_partition_offset("events", 0, Offset::Offset(1)).unwrap();
    translator.step(TranslateEvent::Offsets(reply));
    let action = translator.step(TranslateEvent::LookupFailed);
    assert_eq!(failed_with(&action), Some(ReadError::TranslationFailed));
    assert_eq!(translator.stage(), TranslatorStage::Failed);
}

#[test]
fn an_answer_without_partitions_leaves_nothing_to_read() {
    let (mut translator, _) = Translator::begin("events", &window(Some(WindowStart::Absolute(5))));
    translator.step(TranslateEvent::Partitions(vec![0]));
    let action = translator.step(TranslateEvent::Offsets(TopicPartitionList::new()));
    assert_eq!(failed_with(&action), Some(ReadError::NoPartitions));

    let (mut translator, _) = Translator::begin("events", &window(Some(WindowStart::Absolute(5))));
    translator.step(TranslateEvent::Partitions(vec![0]));
    let mut reply = TopicPartitionList::new();
    reply.add_partition_offset("events", 0, Offset::Offset(1)).unwrap();
    translator.step(TranslateEvent::Offsets(reply));
    let action = translator.step(TranslateEvent::Offsets(TopicPartitionList::new()));
    assert_eq!(failed_with(&action), Some(ReadError::NoPartitions));
}

#[test]
fn an_answer_that_was_not_asked_for_is_fatal() {
    let (mut translator, _) = Translator::begin("events", &window(Some(WindowStart::Absolute(5))));
    let action = translator.step(TranslateEvent::LookupFailed);
    assert_eq!(failed_with(&action), Some(ReadError::TranslationFailed));
    let action = translator.step(TranslateEvent::Partitions(vec![0]));
    assert_eq!(failed_with(&action), Some(ReadError::TranslationFailed));

    let (mut translator, _) = Translator::begin("events", &window(Some(WindowStart::Tail(5))));
    translator.step(TranslateEvent::Partitions(vec![0]));
    assert_eq!(translator.stage(), TranslatorStage::Done);
    let action = translator.step(TranslateEvent::Partitions(vec![0]));
    assert_eq!(failed_with(&action), Some(ReadError::TranslationFailed));
}
