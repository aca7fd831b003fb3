//! The offset translator: from a window's start to a starting offset for
//! every partition of the topic. The cluster is asked by the caller; the
//! translator says what to ask and what to make of each answer.

use vstd::prelude::*;
use vstd::string::StringExecFns;
use rdkafka::topic_partition_list::TopicPartitionList;
use rdkafka::Offset;
use crate::error::ReadError;
use crate::partitions::{
    append_partition,
    empty_list,
    entries_for,
    list_entries,
    list_len,
    set_offsets,
    with_offset,
    MAX_LIST_LEN,
    MAX_TAIL_COUNT,
};
use crate::text::contains_char;
use crate::window::{Window, WindowStart};

verus! {

/// How long the caller waits for the answer to a lookup.
#[derive(Debug, Clone, Copy, PartialEq, Eq, Structural)]
pub enum Wait {
    /// No longer than the timeout that the user chose.
    Bounded,
    /// Until the answer arrives.
    Unbounded,
}

/// Where a translation stands.
#[derive(Debug, Clone, Copy, PartialEq, Eq, Structural)]
pub enum TranslatorStage {
    AwaitingMetadata,
    AwaitingFirstLookup,
    AwaitingSecondLookup,
    Done,
    Failed,
}

/// An answer of the cluster.
#[derive(Debug)]
pub enum TranslateEvent {
    /// The topic's metadata could not be fetched.
    MetadataFailed,
    /// The topic's metadata: the ids of its partitions.
    Partitions(Vec<i32>),
    /// A lookup of offsets by time failed.
    LookupFailed,
    /// A lookup of offsets by time was answered with this list.
    Offsets(TopicPartitionList),
}

/// What the caller does next.
#[derive(Debug)]
pub enum TranslateAction {
    /// Fetch the topic's metadata.
    FetchMetadata,
    /// Ask the cluster to turn the timestamps of `request` into offsets.
    Lookup { request: TopicPartitionList, wait: Wait },
    /// The translation is done: these are the starting positions.
    Assigned(TopicPartitionList),
    /// The translation is abandoned.
    Failed(ReadError),
}

/// An answer of the cluster, as mathematics.
pub enum AnswerView {
    MetadataFailed,
    Partitions(Seq<i32>),
    LookupFailed,
    Offsets(Seq<(Seq<char>, i32, Offset)>),
}

/// What the caller does next, as mathematics.
pub enum Directive {
    FetchMetadata,
    Lookup { entries: Seq<(Seq<char>, i32, Offset)>, wait: Wait },
    Assigned(Seq<(Seq<char>, i32, Offset)>),
    Failed(ReadError),
}

impl TranslateEvent {
    pub open spec fn view(self) -> AnswerView {
        match self {
            TranslateEvent::MetadataFailed => AnswerView::MetadataFailed,
            TranslateEvent::Partitions(ids) => AnswerView::Partitions(ids@),
            TranslateEvent::LookupFailed => AnswerView::LookupFailed,
            TranslateEvent::Offsets(list) => AnswerView::Offsets(list_entries(list)),
        }
    }
}

impl TranslateAction {
    pub open spec fn view(self) -> Directive {
        match self {
            TranslateAction::FetchMetadata => Directive::FetchMetadata,
            TranslateAction::Lookup { request, wait } => Directive::Lookup {
                entries: list_entries(request),
                wait,
            },
            TranslateAction::Assigned(list) => Directive::Assigned(list_entries(list)),
            TranslateAction::Failed(error) => Directive::Failed(error),
        }
    }
}

/// The state of a translation, as mathematics.
pub struct TranslatorView {
    pub topic: Seq<char>,
    pub start: Option<WindowStart>,
    pub stage: TranslatorStage,
}

/// How many records before the tail a literal offset stands for: its
/// magnitude. Zero stands for none, and a magnitude above
/// [`MAX_TAIL_COUNT`] cannot be handed to the cluster.
pub open spec fn tail_distance(literal: i64) -> Option<i64> {
    if 0 < literal <= MAX_TAIL_COUNT {
        Some(literal)
    } else if -MAX_TAIL_COUNT <= literal < 0 {
        Some((-literal) as i64)
    } else {
        None
    }
}

/// Whether the start is an instant rather than a count before the tail.
pub open spec fn is_timed(start: Option<WindowStart>) -> bool {
    start is Some && !(start->0 is Tail)
}

/// The offset that is written into every partition's entry: the start
/// instant where the window starts at one, the count before the tail where
/// it starts there. An instant before the epoch has no such offset.
pub open spec fn starting_offset(start: Option<WindowStart>) -> Option<Offset> {
    match start {
        Some(WindowStart::Absolute(at)) | Some(WindowStart::Relative(at)) => if at >= 0 {
            Some(Offset::Offset(at))
        } else {
            None
        },
        Some(WindowStart::Tail(literal)) => match tail_distance(literal) {
            Some(count) => Some(Offset::OffsetTail(count)),
            None => None,
        },
        None => None,
    }
}

/// How a translation begins: without a start there is nothing to translate,
/// and a topic whose name holds a NUL character cannot exist; otherwise the
/// topic's metadata is fetched.
pub open spec fn begin_of(topic: Seq<char>, window: Window) -> (TranslatorView, Directive) {
    if window.start is None {
        (
            TranslatorView { topic, start: window.start, stage: TranslatorStage::Failed },
            Directive::Failed(ReadError::MissingStartCondition),
        )
    } else if topic.contains('\0') {
        (
            TranslatorView { topic, start: window.start, stage: TranslatorStage::Failed },
            Directive::Failed(ReadError::NoSuchTopic),
        )
    } else {
        (
            TranslatorView { topic, start: window.start, stage: TranslatorStage::AwaitingMetadata },
            Directive::FetchMetadata,
        )
    }
}

pub open spec fn fails(state: TranslatorView, error: ReadError) -> (TranslatorView, Directive) {
    (TranslatorView { stage: TranslatorStage::Failed, ..state }, Directive::Failed(error))
}

/// One step of a translation.
///
/// - Metadata: a topic without partitions does not exist, and more
///   partitions than a list can take cannot be translated. For a start by
///   time, every partition is entered with the start instant and the list
///   is sent for a first lookup, with a bounded wait. For a start before
///   the tail, every partition is entered with the count and the
///   translation is done, with no lookup at all.
/// - The first lookup's answer is not accepted: the start instant is
///   written into it again and it is sent a second time, now with an
///   unbounded wait.
/// - The second lookup's answer is the result.
/// - Every failure, and every answer that was not asked for, ends the
///   translation.
pub open spec fn translate_of(state: TranslatorView, answer: AnswerView) -> (
    TranslatorView,
    Directive,
) {
    match (state.stage, answer) {
        (TranslatorStage::AwaitingMetadata, AnswerView::MetadataFailed) => fails(
            state,
            ReadError::MetadataUnavailable,
        ),
        (TranslatorStage::AwaitingMetadata, AnswerView::Partitions(ids)) => if ids.len() == 0 {
            fails(state, ReadError::NoSuchTopic)
        } else if state.topic.contains('\0') {
            fails(state, ReadError::NoSuchTopic)
        } else if ids.len() > MAX_LIST_LEN {
            fails(state, ReadError::TranslationFailed)
        } else {
            match starting_offset(state.start) {
                None => fails(state, ReadError::TranslationFailed),
                Some(offset) => if is_timed(state.start) {
                    (
                        TranslatorView { stage: TranslatorStage::AwaitingFirstLookup, ..state },
                        Directive::Lookup {
                            entries: entries_for(state.topic, ids, offset),
                            wait: Wait::Bounded,
                        },
                    )
                } else {
                    (
                        TranslatorView { stage: TranslatorStage::Done, ..state },
                        Directive::Assigned(entries_for(state.topic, ids, offset)),
                    )
                },
            }
        },
        (TranslatorStage::AwaitingFirstLookup, AnswerView::LookupFailed) => fails(
            state,
            ReadError::TranslationFailed,
        ),
        (TranslatorStage::AwaitingFirstLookup, AnswerView::Offsets(reply)) => if reply.len() == 0 {
            fails(state, ReadError::NoPartitions)
        } else if is_timed(state.start) && starting_offset(state.start) is Some {
            (
                TranslatorView { stage: TranslatorStage::AwaitingSecondLookup, ..state },
                Directive::Lookup {
                    entries: with_offset(reply, starting_offset(state.start)->0),
                    wait: Wait::Unbounded,
                },
            )
        } else {
            fails(state, ReadError::TranslationFailed)
        },
        (TranslatorStage::AwaitingSecondLookup, AnswerView::LookupFailed) => fails(
            state,
            ReadError::TranslationFailed,
        ),
        (TranslatorStage::AwaitingSecondLookup, AnswerView::Offsets(reply)) => if reply.len()
            == 0 {
            fails(state, ReadError::NoPartitions)
        } else {
            (TranslatorView { stage: TranslatorStage::Done, ..state }, Directive::Assigned(reply))
        },
        _ => fails(state, ReadError::TranslationFailed),
    }
}

/// Executable form of [`starting_offset`].
pub fn start_offset(start: &Option<WindowStart>) -> (offset: Option<Offset>)
    ensures
        offset == starting_offset(*start),
{
    match start {
        Some(WindowStart::Absolute(at)) | Some(WindowStart::Relative(at)) => {
            if *at >= 0 {
                Some(Offset::Offset(*at))
            } else {
                None
            }
        },
        Some(WindowStart::Tail(literal)) => {
            let literal: i64 = *literal;
            if 0 < literal && literal <= MAX_TAIL_COUNT {
                Some(Offset::OffsetTail(literal))
            } else if -MAX_TAIL_COUNT <= literal && literal < 0 {
                Some(Offset::OffsetTail(-literal))
            } else {
                None
            }
        },
        None => None,
    }
}

/// A list that names the given partitions of a topic, every one at the
/// given offset.
fn request_for(topic: &str, ids: &Vec<i32>, offset: Offset) -> (list: TopicPartitionList)
    requires
        !topic@.contains('\0'),
        ids@.len() <= MAX_LIST_LEN,
        encodable_start(offset),
    ensures
        list_entries(list) == entries_for(topic@, ids@, offset),
{
    let mut list = empty_list(ids.len());
    let mut i: usize = 0;
    while i < ids.len()
        invariant
            i <= ids.len(),
            ids@.len() <= MAX_LIST_LEN,
            !topic@.contains('\0'),
            list_entries(list) == entries_for(topic@, ids@.take(i as int), Offset::Invalid),
        decreases ids.len() - i,
    {
        append_partition(&mut list, topic, ids[i]);
        assert(entries_for(topic@, ids@.take(i as int), Offset::Invalid).push(
            (topic@, ids@[i as int], Offset::Invalid),
        ) == entries_for(topic@, ids@.take(i + 1), Offset::Invalid));
        i = i + 1;
    }
    assert(ids@.take(ids@.len() as int) == ids@);
    let set = set_offsets(&mut list, offset);
    assert(set is Ok);
    assert(with_offset(entries_for(topic@, ids@, Offset::Invalid), offset) == entries_for(
        topic@,
        ids@,
        offset,
    ));
    list
}

/// The offsets that [`starting_offset`] gives: they can be encoded, and
/// a count before the tail is within the limit.
pub open spec fn encodable_start(offset: Offset) -> bool {
    match offset {
        Offset::Offset(position) => position >= 0,
        Offset::OffsetTail(count) => 0 < count <= MAX_TAIL_COUNT,
        _ => false,
    }
}

/// An offset translation in progress.
pub struct Translator {
    topic: String,
    start: Option<WindowStart>,
    stage: TranslatorStage,
}

impl Translator {
    pub closed spec fn view(self) -> TranslatorView {
        TranslatorView { topic: self.topic@, start: self.start, stage: self.stage }
    }

    /// Begins the translation of a window's start for a topic.
    pub fn begin(topic: &str, window: &Window) -> (begun: (Translator, TranslateAction))
        ensures
            (begun.0@, begun.1@) == begin_of(topic@, *window),
    {
        let name = String::from_str(topic);
        if window.start.is_none() {
            (
                Translator { topic: name, start: window.start, stage: TranslatorStage::Failed },
                TranslateAction::Failed(ReadError::MissingStartCondition),
            )
        } else if contains_char(topic, '\0') {
            (
                Translator { topic: name, start: window.start, stage: TranslatorStage::Failed },
                TranslateAction::Failed(ReadError::NoSuchTopic),
            )
        } else {
            (
                Translator {
                    topic: name,
                    start: window.start,
                    stage: TranslatorStage::AwaitingMetadata,
                },
                TranslateAction::FetchMetadata,
            )
        }
    }

    /// Where the translation stands.
    pub fn stage(&self) -> (stage: TranslatorStage)
        ensures
            stage == self@.stage,
    {
        self.stage
    }

    /// The topic that is translated for.
    pub fn topic(&self) -> (topic: &str)
        ensures
            topic@ == self@.topic,
    {
        self.topic.as_str()
    }

    fn fail(&mut self, error: ReadError) -> (action: TranslateAction)
        ensures
            (final(self)@, action@) == fails(old(self)@, error),
    {
        self.stage = TranslatorStage::Failed;
        TranslateAction::Failed(error)
    }

    /// Takes an answer of the cluster and says what to do next.
    pub fn step(&mut self, event: TranslateEvent) -> (action: TranslateAction)
        ensures
            (final(self)@, action@) == translate_of(old(self)@, event@),
    {
        match (self.stage, event) {
            (TranslatorStage::AwaitingMetadata, TranslateEvent::MetadataFailed) => self.fail(
                ReadError::MetadataUnavailable,
            ),
            (TranslatorStage::AwaitingMetadata, TranslateEvent::Partitions(ids)) => {
                if ids.len() == 0 {
                    return self.fail(ReadError::NoSuchTopic);
                }
                if contains_char(self.topic.as_str(), '\0') {
                    return self.fail(ReadError::NoSuchTopic);
                }
                if ids.len() > MAX_LIST_LEN {
                    return self.fail(ReadError::TranslationFailed);
                }
                match start_offset(&self.start) {
                    None => self.fail(ReadError::TranslationFailed),
                    Some(offset) => {
                        let list = request_for(self.topic.as_str(), &ids, offset);
                        let timed = match self.start {
                            Some(WindowStart::Tail(_)) => false,
                            _ => true,
                        };
                        if timed {
                            self.stage = TranslatorStage::AwaitingFirstLookup;
                            TranslateAction::Lookup { request: list, wait: Wait::Bounded }
                        } else {
                            self.stage = TranslatorStage::Done;
                            TranslateAction::Assigned(list)
                        }
                    },
                }
            },
            (TranslatorStage::AwaitingFirstLookup, TranslateEvent::LookupFailed) => self.fail(
                ReadError::TranslationFailed,
            ),
            (TranslatorStage::AwaitingFirstLookup, TranslateEvent::Offsets(reply)) => {
                if list_len(&reply) == 0 {
                    return self.fail(ReadError::NoPartitions);
                }
                let timed = match self.start {
                    Some(WindowStart::Tail(_)) | None => false,
                    _ => true,
                };
                match start_offset(&self.start) {
                    Some(offset) => {
                        if !timed {
                            return self.fail(ReadError::TranslationFailed);
                        }
                        let mut request = reply;
                        let set = set_offsets(&mut request, offset);
                        assert(set is Ok);
                        self.stage = TranslatorStage::AwaitingSecondLookup;
                        TranslateAction::Lookup { request, wait: Wait::Unbounded }
                    },
                    None => self.fail(ReadError::TranslationFailed),
                }
            },
            (TranslatorStage::AwaitingSecondLookup, TranslateEvent::LookupFailed) => self.fail(
                ReadError::TranslationFailed,
            ),
            (TranslatorStage::AwaitingSecondLookup, TranslateEvent::Offsets(reply)) => {
                if list_len(&reply) == 0 {
                    return self.fail(ReadError::NoPartitions);
                }
                self.stage = TranslatorStage::Done;
                TranslateAction::Assigned(reply)
            },
            _ => self.fail(ReadError::TranslationFailed),
        }
    }
}

/// Where the cluster answers the first lookup with the partitions it was
/// asked about, the second request is the first one over again.
pub proof fn lemma_second_request_repeats_first(
    state: TranslatorView,
    ids: Seq<i32>,
    reply: Seq<(Seq<char>, i32, Offset)>,
)
    requires
        state.stage == TranslatorStage::AwaitingMetadata,
        translate_of(state, AnswerView::Partitions(ids)).1 is Lookup,
        reply.len() == ids.len(),
        forall|i: int|
            0 <= i < ids.len() ==> (#[trigger] reply[i]).0 == state.topic && reply[i].1 == ids[i],
    ensures
        ({
            let first = translate_of(state, AnswerView::Partitions(ids));
            let second = translate_of(first.0, AnswerView::Offsets(reply));
            &&& first.1->Lookup_wait == Wait::Bounded
            &&& second.1 is Lookup
            &&& second.1->Lookup_wait == Wait::Unbounded
            &&& second.1->Lookup_entries == first.1->Lookup_entries
        }),
{
    let first = translate_of(state, AnswerView::Partitions(ids));
    let second = translate_of(first.0, AnswerView::Offsets(reply));
    assert(second.1->Lookup_entries =~= first.1->Lookup_entries);
}

/// A start by time makes the translator ask the cluster twice and hand on
/// what the second answer holds; a start before the tail makes it ask for
/// nothing but the metadata.
pub proof fn lemma_translation_rounds(
    state: TranslatorView,
    ids: Seq<i32>,
    first_reply: Seq<(Seq<char>, i32, Offset)>,
    second_reply: Seq<(Seq<char>, i32, Offset)>,
)
    requires
        state.stage == TranslatorStage::AwaitingMetadata,
        !state.topic.contains('\0'),
        0 < ids.len() <= MAX_LIST_LEN,
        first_reply.len() > 0,
        second_reply.len() > 0,
        starting_offset(state.start) is Some,
    ensures
        ({
            let first = translate_of(state, AnswerView::Partitions(ids));
            let second = translate_of(first.0, AnswerView::Offsets(first_reply));
            let third = translate_of(second.0, AnswerView::Offsets(second_reply));
            if is_timed(state.start) {
                &&& first.1 is Lookup
                &&& second.1 is Lookup
                &&& third.1 == Directive::Assigned(second_reply)
                &&& third.0.stage == TranslatorStage::Done
            } else {
                &&& first.1 == Directive::Assigned(
                    entries_for(state.topic, ids, starting_offset(state.start)->0),
                )
                &&& first.0.stage == TranslatorStage::Done
            }
        }),
{
}

} // verus!
