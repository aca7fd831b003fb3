//! The client's list of topic partitions with their offsets, and what the
//! translator relies on of it.

use vstd::prelude::*;
use rdkafka::error::KafkaError;
use rdkafka::topic_partition_list::TopicPartitionList;
use rdkafka::Offset;

verus! {

/// The client's list of topic partitions. What it holds is spoken of
/// through [`list_entries`].
#[verifier::external_type_specification]
#[verifier::external_body]
pub struct ExTopicPartitionList(TopicPartitionList);

/// The client's offsets, with the variants that the client declares.
#[verifier::external_type_specification]
pub struct ExOffset(Offset);

/// The client's error. It is only ever passed on or dropped.
#[verifier::external_type_specification]
#[verifier::external_body]
pub struct ExKafkaError(KafkaError);

/// The elements of a list in their order: topic, partition, and the offset
/// as the element's `offset()` reports it.
pub uninterp spec fn list_entries(list: TopicPartitionList) -> Seq<(Seq<char>, i32, Offset)>;

/// Largest count that an offset relative to the tail can carry: the client
/// encodes such an offset as -2000 minus the count.
pub const MAX_TAIL_COUNT: i64 = 0x7fff_ffff_ffff_f830;

/// Most elements that a list can take: the client counts them in 32 bits.
pub const MAX_LIST_LEN: usize = 0x7fff_ffff;

/// The offsets that the client can encode: a position is not negative, and a
/// count before the tail is positive.
pub open spec fn encodable(offset: Offset) -> bool {
    match offset {
        Offset::Offset(position) => position >= 0,
        Offset::OffsetTail(count) => count > 0,
        _ => true,
    }
}

/// The entries of a list after every offset has been replaced.
pub open spec fn with_offset(entries: Seq<(Seq<char>, i32, Offset)>, offset: Offset) -> Seq<
    (Seq<char>, i32, Offset),
> {
    Seq::new(entries.len(), |i: int| (entries[i].0, entries[i].1, offset))
}

/// The entries of a list that names the given partitions of one topic, all
/// at the same offset.
pub open spec fn entries_for(topic: Seq<char>, partitions: Seq<i32>, offset: Offset) -> Seq<
    (Seq<char>, i32, Offset),
> {
    Seq::new(partitions.len(), |i: int| (topic, partitions[i], offset))
}

/// Trusted: `TopicPartitionList::with_capacity`. The new list has no
/// element; the capacity only reserves room.
#[verifier::external_body]
pub(crate) fn empty_list(capacity: usize) -> (list: TopicPartitionList)
    ensures
        list_entries(list) == Seq::<(Seq<char>, i32, Offset)>::empty(),
{
    TopicPartitionList::with_capacity(capacity)
}

/// Trusted: `TopicPartitionList::count`, the number of elements.
#[verifier::external_body]
pub(crate) fn list_len(list: &TopicPartitionList) -> (count: usize)
    ensures
        count == list_entries(*list).len(),
{
    list.count()
}

/// Trusted: `TopicPartitionList::add_partition`. It appends one element for
/// the topic and partition, with the offset `Invalid`, and leaves the others
/// as they are. It panics on a topic name that holds a NUL character, and a
/// list that is full cannot grow.
#[verifier::external_body]
pub(crate) fn append_partition(list: &mut TopicPartitionList, topic: &str, partition: i32)
    requires
        !topic@.contains('\0'),
        list_entries(*old(list)).len() < MAX_LIST_LEN,
    ensures
        list_entries(*final(list)) == list_entries(*old(list)).push(
            (topic@, partition, Offset::Invalid),
        ),
{
    list.add_partition(topic, partition);
}

/// Trusted: `TopicPartitionList::set_all_offsets`. On a list without
/// elements it succeeds and changes nothing. Otherwise it succeeds exactly
/// for an offset that can be encoded, and then every element carries that
/// offset; on failure no element is changed. A count before the tail above
/// [`MAX_TAIL_COUNT`] would overflow the encoding and is kept out.
#[verifier::external_body]
pub(crate) fn set_offsets(list: &mut TopicPartitionList, offset: Offset) -> (set: Result<
    (),
    KafkaError,
>)
    requires
        offset matches Offset::OffsetTail(count) ==> count <= MAX_TAIL_COUNT,
    ensures
        set is Ok <==> list_entries(*old(list)).len() == 0 || encodable(offset),
        set is Ok ==> list_entries(*final(list)) == with_offset(list_entries(*old(list)), offset),
        set is Err ==> list_entries(*final(list)) == list_entries(*old(list)),
{
    list.set_all_offsets(offset)
}

/// Trusted: `TopicPartitionList::elements`, with each element's
/// `partition()` and `offset()`. The pairs come in the order of the
/// elements.
#[verifier::external_body]
pub(crate) fn list_positions(list: &TopicPartitionList) -> (positions: Vec<(i32, Offset)>)
    ensures
        positions@.len() == list_entries(*list).len(),
        forall|i: int|
            0 <= i < positions@.len() ==> (#[trigger] positions@[i]) == (
                list_entries(*list)[i].1,
                list_entries(*list)[i].2,
            ),
{
    list.elements().iter().map(|e| (e.partition(), e.offset())).collect()
}

} // verus!
