//! The report on a cluster's topics.

use vstd::prelude::*;
use vstd::string::StringExecFns;
use crate::common::Verbosity;
use crate::text::{decimal_text, list_text, natural_text, push_decimal, push_list, push_natural};

verus! {

/// One partition of a topic. An error is given by its name.
#[derive(Debug)]
pub struct PartitionInfo {
    pub id: i32,
    pub leader: i32,
    pub replicas: Vec<i32>,
    pub isr: Vec<i32>,
    pub error: Option<String>,
}

/// One topic with its partitions. An error is given by its name.
#[derive(Debug)]
pub struct TopicInfo {
    pub name: String,
    pub error: Option<String>,
    pub partitions: Vec<PartitionInfo>,
}

/// What a cluster tells about itself.
#[derive(Debug)]
pub struct ClusterInfo {
    pub broker_count: usize,
    pub origin_name: String,
    pub origin_id: i32,
    pub topics: Vec<TopicInfo>,
}

/// The integers of a list.
pub open spec fn ints(items: Seq<i32>) -> Seq<int> {
    items.map_values(|x: i32| x as int)
}

/// An optional error name as `None` or `Some(name)`.
pub open spec fn error_text(error: Option<String>) -> Seq<char> {
    match error {
        None => "None"@,
        Some(name) => "Some("@ + name@ + ")"@,
    }
}

/// The line for one partition.
pub open spec fn partition_text(partition: PartitionInfo) -> Seq<char> {
    "    Partition: "@ + decimal_text(partition.id as int) + "  Leader: "@ + decimal_text(
        partition.leader as int,
    ) + "  Replicas: "@ + list_text(ints(partition.replicas@)) + "  ISR: "@ + list_text(
        ints(partition.isr@),
    ) + "  Err: "@ + error_text(partition.error) + "\n"@
}

/// The lines for some partitions, in their order.
pub open spec fn partitions_text(partitions: Seq<PartitionInfo>) -> Seq<char>
    decreases partitions.len(),
{
    if partitions.len() == 0 {
        Seq::empty()
    } else {
        partitions_text(partitions.drop_last()) + partition_text(partitions.last())
    }
}

/// The line for a topic's name, with its error if it has one.
pub open spec fn topic_head_text(topic: TopicInfo) -> Seq<char> {
    "  "@ + topic.name@ + (if topic.error is Some {
        " Err: "@ + error_text(topic.error)
    } else {
        Seq::empty()
    }) + "\n"@
}

/// The lines for one topic: its name, and its partitions where much is to
/// be shown.
pub open spec fn topic_text(topic: TopicInfo, detailed: bool) -> Seq<char> {
    topic_head_text(topic) + (if detailed {
        partitions_text(topic.partitions@)
    } else {
        Seq::empty()
    })
}

/// The lines for some topics, in their order.
pub open spec fn topics_text(topics: Seq<TopicInfo>, detailed: bool) -> Seq<char>
    decreases topics.len(),
{
    if topics.len() == 0 {
        Seq::empty()
    } else {
        topics_text(topics.drop_last(), detailed) + topic_text(topics.last(), detailed)
    }
}

/// The lines on the cluster as a whole.
pub open spec fn cluster_text(info: ClusterInfo) -> Seq<char> {
    "Cluster information:\n  Broker count: "@ + natural_text(info.broker_count as nat)
        + "\n  Topics count: "@ + natural_text(info.topics@.len()) + "\n  Metadata broker name: "@
        + info.origin_name@ + "\n  Metadata broker id: "@ + decimal_text(info.origin_id as int)
        + "\n\n"@
}

/// Whether partitions and cluster details are shown.
pub open spec fn is_detailed(verbosity: Verbosity) -> bool {
    verbosity.rank() >= Verbosity::Loud.rank()
}

/// The whole report: from `Loud` on the cluster's details come first and
/// every topic is followed by its partitions; below that only the topics'
/// names are listed.
pub open spec fn report_text(info: ClusterInfo, verbosity: Verbosity) -> Seq<char> {
    (if is_detailed(verbosity) {
        cluster_text(info)
    } else {
        Seq::empty()
    }) + "\nTopics:\n"@ + topics_text(info.topics@, is_detailed(verbosity))
}

fn push_error(out: &mut String, error: &Option<String>)
    ensures
        final(out)@ == old(out)@ + error_text(*error),
{
    match error {
        None => {
            out.append("None");
        },
        Some(name) => {
            out.append("Some(");
            out.append(name.as_str());
            out.append(")");
            assert(final(out)@ =~= old(out)@ + error_text(*error));
        },
    }
}

fn push_partition(out: &mut String, partition: &PartitionInfo)
    ensures
        final(out)@ == old(out)@ + partition_text(*partition),
{
    out.append("    Partition: ");
    push_decimal(out, partition.id as i64);
    out.append("  Leader: ");
    push_decimal(out, partition.leader as i64);
    out.append("  Replicas: ");
    push_list(out, &partition.replicas);
    out.append("  ISR: ");
    push_list(out, &partition.isr);
    out.append("  Err: ");
    push_error(out, &partition.error);
    out.append("\n");
    assert(final(out)@ =~= old(out)@ + partition_text(*partition));
}

fn push_topic(out: &mut String, topic: &TopicInfo, detailed: bool)
    ensures
        final(out)@ == old(out)@ + topic_text(*topic, detailed),
{
    out.append("  ");
    out.append(topic.name.as_str());
    if topic.error.is_some() {
        out.append(" Err: ");
        push_error(out, &topic.error);
    }
    out.append("\n");
    assert(out@ =~= old(out)@ + topic_head_text(*topic));
    if detailed {
        let ghost head = out@;
        let mut i: usize = 0;
        assert(topic.partitions@.take(0) =~= Seq::<PartitionInfo>::empty());
        while i < topic.partitions.len()
            invariant
                i <= topic.partitions.len(),
                out@ == head + partitions_text(topic.partitions@.take(i as int)),
            decreases topic.partitions.len() - i,
        {
            assert(topic.partitions@.take(i + 1).drop_last() == topic.partitions@.take(i as int));
            assert(topic.partitions@.take(i + 1).last() == topic.partitions@[i as int]);
            push_partition(out, &topic.partitions[i]);
            assert(out@ =~= head + partitions_text(topic.partitions@.take(i + 1)));
            i = i + 1;
        }
        assert(topic.partitions@.take(topic.partitions@.len() as int) == topic.partitions@);
        assert(out@ =~= old(out)@ + topic_text(*topic, detailed));
    } else {
        assert(out@ =~= old(out)@ + topic_text(*topic, detailed));
    }
}

/// Writes the report on a cluster.
pub fn list(info: &ClusterInfo, verbosity: Verbosity) -> (report: String)
    ensures
        report@ == report_text(*info, verbosity),
{
    let detailed = verbosity.level() >= Verbosity::Loud.level();
    let mut out = String::new();
    if detailed {
        out.append("Cluster information:\n  Broker count: ");
        push_natural(&mut out, info.broker_count as u64);
        out.append("\n  Topics count: ");
        push_natural(&mut out, info.topics.len() as u64);
        out.append("\n  Metadata broker name: ");
        out.append(info.origin_name.as_str());
        out.append("\n  Metadata broker id: ");
        push_decimal(&mut out, info.origin_id as i64);
        out.append("\n\n");
        assert(out@ =~= cluster_text(*info));
    }
    out.append("\nTopics:\n");
    let ghost head = out@;
    let mut i: usize = 0;
    assert(info.topics@.take(0) =~= Seq::<TopicInfo>::empty());
    while i < info.topics.len()
        invariant
            i <= info.topics.len(),
            out@ == head + topics_text(info.topics@.take(i as int), detailed),
        decreases info.topics.len() - i,
    {
        assert(info.topics@.take(i + 1).drop_last() == info.topics@.take(i as int));
        assert(info.topics@.take(i + 1).last() == info.topics@[i as int]);
        push_topic(&mut out, &info.topics[i], detailed);
        assert(out@ =~= head + topics_text(info.topics@.take(i + 1), detailed));
        i = i + 1;
    }
    assert(info.topics@.take(info.topics@.len() as int) == info.topics@);
    assert(out@ =~= report_text(*info, verbosity));
    out
}

} // verus!
