//! The termination oracle: given the window's end and a snapshot of each
//! partition's watermarks, it judges every record that arrives and keeps
//! track of the partitions that are done.

use vstd::prelude::*;
use crate::record::Record;

verus! {

/// The lowest and highest offsets that a partition reported when the
/// snapshot was taken.
#[derive(Debug, Clone, Copy, PartialEq, Eq, Structural)]
pub struct Watermark {
    pub partition: i32,
    pub low: i64,
    pub high: i64,
}

/// What a record means for the run.
#[derive(Debug, Clone, Copy, PartialEq, Eq, Structural)]
pub enum Verdict {
    /// The record is in the window and its partition has more to give.
    Continue,
    /// The record is in the window and is the last of its partition.
    PartitionDone,
    /// The record lies after the window's end: the whole run is done.
    RunDone,
}

/// The high watermark that the snapshot holds for a partition: that of the
/// first entry for it.
pub open spec fn high_of(snapshot: Seq<Watermark>, partition: i32) -> Option<i64>
    decreases snapshot.len(),
{
    if snapshot.len() == 0 {
        None
    } else if snapshot[0].partition == partition {
        Some(snapshot[0].high)
    } else {
        high_of(snapshot.skip(1), partition)
    }
}

/// Whether the snapshot has an entry for a partition.
pub open spec fn in_snapshot(snapshot: Seq<Watermark>, partition: i32) -> bool {
    exists|i: int| 0 <= i < snapshot.len() && (#[trigger] snapshot[i]).partition == partition
}

/// The judgement on one record. A timestamp strictly after the window's end
/// ends the run, whatever the watermarks say. Otherwise an offset within one
/// position of the partition's high watermark ends that partition.
pub open spec fn verdict_of(end: i64, snapshot: Seq<Watermark>, record: Record) -> Verdict {
    if record.timestamp is Some && record.timestamp->0 > end {
        Verdict::RunDone
    } else if high_of(snapshot, record.partition) is Some && record.offset >= high_of(
        snapshot,
        record.partition,
    )->0 - 1 {
        Verdict::PartitionDone
    } else {
        Verdict::Continue
    }
}

/// Whether every partition of the snapshot is among the done ones.
pub open spec fn all_done(snapshot: Seq<Watermark>, done: Set<i32>) -> bool {
    forall|i: int| 0 <= i < snapshot.len() ==> done.contains((#[trigger] snapshot[i]).partition)
}

/// The done set after a record with the given verdict.
pub open spec fn done_after(done: Set<i32>, verdict: Verdict, partition: i32) -> Set<i32> {
    if verdict == Verdict::PartitionDone {
        done.insert(partition)
    } else {
        done
    }
}

/// What the oracle knows, as mathematics.
pub struct OracleView {
    pub end: i64,
    pub snapshot: Seq<Watermark>,
    pub done: Set<i32>,
}

/// The oracle of one run.
pub struct Oracle {
    end: i64,
    snapshot: Vec<Watermark>,
    /// `flags[i]` says whether the partition of `snapshot[i]` is done.
    flags: Vec<bool>,
}

pub proof fn lemma_high_of_in_snapshot(snapshot: Seq<Watermark>, partition: i32)
    ensures
        high_of(snapshot, partition) is Some <==> in_snapshot(snapshot, partition),
    decreases snapshot.len(),
{
    if snapshot.len() > 0 {
        let rest = snapshot.skip(1);
        lemma_high_of_in_snapshot(rest, partition);
        if snapshot[0].partition != partition {
            if in_snapshot(snapshot, partition) {
                let i = choose|i: int|
                    0 <= i < snapshot.len() && (#[trigger] snapshot[i]).partition == partition;
                assert(rest[i - 1] == snapshot[i]);
            }
            if in_snapshot(rest, partition) {
                let i = choose|i: int|
                    0 <= i < rest.len() && (#[trigger] rest[i]).partition == partition;
                assert(snapshot[i + 1] == rest[i]);
            }
        }
    }
}

impl Oracle {
    /// Whether some flagged entry of the snapshot is for `partition`.
    pub closed spec fn marked(self, partition: i32) -> bool {
        exists|i: int|
            0 <= i < self.snapshot@.len() && (#[trigger] self.snapshot@[i]).partition == partition
                && self.flags@[i]
    }

    /// Entries for one partition carry one flag.
    pub closed spec fn wf(self) -> bool {
        &&& self.flags@.len() == self.snapshot@.len()
        &&& forall|i: int, j: int|
            0 <= i < self.snapshot@.len() && 0 <= j < self.snapshot@.len() && (
            #[trigger] self.snapshot@[i]).partition == (#[trigger] self.snapshot@[j]).partition
                ==> self.flags@[i] == self.flags@[j]
    }

    pub closed spec fn view(self) -> OracleView {
        OracleView {
            end: self.end,
            snapshot: self.snapshot@,
            done: Set::new(|p: i32| self.marked(p)),
        }
    }

    /// An oracle for a window that ends at `end`, with no partition done.
    pub fn new(end: i64, snapshot: Vec<Watermark>) -> (oracle: Oracle)
        ensures
            oracle.wf(),
            oracle@ == (OracleView { end, snapshot: snapshot@, done: Set::empty() }),
    {
        let mut flags: Vec<bool> = Vec::new();
        let mut i: usize = 0;
        while i < snapshot.len()
            invariant
                i <= snapshot.len(),
                flags@.len() == i,
                forall|k: int| 0 <= k < i ==> !flags@[k],
            decreases snapshot.len() - i,
        {
            flags.push(false);
            i = i + 1;
        }
        let oracle = Oracle { end, snapshot, flags };
        assert(oracle@.done =~= Set::<i32>::empty());
        oracle
    }

    /// The end of the window.
    pub fn end(&self) -> (end: i64)
        ensures
            end == self@.end,
    {
        self.end
    }

    /// The snapshot that the oracle judges by.
    pub fn snapshot(&self) -> (snapshot: &Vec<Watermark>)
        ensures
            snapshot@ == self@.snapshot,
    {
        &self.snapshot
    }

    fn high(&self, partition: i32) -> (found: Option<i64>)
        ensures
            found == high_of(self@.snapshot, partition),
    {
        let mut i: usize = 0;
        assert(self.snapshot@.skip(0) == self.snapshot@);
        while i < self.snapshot.len()
            invariant
                i <= self.snapshot.len(),
                high_of(self.snapshot@, partition) == high_of(
                    self.snapshot@.skip(i as int),
                    partition,
                ),
            decreases self.snapshot.len() - i,
        {
            assert(self.snapshot@.skip(i as int)[0] == self.snapshot@[i as int]);
            assert(self.snapshot@.skip(i as int).skip(1) == self.snapshot@.skip(i + 1));
            if self.snapshot[i].partition == partition {
                return Some(self.snapshot[i].high);
            }
            i = i + 1;
        }
        None
    }

    /// Judges a record without recording anything.
    pub fn judge(&self, record: &Record) -> (verdict: Verdict)
        ensures
            verdict == verdict_of(self@.end, self@.snapshot, *record),
    {
        let late = match record.timestamp {
            Some(at) => at > self.end,
            None => false,
        };
        if late {
            return Verdict::RunDone;
        }
        match self.high(record.partition) {
            Some(high) => {
                if high == i64::MIN || record.offset >= high - 1 {
                    Verdict::PartitionDone
                } else {
                    Verdict::Continue
                }
            },
            None => Verdict::Continue,
        }
    }

    /// Judges a record and, where it is the last of its partition, records
    /// that the partition is done.
    pub fn observe(&mut self, record: &Record) -> (verdict: Verdict)
        requires
            old(self).wf(),
        ensures
            final(self).wf(),
            verdict == verdict_of(old(self)@.end, old(self)@.snapshot, *record),
            final(self)@ == (OracleView {
                done: done_after(old(self)@.done, verdict, record.partition),
                ..old(self)@
            }),
    {
        let verdict = self.judge(record);
        if verdict == Verdict::PartitionDone {
            self.mark(record.partition);
        }
        verdict
    }

    fn mark(&mut self, partition: i32)
        requires
            old(self).wf(),
            high_of(old(self)@.snapshot, partition) is Some,
        ensures
            final(self).wf(),
            final(self)@ == (OracleView {
                done: old(self)@.done.insert(partition),
                ..old(self)@
            }),
    {
        let ghost before = *self;
        let ghost entries = self.snapshot@;
        let mut i: usize = 0;
        while i < self.snapshot.len()
            invariant
                i <= self.snapshot.len(),
                self.end == before.end,
                self.snapshot == before.snapshot,
                self.snapshot@ == entries,
                self.flags@.len() == entries.len(),
                before.wf(),
                forall|k: int|
                    0 <= k < i ==> (#[trigger] self.flags@[k]) == (before.flags@[k]
                        || entries[k].partition == partition),
                forall|k: int|
                    i <= k < entries.len() ==> (#[trigger] self.flags@[k]) == before.flags@[k],
            decreases self.snapshot.len() - i,
        {
            if self.snapshot[i].partition == partition {
                self.flags.set(i, true);
            }
            i = i + 1;
        }
        proof {
            lemma_high_of_in_snapshot(before.snapshot@, partition);
            let j = choose|j: int|
                0 <= j < before.snapshot@.len() && (#[trigger] before.snapshot@[j]).partition
                    == partition;
            assert(self.marked(partition)) by {
                assert(self.snapshot@[j].partition == partition && self.flags@[j]);
            }
            assert forall|p: i32| self.marked(p) == (before.marked(p) || p == partition) by {
                if before.marked(p) {
                    let k = choose|k: int|
                        0 <= k < before.snapshot@.len() && (#[trigger] before.snapshot@[k]).partition
                            == p && before.flags@[k];
                    assert(self.snapshot@[k].partition == p && self.flags@[k]);
                }
                if self.marked(p) && p != partition {
                    let k = choose|k: int|
                        0 <= k < self.snapshot@.len() && (#[trigger] self.snapshot@[k]).partition
                            == p && self.flags@[k];
                    assert(before.snapshot@[k].partition == p && before.flags@[k]);
                }
            }
            assert(self@.done =~= before@.done.insert(partition));
        }
    }

    /// Whether a partition has been recorded as done.
    pub fn is_done(&self, partition: i32) -> (done: bool)
        requires
            self.wf(),
        ensures
            done == self@.done.contains(partition),
    {
        let mut i: usize = 0;
        while i < self.snapshot.len()
            invariant
                i <= self.snapshot.len(),
                self.wf(),
                forall|k: int|
                    0 <= k < i ==> !((#[trigger] self.snapshot@[k]).partition == partition
                        && self.flags@[k]),
            decreases self.snapshot.len() - i,
        {
            if self.snapshot[i].partition == partition && self.flags[i] {
                assert(self.marked(partition));
                return true;
            }
            i = i + 1;
        }
        assert(!self.marked(partition));
        false
    }

    /// Whether every partition of the snapshot is done.
    pub fn complete(&self) -> (complete: bool)
        requires
            self.wf(),
        ensures
            complete == all_done(self@.snapshot, self@.done),
    {
        let mut i: usize = 0;
        while i < self.snapshot.len()
            invariant
                i <= self.snapshot.len(),
                self.wf(),
                forall|k: int| 0 <= k < i ==> self.flags@[k],
            decreases self.snapshot.len() - i,
        {
            if !self.flags[i] {
                proof {
                    let p = self.snapshot@[i as int].partition;
                    if self.marked(p) {
                        let k = choose|k: int|
                            0 <= k < self.snapshot@.len() && (#[trigger] self.snapshot@[k]).partition
                                == p && self.flags@[k];
                        assert(self.flags@[k] == self.flags@[i as int]);
                    }
                    assert(!self@.done.contains(self.snapshot@[i as int].partition));
                }
                return false;
            }
            i = i + 1;
        }
        proof {
            assert forall|k: int| 0 <= k < self.snapshot@.len() implies self@.done.contains(
                (#[trigger] self.snapshot@[k]).partition,
            ) by {
                assert(self.snapshot@[k].partition == self.snapshot@[k].partition
                    && self.flags@[k]);
                assert(self.marked(self.snapshot@[k].partition));
            }
        }
        true
    }
}

} // verus!
