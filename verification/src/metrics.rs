//! Transfer accounting: one (byte count, elapsed time) record per finished
//! entry, and their running totals across the session. Metrics are purely
//! observational — recording them never affects control flow — and live only
//! for the run, feeding the summary the binary logs at session close.

use vstd::prelude::*;

verus! {

/// What one entry's transfer cost: how many bytes it carried and how long
/// the caller measured the transfer to take, in milliseconds.
#[derive(Clone, Copy, Debug, PartialEq, Eq, Structural)]
pub struct EntryMetric {
    pub bytes: u64,
    pub elapsed_ms: u64,
}

/// The bytes of a sequence of per-entry records, summed.
pub open spec fn sum_bytes(s: Seq<EntryMetric>) -> int
    decreases s.len(),
{
    if s.len() == 0 {
        0
    } else {
        sum_bytes(s.drop_last()) + s.last().bytes
    }
}

/// The elapsed milliseconds of a sequence of per-entry records, summed.
pub open spec fn sum_elapsed(s: Seq<EntryMetric>) -> int
    decreases s.len(),
{
    if s.len() == 0 {
        0
    } else {
        sum_elapsed(s.drop_last()) + s.last().elapsed_ms
    }
}

/// The metrics' abstract state: the per-entry records in the order they were
/// made, and the two running totals.
pub struct MetricsView {
    pub entries: Seq<EntryMetric>,
    pub total_bytes: u64,
    pub total_elapsed_ms: u64,
}

impl MetricsView {
    /// The totals are exactly the sums of the per-entry records.
    pub open spec fn wf(self) -> bool {
        &&& self.total_bytes == sum_bytes(self.entries)
        &&& self.total_elapsed_ms == sum_elapsed(self.entries)
    }
}

/// Per-entry transfer records and their aggregate, created empty at session
/// start and updated once per finished entry.
pub struct TransferMetrics {
    entries: Vec<EntryMetric>,
    total_bytes: u64,
    total_elapsed_ms: u64,
}

impl View for TransferMetrics {
    type V = MetricsView;

    closed spec fn view(&self) -> MetricsView {
        MetricsView {
            entries: self.entries@,
            total_bytes: self.total_bytes,
            total_elapsed_ms: self.total_elapsed_ms,
        }
    }
}

impl TransferMetrics {
    /// Fresh metrics: no records, zero totals.
    pub fn new() -> (m: Self)
        ensures
            m@.entries == Seq::<EntryMetric>::empty(),
            m@.total_bytes == 0,
            m@.total_elapsed_ms == 0,
            m@.wf(),
    {
        let m = TransferMetrics { entries: Vec::new(), total_bytes: 0, total_elapsed_ms: 0 };
        proof {
            assert(m@.entries =~= Seq::<EntryMetric>::empty());
        }
        m
    }

    /// Records one finished entry's byte count and measured duration. The
    /// caller keeps the totals within `u64`: file sizes of one run are
    /// assumed to sum below that machine limit.
    pub fn record(&mut self, bytes: u64, elapsed_ms: u64)
        requires
            old(self)@.total_bytes + bytes <= u64::MAX,
            old(self)@.total_elapsed_ms + elapsed_ms <= u64::MAX,
        ensures
            final(self)@.entries == old(self)@.entries.push(EntryMetric { bytes, elapsed_ms }),
            final(self)@.total_bytes == old(self)@.total_bytes + bytes,
            final(self)@.total_elapsed_ms == old(self)@.total_elapsed_ms + elapsed_ms,
            old(self)@.wf() ==> final(self)@.wf(),
    {
        let ghost pre = self@.entries;
        self.entries.push(EntryMetric { bytes, elapsed_ms });
        self.total_bytes = self.total_bytes + bytes;
        self.total_elapsed_ms = self.total_elapsed_ms + elapsed_ms;
        proof {
            let post = self@.entries;
            assert(post.drop_last() =~= pre);
            assert(post.last() == EntryMetric { bytes, elapsed_ms });
        }
    }

    /// Total bytes transferred so far.
    pub fn total_bytes(&self) -> (n: u64)
        ensures
            n == self@.total_bytes,
    {
        self.total_bytes
    }

    /// Total measured transfer time so far, in milliseconds.
    pub fn total_elapsed_ms(&self) -> (n: u64)
        ensures
            n == self@.total_elapsed_ms,
    {
        self.total_elapsed_ms
    }

    /// How many entries have been recorded.
    pub fn entry_count(&self) -> (n: usize)
        ensures
            n == self@.entries.len(),
    {
        self.entries.len()
    }

    /// The `i`th per-entry record, in recording order.
    pub fn entry(&self, i: usize) -> (e: EntryMetric)
        requires
            i < self@.entries.len(),
        ensures
            e == self@.entries[i as int],
    {
        self.entries[i]
    }
}

} // verus!
