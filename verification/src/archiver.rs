//! The streaming archiver's core: writing one file as one entry under the
//! size-adaptive strategy, and the whole run over an enumerated file list —
//! strictly in order, fail-fast on the first error, with byte accounting.
//!
//! The filesystem reads and the codec calls happen outside this crate; the
//! run model here takes each file's read outcome as a plain value (`Some`
//! bytes, or `None` for a source that became unreadable mid-run) and pins
//! down exactly which entries the archive holds for every such outcome.

use vstd::prelude::*;

use crate::metrics::{EntryMetric, TransferMetrics};
use crate::session::{ArchiveSession, SessionPhase};
use crate::strategy::{select_strategy, WriteStrategy, THRESHOLD};

verus! {

/// Why an archive run aborted. Every failure is fatal to the whole run:
/// there is no retry and no partial-archive recovery.
#[derive(Clone, Copy, Debug, PartialEq, Eq, Structural)]
pub enum ArchiveError {
    /// The source tree could not be enumerated.
    Enumeration,
    /// The output path could not be opened for writing.
    Creation,
    /// A source read or an output write failed while transferring one entry.
    EntryIO,
    /// The container's trailing index could not be written.
    Finalization,
}

/// One enumerated file paired with the outcome of reading its bytes: `Some`
/// content, or `None` where the source became unreadable after enumeration.
pub struct SourceRead {
    pub rel_path: String,
    pub content: Option<Vec<u8>>,
}

impl View for SourceRead {
    type V = (Seq<char>, Option<Seq<u8>>);

    open spec fn view(&self) -> (Seq<char>, Option<Seq<u8>>) {
        (
            self.rel_path@,
            match self.content {
                Option::Some(c) => Option::Some(c@),
                Option::None => Option::None,
            },
        )
    }
}

/// The abstract file list: each file's relative path and read outcome.
pub open spec fn reads_view(files: Seq<SourceRead>) -> Seq<(Seq<char>, Option<Seq<u8>>)> {
    Seq::new(files.len(), |j: int| files[j]@)
}

/// How many files precede the first failed read: the run archives exactly
/// these and then stops.
pub open spec fn ok_prefix_len(fv: Seq<(Seq<char>, Option<Seq<u8>>)>) -> nat
    decreases fv.len(),
{
    if fv.len() == 0 {
        0
    } else if !(fv[0].1 is Some) {
        0
    } else {
        1 + ok_prefix_len(fv.drop_first())
    }
}

/// The entries of the first `n` files, each under its relative path with its
/// read bytes.
pub open spec fn prefix_entries(fv: Seq<(Seq<char>, Option<Seq<u8>>)>, n: int) -> Seq<
    (Seq<char>, Seq<u8>),
> {
    Seq::new(n as nat, |j: int| (fv[j].0, (fv[j].1)->0))
}

/// What the archive holds after a run over `fv`: one entry per file of the
/// error-free prefix, in enumeration order.
pub open spec fn archive_entries(fv: Seq<(Seq<char>, Option<Seq<u8>>)>) -> Seq<
    (Seq<char>, Seq<u8>),
> {
    prefix_entries(fv, ok_prefix_len(fv) as int)
}

/// The bytes of the first `n` files' successful reads, summed.
pub open spec fn sum_prefix_len(fv: Seq<(Seq<char>, Option<Seq<u8>>)>, n: int) -> int
    decreases n,
{
    if n <= 0 {
        0
    } else {
        sum_prefix_len(fv, n - 1) + (
        if fv[n - 1].1 is Some {
            (fv[n - 1].1)->0.len() as int
        } else {
            0
        })
    }
}

/// The bytes of all successful reads in the list, summed.
pub open spec fn total_content_len(fv: Seq<(Seq<char>, Option<Seq<u8>>)>) -> int {
    sum_prefix_len(fv, fv.len() as int)
}

/// The error-free prefix is exactly the run of files before the first
/// failed read: `k` files all read fine and either the list ends there or
/// file `k` failed, so the run archives the first `k` files.
pub proof fn lemma_ok_prefix_char(fv: Seq<(Seq<char>, Option<Seq<u8>>)>, k: int)
    requires
        0 <= k <= fv.len(),
        forall|j: int| 0 <= j < k ==> (#[trigger] fv[j].1) is Some,
        k < fv.len() ==> !(fv[k].1 is Some),
    ensures
        ok_prefix_len(fv) == k,
    decreases fv.len(),
{
    if fv.len() == 0 {
    } else if k == 0 {
    } else {
        let rest = fv.drop_first();
        assert forall|j: int| 0 <= j < k - 1 implies (#[trigger] rest[j].1) is Some by {
            assert(rest[j] == fv[j + 1]);
        }
        if k - 1 < rest.len() {
            assert(rest[k - 1] == fv[k]);
        }
        lemma_ok_prefix_char(rest, k - 1);
    }
}

/// Every file contributes a non-negative byte count, so prefix totals only
/// grow as the prefix does.
pub proof fn lemma_sum_prefix_mono(fv: Seq<(Seq<char>, Option<Seq<u8>>)>, k: int, n: int)
    requires
        0 <= k <= n,
    ensures
        sum_prefix_len(fv, k) <= sum_prefix_len(fv, n),
    decreases n - k,
{
    if k < n {
        lemma_sum_prefix_mono(fv, k, n - 1);
    }
}

/// Writes one file as one complete archive entry, choosing the write
/// strategy by the file's size: whole-buffer below the threshold, chunked
/// streaming at or above it. Either way the entry carries the file's exact
/// bytes — an empty file yields a present, zero-byte entry — and the
/// transfer is recorded in the metrics.
pub fn write_entry(
    session: &mut ArchiveSession,
    metrics: &mut TransferMetrics,
    rel_path: String,
    data: Vec<u8>,
    elapsed_ms: u64,
)
    requires
        old(session)@.phase == SessionPhase::Ready,
        old(metrics)@.total_bytes + data@.len() <= u64::MAX,
        old(metrics)@.total_elapsed_ms + elapsed_ms <= u64::MAX,
    ensures
        final(session)@.phase == SessionPhase::Ready,
        final(session)@.entries == old(session)@.entries.push((rel_path@, data@)),
        final(metrics)@.entries == old(metrics)@.entries.push(
            EntryMetric { bytes: data@.len() as u64, elapsed_ms },
        ),
        final(metrics)@.total_bytes == old(metrics)@.total_bytes + data@.len(),
        final(metrics)@.total_elapsed_ms == old(metrics)@.total_elapsed_ms + elapsed_ms,
        old(metrics)@.wf() ==> final(metrics)@.wf(),
{
    let ghost dv = data@;
    let ghost pv = rel_path@;
    let file_size: u64 = data.len() as u64;
    match select_strategy(file_size) {
        WriteStrategy::WholeBuffer => {
            session.write_entry_whole(rel_path, data);
        },
        WriteStrategy::Chunked => {
            session.begin_entry_stream(rel_path);
            let total = data.len();
            let mut i: usize = 0;
            while i < total
                invariant
                    total == dv.len(),
                    i <= total,
                    data@ == dv,
                    session@.phase == SessionPhase::EntryOpen,
                    session@.entries == old(session)@.entries,
                    session@.open_path == pv,
                    session@.open_data == dv.take(i as int),
                decreases total - i,
            {
                let end: usize = if total - i > THRESHOLD {
                    i + THRESHOLD
                } else {
                    total
                };
                let chunk: &[u8] = vstd::slice::slice_subrange(data.as_slice(), i, end);
                session.write_chunk(chunk);
                proof {
                    assert(dv.take(end as int) =~= dv.take(i as int) + dv.subrange(
                        i as int,
                        end as int,
                    ));
                }
                i = end;
            }
            proof {
                assert(dv.take(total as int) =~= dv);
            }
            session.close_entry();
        },
    }
    metrics.record(file_size, elapsed_ms);
}

/// Runs the whole archive over an enumerated file list, given each file's
/// read outcome: writes one entry per file, strictly in list order, until
/// every file is written (then finalizes the container and reports success)
/// or a read has failed (then stops at once with an entry I/O error, the
/// earlier entries written and nothing after the failing file). Byte totals
/// are accounted per entry; the model run takes no measurable time, so its
/// recorded durations are zero — the binary measures real durations when it
/// records transfers itself.
pub fn create_archive(files: Vec<SourceRead>) -> (r: (
    ArchiveSession,
    TransferMetrics,
    Result<(), ArchiveError>,
))
    requires
        total_content_len(reads_view(files@)) <= u64::MAX,
    ensures
        r.0@.entries == archive_entries(reads_view(files@)),
        r.2 is Ok <==> ok_prefix_len(reads_view(files@)) == files@.len(),
        r.2 is Ok ==> r.0@.phase == SessionPhase::Finalized,
        r.2 is Err ==> r.2->Err_0 == ArchiveError::EntryIO && r.0@.phase == SessionPhase::Ready,
        r.1@.wf(),
        r.1@.total_bytes == sum_prefix_len(
            reads_view(files@),
            ok_prefix_len(reads_view(files@)) as int,
        ),
        r.1@.total_elapsed_ms == 0,
        r.1@.entries.len() == archive_entries(reads_view(files@)).len(),
        forall|j: int|
            0 <= j < r.1@.entries.len() ==> (#[trigger] r.1@.entries[j]) == (EntryMetric {
                bytes: archive_entries(reads_view(files@))[j].1.len() as u64,
                elapsed_ms: 0,
            }),
{
    let ghost fv = reads_view(files@);
    let mut pending_files = files;
    let mut session = ArchiveSession::new();
    let mut metrics = TransferMetrics::new();
    let n = pending_files.len();
    let mut i: usize = 0;
    proof {
        assert(session@.entries =~= prefix_entries(fv, 0));
    }
    while i < n
        invariant
            fv == reads_view(files@),
            i <= n,
            fv.len() == n,
            total_content_len(fv) <= u64::MAX,
            pending_files@.len() == n - i,
            forall|j: int| 0 <= j < n - i ==> (#[trigger] pending_files@[j])@ == fv[i + j],
            forall|j: int| 0 <= j < i ==> (#[trigger] fv[j].1) is Some,
            session@.phase == SessionPhase::Ready,
            session@.entries == prefix_entries(fv, i as int),
            metrics@.wf(),
            metrics@.total_bytes == sum_prefix_len(fv, i as int),
            metrics@.total_elapsed_ms == 0,
            metrics@.entries.len() == i,
            forall|j: int|
                0 <= j < i ==> (#[trigger] metrics@.entries[j]) == (EntryMetric {
                    bytes: ((fv[j].1)->0).len() as u64,
                    elapsed_ms: 0,
                }),
        decreases n - i,
    {
        let ghost prev = pending_files@;
        let f = pending_files.remove(0);
        proof {
            assert(f@ == fv[i as int]);
            prev.remove_ensures(0);
            assert forall|j: int| 0 <= j < n - (i + 1) implies (#[trigger] pending_files@[j])@ == fv[(i
                + 1) + j] by {
                assert(pending_files@[j] == prev[j + 1]);
                assert(prev[j + 1]@ == fv[i + (j + 1)]);
            }
        }
        match f.content {
            Option::Some(data) => {
                proof {
                    lemma_sum_prefix_mono(fv, i + 1, n as int);
                    assert(sum_prefix_len(fv, i + 1) == sum_prefix_len(fv, i as int) + data@.len());
                }
                write_entry(&mut session, &mut metrics, f.rel_path, data, 0);
                proof {
                    assert(session@.entries =~= prefix_entries(fv, i + 1));
                }
                i = i + 1;
            },
            Option::None => {
                proof {
                    lemma_ok_prefix_char(fv, i as int);
                }
                return (session, metrics, Result::Err(ArchiveError::EntryIO));
            },
        }
    }
    proof {
        lemma_ok_prefix_char(fv, n as int);
    }
    session.finalize();
    (session, metrics, Result::Ok(()))
}

} // verus!
