//! The guarantees the archiver warrants of every run, stated over the
//! spec-level model and proved once and for all: the two write strategies
//! move the same bytes, a successful run archives every file in order, a
//! failed run stops at the failing file, an empty file still gets its entry,
//! and re-running over the same inputs reproduces the same archive.

use vstd::prelude::*;

use crate::archiver::{archive_entries, lemma_ok_prefix_char, ok_prefix_len, prefix_entries,
    sum_prefix_len};

verus! {

/// The bytes the whole-buffer strategy hands the codec: the file in one
/// piece.
pub open spec fn whole_buffer_content(data: Seq<u8>) -> Seq<u8> {
    data
}

/// The successive pieces the chunked-streaming strategy writes: at most `c`
/// bytes each, in file order, until the source is exhausted.
pub open spec fn stream_chunks(data: Seq<u8>, c: int) -> Seq<Seq<u8>>
    decreases data.len() when c >= 1
{
    if data.len() == 0 {
        Seq::empty()
    } else if data.len() <= c {
        seq![data]
    } else {
        seq![data.take(c)] + stream_chunks(data.skip(c), c)
    }
}

/// One entry's bytes as the codec receives them from the streaming path:
/// the chunks, concatenated in write order.
pub open spec fn concat_chunks(chunks: Seq<Seq<u8>>) -> Seq<u8>
    decreases chunks.len(),
{
    if chunks.len() == 0 {
        Seq::empty()
    } else {
        chunks[0] + concat_chunks(chunks.drop_first())
    }
}

/// Strategy equivalence: for any file and any positive chunk size, the
/// chunked-streaming path hands the codec exactly the bytes the
/// whole-buffer path would, so the entry decompresses to the same contents
/// whichever path its size selected.
pub proof fn lemma_strategy_equivalence(data: Seq<u8>, c: int)
    requires
        c >= 1,
    ensures
        concat_chunks(stream_chunks(data, c)) == whole_buffer_content(data),
    decreases data.len(),
{
    let cs = stream_chunks(data, c);
    if data.len() == 0 {
        assert(concat_chunks(cs) =~= data);
    } else if data.len() <= c {
        assert(cs == seq![data]);
        assert(cs.drop_first() =~= Seq::<Seq<u8>>::empty());
        assert(concat_chunks(cs.drop_first()) =~= Seq::<u8>::empty());
        assert(concat_chunks(cs) =~= data);
    } else {
        let rest = stream_chunks(data.skip(c), c);
        assert(cs == seq![data.take(c)] + rest);
        assert(cs[0] == data.take(c));
        assert(cs.drop_first() =~= rest);
        lemma_strategy_equivalence(data.skip(c), c);
        assert(concat_chunks(cs) == data.take(c) + data.skip(c));
        assert(data.take(c) + data.skip(c) =~= data);
    }
}

/// Completeness and ordering: when every file is read successfully, the
/// archive holds exactly one entry per enumerated file, in enumeration
/// order, each under the file's relative path with the file's bytes.
pub proof fn lemma_archive_complete_in_order(fv: Seq<(Seq<char>, Option<Seq<u8>>)>)
    requires
        forall|j: int| 0 <= j < fv.len() ==> (#[trigger] fv[j].1) is Some,
    ensures
        ok_prefix_len(fv) == fv.len(),
        archive_entries(fv).len() == fv.len(),
        forall|j: int|
            0 <= j < fv.len() ==> #[trigger] archive_entries(fv)[j] == (fv[j].0, (fv[j].1)->0),
{
    lemma_ok_prefix_char(fv, fv.len() as int);
    assert forall|j: int|
        0 <= j < fv.len() implies #[trigger] archive_entries(fv)[j] == (fv[j].0, (fv[j].1)->0) by {
        assert(prefix_entries(fv, fv.len() as int)[j] == (fv[j].0, (fv[j].1)->0));
    }
}

/// Fail-fast: if file `k` becomes unreadable mid-run while everything
/// before it was read, the archive holds exactly the first `k` entries and
/// nothing after the failing file.
pub proof fn lemma_archive_fail_fast(fv: Seq<(Seq<char>, Option<Seq<u8>>)>, k: int)
    requires
        0 <= k < fv.len(),
        forall|j: int| 0 <= j < k ==> (#[trigger] fv[j].1) is Some,
        !(fv[k].1 is Some),
    ensures
        ok_prefix_len(fv) == k,
        archive_entries(fv).len() == k,
        forall|j: int|
            0 <= j < k ==> #[trigger] archive_entries(fv)[j] == (fv[j].0, (fv[j].1)->0),
{
    lemma_ok_prefix_char(fv, k);
    assert forall|j: int|
        0 <= j < k implies #[trigger] archive_entries(fv)[j] == (fv[j].0, (fv[j].1)->0) by {
        assert(prefix_entries(fv, k)[j] == (fv[j].0, (fv[j].1)->0));
    }
}

/// Empty-file handling: a zero-byte source file that is reached and read
/// produces a present, zero-byte entry at its own position, not an omitted
/// one.
pub proof fn lemma_empty_file_entry(fv: Seq<(Seq<char>, Option<Seq<u8>>)>, k: int)
    requires
        0 <= k < fv.len(),
        forall|j: int| 0 <= j <= k ==> (#[trigger] fv[j].1) is Some,
        ((fv[k].1)->0).len() == 0,
    ensures
        archive_entries(fv).len() > k,
        archive_entries(fv)[k] == (fv[k].0, (fv[k].1)->0),
        archive_entries(fv)[k].1.len() == 0,
{
    lemma_ok_prefix_at_least(fv, k + 1);
    assert(prefix_entries(fv, ok_prefix_len(fv) as int)[k] == (fv[k].0, (fv[k].1)->0));
}

/// Idempotent re-run: two runs over file lists with the same relative paths
/// and the same read outcomes produce archives with the same entries and
/// the same byte totals, wherever the two outputs live.
pub proof fn lemma_rerun_identical(
    fv1: Seq<(Seq<char>, Option<Seq<u8>>)>,
    fv2: Seq<(Seq<char>, Option<Seq<u8>>)>,
)
    requires
        fv1.len() == fv2.len(),
        forall|j: int| 0 <= j < fv1.len() ==> #[trigger] fv1[j] == fv2[j],
    ensures
        ok_prefix_len(fv1) == ok_prefix_len(fv2),
        archive_entries(fv1) == archive_entries(fv2),
        sum_prefix_len(fv1, ok_prefix_len(fv1) as int) == sum_prefix_len(
            fv2,
            ok_prefix_len(fv2) as int,
        ),
{
    assert(fv1 =~= fv2);
}

/// A run that reads its first `m` files successfully archives at least `m`
/// entries.
pub proof fn lemma_ok_prefix_at_least(fv: Seq<(Seq<char>, Option<Seq<u8>>)>, m: int)
    requires
        0 <= m <= fv.len(),
        forall|j: int| 0 <= j < m ==> (#[trigger] fv[j].1) is Some,
    ensures
        ok_prefix_len(fv) >= m,
    decreases fv.len(),
{
    if m > 0 {
        let rest = fv.drop_first();
        assert forall|j: int| 0 <= j < m - 1 implies (#[trigger] rest[j].1) is Some by {
            assert(rest[j] == fv[j + 1]);
        }
        lemma_ok_prefix_at_least(rest, m - 1);
    }
}

} // verus!
