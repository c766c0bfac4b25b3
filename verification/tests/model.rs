use zipdir::archiver::{create_archive, write_entry, ArchiveError, SourceRead};
use zipdir::metrics::TransferMetrics;
use zipdir::paths::join_rel;
use zipdir::session::ArchiveSession;
use zipdir::strategy::{select_strategy, WriteStrategy, THRESHOLD};

#[test]
fn threshold_value() {
    assert_eq!(THRESHOLD, 100_000_000);
}

#[test]
fn strategy_below_threshold_is_whole_buffer() {
    assert_eq!(select_strategy(0), WriteStrategy::WholeBuffer);
    assert_eq!(select_strategy(5), WriteStrategy::WholeBuffer);
    assert_eq!(select_strategy(99_999_999), WriteStrategy::WholeBuffer);
}

#[test]
fn strategy_at_threshold_is_chunked() {
    assert_eq!(select_strategy(100_000_000), WriteStrategy::Chunked);
    assert_eq!(select_strategy(100_000_001), WriteStrategy::Chunked);
    assert_eq!(select_strategy(u64::MAX), WriteStrategy::Chunked);
}

#[test]
fn join_at_root_keeps_name() {
    assert_eq!(join_rel("", "a.txt"), "a.txt");
}

#[test]
fn join_uses_forward_slash() {
    assert_eq!(join_rel("sub", "b.bin"), "sub/b.bin");
    assert_eq!(join_rel("a/b", "c.txt"), "a/b/c.txt");
}

#[test]
fn session_whole_entry() {
    let mut s = ArchiveSession::new();
    assert_eq!(s.entry_count(), 0);
    s.write_entry_whole("a.txt".to_string(), vec![1, 2, 3]);
    assert_eq!(s.entry_count(), 1);
    assert_eq!(s.entry(0).path, "a.txt");
    assert_eq!(s.entry(0).content, vec![1, 2, 3]);
    assert!(!s.is_finalized());
    s.finalize();
    assert!(s.is_finalized());
}

#[test]
fn session_streamed_entry_concatenates_chunks() {
    let mut s = ArchiveSession::new();
    s.begin_entry_stream("big.bin".to_string());
    s.write_chunk(&[1, 2]);
    s.write_chunk(&[]);
    s.write_chunk(&[3, 4, 5]);
    s.close_entry();
    assert_eq!(s.entry_count(), 1);
    assert_eq!(s.entry(0).path, "big.bin");
    assert_eq!(s.entry(0).content, vec![1, 2, 3, 4, 5]);
}

#[test]
fn metrics_totals_are_sums() {
    let mut m = TransferMetrics::new();
    assert_eq!(m.total_bytes(), 0);
    assert_eq!(m.total_elapsed_ms(), 0);
    m.record(5, 2);
    m.record(7, 3);
    assert_eq!(m.entry_count(), 2);
    assert_eq!(m.entry(0).bytes, 5);
    assert_eq!(m.entry(0).elapsed_ms, 2);
    assert_eq!(m.entry(1).bytes, 7);
    assert_eq!(m.total_bytes(), 12);
    assert_eq!(m.total_elapsed_ms(), 5);
}

#[test]
fn write_entry_small_file_keeps_bytes() {
    let mut s = ArchiveSession::new();
    let mut m = TransferMetrics::new();
    write_entry(&mut s, &mut m, "small.txt".to_string(), vec![5, 6, 7], 4);
    assert_eq!(s.entry_count(), 1);
    assert_eq!(s.entry(0).path, "small.txt");
    assert_eq!(s.entry(0).content, vec![5, 6, 7]);
    assert_eq!(m.total_bytes(), 3);
    assert_eq!(m.total_elapsed_ms(), 4);
}

#[test]
fn write_entry_empty_file_gets_zero_byte_entry() {
    let mut s = ArchiveSession::new();
    let mut m = TransferMetrics::new();
    write_entry(&mut s, &mut m, "empty.dat".to_string(), Vec::new(), 0);
    assert_eq!(s.entry_count(), 1);
    assert_eq!(s.entry(0).path, "empty.dat");
    assert_eq!(s.entry(0).content.len(), 0);
    assert_eq!(m.total_bytes(), 0);
}

fn ok_file(path: &str, content: Vec<u8>) -> SourceRead {
    SourceRead { rel_path: path.to_string(), content: Some(content) }
}

#[test]
fn create_archive_writes_all_entries_in_order() {
    let files = vec![
        ok_file("a.txt", b"hello".to_vec()),
        ok_file("sub/empty.dat", Vec::new()),
        ok_file("c.bin", vec![9, 9]),
    ];
    let (s, m, r) = create_archive(files);
    assert!(r.is_ok());
    assert!(s.is_finalized());
    assert_eq!(s.entry_count(), 3);
    assert_eq!(s.entry(0).path, "a.txt");
    assert_eq!(s.entry(0).content, b"hello".to_vec());
    assert_eq!(s.entry(1).path, "sub/empty.dat");
    assert_eq!(s.entry(1).content.len(), 0);
    assert_eq!(s.entry(2).path, "c.bin");
    assert_eq!(s.entry(2).content, vec![9, 9]);
    assert_eq!(m.total_bytes(), 7);
    assert_eq!(m.entry_count(), 3);
}

#[test]
fn create_archive_fails_fast_on_unreadable_file() {
    let files = vec![
        ok_file("x.txt", vec![1]),
        SourceRead { rel_path: "y.txt".to_string(), content: None },
        ok_file("z.txt", vec![2, 3]),
    ];
    let (s, m, r) = create_archive(files);
    assert_eq!(r, Err(ArchiveError::EntryIO));
    assert!(!s.is_finalized());
    assert_eq!(s.entry_count(), 1);
    assert_eq!(s.entry(0).path, "x.txt");
    assert_eq!(m.total_bytes(), 1);
}

#[test]
fn create_archive_on_empty_list_is_ok() {
    let (s, m, r) = create_archive(Vec::new());
    assert!(r.is_ok());
    assert!(s.is_finalized());
    assert_eq!(s.entry_count(), 0);
    assert_eq!(m.total_bytes(), 0);
}

#[test]
fn rerun_on_same_inputs_gives_identical_archive() {
    let make = || {
        vec![
            ok_file("a.txt", b"hello".to_vec()),
            ok_file("sub/b.bin", vec![0; 1000]),
            ok_file("sub/empty.dat", Vec::new()),
        ]
    };
    let (s1, m1, r1) = create_archive(make());
    let (s2, m2, r2) = create_archive(make());
    assert_eq!(r1.is_ok(), r2.is_ok());
    assert_eq!(s1.entry_count(), s2.entry_count());
    for i in 0..s1.entry_count() {
        assert_eq!(s1.entry(i).path, s2.entry(i).path);
        assert_eq!(s1.entry(i).content, s2.entry(i).content);
    }
    assert_eq!(m1.total_bytes(), m2.total_bytes());
}
