use zipdir::archiver::{create_archive, write_entry, SourceRead};
use zipdir::metrics::TransferMetrics;
use zipdir::session::ArchiveSession;

fn patterned(len: usize) -> Vec<u8> {
    // a constant fill with sentinels at the ends and at the chunk boundary,
    // so a mis-stitched chunk seam would change the bytes
    let mut v = vec![0x5a_u8; len];
    if len > 0 {
        v[0] = 1;
        v[len - 1] = 2;
    }
    if len > 100_000_000 {
        v[99_999_999] = 3;
        v[100_000_000] = 4;
    }
    v
}

#[test]
fn entry_just_below_threshold_keeps_bytes() {
    let data = patterned(99_999_999);
    let copy = data.clone();
    let mut s = ArchiveSession::new();
    let mut m = TransferMetrics::new();
    write_entry(&mut s, &mut m, "below.bin".to_string(), data, 0);
    assert_eq!(s.entry_count(), 1);
    assert_eq!(s.entry(0).content, copy);
    assert_eq!(m.total_bytes(), 99_999_999);
}

#[test]
fn entry_just_above_threshold_keeps_bytes() {
    let data = patterned(100_000_001);
    let copy = data.clone();
    let mut s = ArchiveSession::new();
    let mut m = TransferMetrics::new();
    write_entry(&mut s, &mut m, "above.bin".to_string(), data, 0);
    assert_eq!(s.entry_count(), 1);
    assert_eq!(s.entry(0).content, copy);
    assert_eq!(m.total_bytes(), 100_000_001);
}

#[test]
fn three_file_tree_archives_completely() {
    let files = vec![
        SourceRead { rel_path: "a.txt".to_string(), content: Some(b"hello".to_vec()) },
        SourceRead { rel_path: "sub/b.bin".to_string(), content: Some(vec![0_u8; 150_000_000]) },
        SourceRead { rel_path: "sub/empty.dat".to_string(), content: Some(Vec::new()) },
    ];
    let (s, m, r) = create_archive(files);
    assert!(r.is_ok());
    assert!(s.is_finalized());
    assert_eq!(s.entry_count(), 3);
    assert_eq!(s.entry(0).path, "a.txt");
    assert_eq!(s.entry(0).content, b"hello".to_vec());
    assert_eq!(s.entry(1).path, "sub/b.bin");
    assert_eq!(s.entry(1).content.len(), 150_000_000);
    assert!(s.entry(1).content.iter().all(|b| *b == 0));
    assert_eq!(s.entry(2).path, "sub/empty.dat");
    assert_eq!(s.entry(2).content.len(), 0);
    assert_eq!(m.total_bytes(), 150_000_005);
}
