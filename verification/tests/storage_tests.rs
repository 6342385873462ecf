use vdm::storage::{default_chunks, default_chunks_n, Status};

#[test]
fn chunk_split_covers_file_exactly() {
    for &(total, parts) in &[(100u64, 4usize), (1023, 8), (u64::MAX / 2, 32), (1, 32)] {
        let cs = default_chunks_n(total, parts);
        assert!(!cs.is_empty());
        assert_eq!(cs.first().unwrap().start, 0);
        let mut expect = 0i64;
        for c in &cs {
            assert_eq!(c.start, expect, "gap/overlap at idx {}", c.idx);
            expect = c.end + 1;
        }
        assert_eq!(expect, total as i64, "coverage mismatch total={total}");
    }
    assert!(default_chunks_n(0, 4).is_empty());
}

#[test]
fn split_sizes_differ_by_at_most_one() {
    let cs = default_chunks_n(10, 4);
    let lens: Vec<i64> = cs.iter().map(|c| c.end - c.start + 1).collect();
    assert_eq!(lens, vec![3, 3, 2, 2]);
    for (i, c) in cs.iter().enumerate() {
        assert_eq!(c.idx, i as i64);
        assert_eq!(c.done, 0);
    }
}

#[test]
fn split_never_exceeds_bytes_or_cap() {
    assert_eq!(default_chunks_n(3, 8).len(), 3);
    assert_eq!(default_chunks_n(1 << 30, 100).len(), 32);
    assert_eq!(default_chunks_n(1 << 30, 0).len(), 1);
    assert_eq!(default_chunks(5).len(), 1);
    assert_eq!(default_chunks(5)[0].end, 4);
}

#[test]
fn status_names_round_trip() {
    for s in [
        Status::Queued,
        Status::Connecting,
        Status::Downloading,
        Status::Paused,
        Status::Completed,
        Status::Error,
    ] {
        assert_eq!(Status::from_str(s.as_str()), s);
    }
    assert_eq!(Status::Downloading.as_str(), "downloading");
    assert_eq!(Status::from_str("bogus"), Status::Paused);
}
