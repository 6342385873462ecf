use vdm::worker::{
    adopt_total, after_connect_failure, after_stream, backoff_ms, cell_finished, claim_or_steal,
    if_range_value, judge_status, range_header_value, release_cell, rows_of_cells, should_persist,
    total_from_response, usable, start_write, AfterStream, Cell, Claim, Refusal, StreamEnd, Verdict, MIN_SPLIT,
    UNKNOWN_END,
};

fn cell(idx: usize, start: u64, end: u64, done: u64, active: bool) -> Cell {
    Cell { idx, start, end, done, speed: 0, active }
}

#[test]
fn free_cells_are_claimed_first() {
    let mut cells = vec![cell(0, 0, 10, 10, false), cell(1, 10, 20, 0, false)];
    assert!(matches!(claim_or_steal(&mut cells), Some(Claim::Free(1))));
    assert!(cells[1].active);
    assert!(claim_or_steal(&mut cells).is_none());
}

#[test]
fn the_largest_remainder_is_split() {
    let big = 8 * MIN_SPLIT;
    let mut cells = vec![cell(0, 0, big, 0, true), cell(1, big, big + 3 * MIN_SPLIT, 0, true)];
    match claim_or_steal(&mut cells) {
        Some(Claim::Stolen(i)) => assert_eq!(i, 2),
        _ => panic!("expected a steal"),
    }
    assert_eq!(cells.len(), 3);
    assert_eq!(cells[0].end, big / 2);
    assert_eq!((cells[2].start, cells[2].end, cells[2].idx), (big / 2, big, 2));
    assert!(cells[2].active);
}

#[test]
fn small_remainders_are_not_split() {
    let mut cells = vec![cell(0, 0, 2 * MIN_SPLIT, 0, true)];
    assert!(claim_or_steal(&mut cells).is_none());
    assert_eq!(cells.len(), 1);
}

#[test]
fn request_headers() {
    assert_eq!(range_header_value(true, 5, 100), Some("bytes=5-99".to_string()));
    assert_eq!(range_header_value(true, 5, UNKNOWN_END), Some("bytes=5-".to_string()));
    assert_eq!(range_header_value(false, 5, 100), None);
    assert_eq!(if_range_value("\"abc\"", "Mon"), Some("\"abc\"".to_string()));
    assert_eq!(if_range_value("W/\"abc\"", "Mon"), Some("Mon".to_string()));
    assert_eq!(if_range_value("", ""), None);
}

#[test]
fn statuses_are_judged() {
    assert_eq!(judge_status(true, 10, 200, 0), Verdict::Retry);
    assert_eq!(judge_status(true, 10, 200, 6), Verdict::Fail(Refusal::ResumeRefused));
    assert_eq!(judge_status(true, 0, 200, 0), Verdict::Stream);
    assert_eq!(judge_status(true, 10, 206, 0), Verdict::Stream);
    assert_eq!(judge_status(false, 0, 503, 2), Verdict::Retry);
    assert_eq!(judge_status(false, 0, 404, 0), Verdict::Fail(Refusal::Http));
    assert_eq!(judge_status(false, 0, 500, 6), Verdict::Fail(Refusal::Http));
}

#[test]
fn stream_bookkeeping() {
    assert_eq!(usable(100, 90, 64), 10);
    assert_eq!(usable(100, 120, 64), 0);
    assert_eq!(usable(UNKNOWN_END, 120, 64), 64);
    assert_eq!(total_from_response(10, Some(90), 0), Some(100));
    assert_eq!(total_from_response(10, Some(90), 5), None);
    assert_eq!(total_from_response(10, Some(0), 0), None);
    let mut one = vec![cell(0, 0, UNKNOWN_END, 0, true)];
    adopt_total(&mut one, 500);
    assert_eq!(one[0].end, 500);
    let mut two = vec![cell(0, 0, UNKNOWN_END, 0, true), cell(1, 0, 9, 0, true)];
    adopt_total(&mut two, 500);
    assert_eq!(two[0].end, UNKNOWN_END);
    assert!(should_persist(262144) && !should_persist(262143));
    assert_eq!(after_connect_failure(0), Some(1));
    assert_eq!(after_connect_failure(6), None);
    assert!(cell_finished(&cell(0, 0, 10, 10, true)));
    assert!(!cell_finished(&cell(0, 0, UNKNOWN_END, 10, true)));
    let mut cs = vec![cell(0, 0, 10, 3, true)];
    release_cell(&mut cs, 0);
    assert!(!cs[0].active && cs[0].done == 3);
}

#[test]
fn after_a_stream_pass() {
    let end = |stopped, paused, eof, errored, progressed| StreamEnd { stopped, paused, eof, errored, progressed };
    assert_eq!(after_stream(end(true, false, false, false, false), 10, 0, 0), AfterStream::Stopped);
    assert_eq!(after_stream(end(false, false, true, false, true), UNKNOWN_END, 77, 0), AfterStream::Finalize(77));
    assert_eq!(after_stream(end(false, false, false, true, true), 10, 5, 5), AfterStream::Retry(1));
    assert_eq!(after_stream(end(false, false, false, true, false), 10, 5, 6), AfterStream::GiveUp);
    assert_eq!(after_stream(end(false, false, true, false, true), 10, 10, 0), AfterStream::Done);
    assert_eq!(after_stream(end(false, true, false, false, true), 10, 5, 0), AfterStream::Paused);
    assert_eq!(after_stream(end(false, false, true, false, true), 10, 5, 0), AfterStream::Continue);
}

#[test]
fn backoff_grows_and_caps() {
    for _ in 0..20 {
        let a = backoff_ms(1);
        assert!((500..=750).contains(&a));
        let b = backoff_ms(9);
        assert!((8000..=12000).contains(&b));
    }
}

#[test]
fn rows_keep_unknown_ends() {
    let rows = rows_of_cells(&vec![cell(3, 10, 20, 4, false), cell(4, 20, UNKNOWN_END, 1, false)]);
    assert_eq!((rows[0].idx, rows[0].start, rows[0].end, rows[0].done), (3, 10, 19, 4));
    assert_eq!(rows[1].end, -1);
}

#[test]
fn splitting_goes_on_however_many_cells() {
    let big = 64 * MIN_SPLIT;
    let mut cells: Vec<Cell> = (0..128).map(|i| cell(i, i as u64 * big, (i as u64 + 1) * big, 0, true)).collect();
    assert!(matches!(claim_or_steal(&mut cells), Some(Claim::Stolen(128))));
    assert_eq!(cells.len(), 129);
    assert_eq!(cells[0].end, big / 2);
    assert_eq!((cells[128].start, cells[128].end), (big / 2, big));
}

#[test]
fn cells_survive_being_stored() {
    let cells = vec![cell(0, 0, 100, 40, false), cell(1, 100, UNKNOWN_END, 7, false)];
    let back = vdm::worker::cells_from_rows(&rows_of_cells(&cells));
    assert_eq!(back, cells);
}

#[test]
fn reconnects_write_after_progress() {
    assert_eq!(start_write(&cell(0, 100, 1000, 40, true)), 140);
    assert_eq!(start_write(&cell(1, 1000, 2000, 0, true)), 1000);
}
