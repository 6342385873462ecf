use vdm::downloader::{
    any_chunk_data, better_filename, choose_name, connection_count, default_download_dir, initial_cells, merged_snapshot,
    new_id, new_task_row, normalize_url, plan_file, referrer_of, renewal_url, run_end, setting_value, status_str,
    take_sample, unique_path_name, EtaMemo, FilePrep, LiveRun, RunEnd, RunTally, SchedError, Scheduler,
    TaskState, Sample, CellSample,
};
use vdm::storage::{ChunkRow, Status, TaskRow};
use vdm::worker::{Cell, DriveOutcome, UNKNOWN_END};

fn task(id: &str, status: Status, created_at: i64) -> TaskState {
    TaskState { id: id.to_string(), status, created_at, error: None, running: false }
}

fn sched(tasks: Vec<TaskState>, max_active: u64) -> Scheduler {
    Scheduler { tasks, max_active, max_conns: 8 }
}

fn row(id: &str, url: &str, headers_json: &str, status: Status, total: i64) -> TaskRow {
    TaskRow {
        id: id.into(),
        url: url.into(),
        filename: "f.bin".into(),
        dir: "/tmp".into(),
        total,
        etag: String::new(),
        last_modified: String::new(),
        accept_ranges: true,
        multi_conn: true,
        status,
        created_at: 7,
        headers_json: headers_json.into(),
    }
}

#[test]
fn unique_names_never_collide() {
    let mut taken: Vec<String> = Vec::new();
    let a = unique_path_name(&taken, "file.zip");
    assert_eq!(a, "file.zip");
    taken.push(a.clone());
    let b = unique_path_name(&taken, "file.zip");
    assert_ne!(a, b);
    assert!(b.starts_with("file (1)"));
    assert_eq!(b, "file (1).zip");
    taken.push(b.clone());
    assert_eq!(unique_path_name(&taken, "file.zip"), "file (2).zip");
    assert_eq!(unique_path_name(&vec!["README".to_string()], "README"), "README (1)");
}

#[test]
fn test_max_active_settings() {
    let mut s = sched(Vec::new(), 3);
    s.set_max_active(5);
    assert_eq!(s.max_active, 5);
    s.set_max_connections(16);
    assert_eq!(s.max_conns, 16);
    s.set_max_active(0);
    assert_eq!(s.max_active, 1);
    s.set_max_active(99);
    assert_eq!(s.max_active, 16);
    s.set_max_connections(100);
    assert_eq!(s.max_conns, 32);
}

#[test]
fn pump_starts_oldest_first_up_to_limit() {
    let mut s = sched(
        vec![
            task("a", Status::Queued, 3),
            task("b", Status::Queued, 1),
            task("c", Status::Queued, 2),
            task("d", Status::Downloading, 0),
        ],
        2,
    );
    let started = s.pump();
    assert_eq!(started, vec![(1, true)]);
    assert_eq!(s.tasks[1].status, Status::Connecting);
    assert!(s.tasks[1].running);
    assert_eq!(s.tasks[0].status, Status::Queued);
    assert_eq!(s.tasks[2].status, Status::Queued);
    assert!(s.pump().is_empty());
}

#[test]
fn pause_frees_a_slot_for_the_next_oldest() {
    let mut s = sched(
        vec![task("a", Status::Queued, 3), task("b", Status::Queued, 1), task("c", Status::Queued, 2)],
        1,
    );
    assert_eq!(s.pump(), vec![(1, true)]);
    assert!(s.pause_applies("b"));
    let eff = s.pause("b");
    assert!(eff.paused);
    assert!(eff.signal_run);
    assert_eq!(eff.started, vec![(2, true)]);
    assert_eq!(s.tasks[1].status, Status::Paused);
    assert_eq!(s.tasks[2].status, Status::Connecting);
    let again = s.pause("b");
    assert!(!again.paused && again.started.is_empty());
    assert!(!s.pause("missing").paused);
}

#[test]
fn resume_rules() {
    let mut s = sched(
        vec![task("done", Status::Completed, 1), task("p", Status::Paused, 2), task("e", Status::Error, 3)],
        1,
    );
    s.tasks[2].error = Some("http 500".into());
    assert_eq!(s.resume_check("done"), Err(SchedError::AlreadyCompleted));
    assert_eq!(s.resume("done").unwrap_err().message(), "already completed");
    assert_eq!(s.tasks[0].status, Status::Completed);
    assert_eq!(s.resume_check("p"), Ok(true));
    let started = s.resume("p").unwrap();
    assert_eq!(started, vec![(1, true)]);
    assert_eq!(s.tasks[1].status, Status::Connecting);
    assert_eq!(s.resume_check("p"), Ok(false));
    assert_eq!(s.resume("e").unwrap(), Vec::<(usize, bool)>::new());
    assert_eq!(s.tasks[2].status, Status::Queued);
    assert_eq!(s.tasks[2].error, None);
}

#[test]
fn pause_all_and_resume_all() {
    let mut s = sched(
        vec![
            task("a", Status::Downloading, 1),
            task("b", Status::Queued, 2),
            task("c", Status::Completed, 3),
            task("d", Status::Error, 4),
        ],
        1,
    );
    s.tasks[0].running = true;
    let paused = s.pause_all();
    assert_eq!(paused, vec![(0, true), (1, false)]);
    assert_eq!(s.tasks[0].status, Status::Paused);
    assert_eq!(s.tasks[1].status, Status::Paused);
    assert_eq!(s.tasks[2].status, Status::Completed);
    let (requeued, started) = s.resume_all();
    assert_eq!(requeued, vec![0, 1, 3]);
    assert_eq!(started, vec![(0, false)]);
    assert_eq!(s.tasks[0].status, Status::Connecting);
    assert_eq!(s.tasks[3].status, Status::Queued);
}

#[test]
fn remove_and_clear_completed() {
    let mut s = sched(
        vec![task("a", Status::Downloading, 1), task("b", Status::Completed, 2), task("c", Status::Queued, 3)],
        1,
    );
    s.tasks[0].running = true;
    let eff = s.remove("a");
    assert!(eff.removed && eff.signal_stop);
    assert_eq!(eff.started, vec![(1, true)]);
    assert_eq!(s.tasks.len(), 2);
    let (ids, _) = s.clear_completed();
    assert_eq!(ids, vec!["b".to_string()]);
    assert_eq!(s.tasks.len(), 1);
    assert_eq!(s.tasks[0].id, "c");
    assert!(!s.remove("zzz").removed);
}

#[test]
fn restore_pauses_interrupted_tasks() {
    let (s, changed) = Scheduler::restore(
        vec![task("a", Status::Downloading, 1), task("b", Status::Completed, 2), task("c", Status::Queued, 3)],
        3,
        8,
    );
    assert_eq!(changed, vec![0, 2]);
    assert_eq!(s.tasks[0].status, Status::Paused);
    assert_eq!(s.tasks[1].status, Status::Completed);
    assert_eq!(s.tasks[2].status, Status::Paused);
}

#[test]
fn finishing_runs_sets_status_and_error() {
    let mut s = sched(vec![task("a", Status::Downloading, 1), task("b", Status::Queued, 2)], 1);
    s.tasks[0].running = true;
    let started = s.finish_run("a", RunEnd::Failed("http 404".into()));
    assert_eq!(s.tasks[0].status, Status::Error);
    assert_eq!(s.error_of("a").as_deref(), Some("http 404"));
    assert!(!s.tasks[0].running);
    assert_eq!(started, vec![(1, true)]);
    assert_eq!(s.status_of("b"), Some(Status::Connecting));
    s.finish_run("b", RunEnd::Settled(Status::Completed));
    assert_eq!(s.status_of("b"), Some(Status::Completed));
    assert!(s.mark("a", Status::Paused));
    assert!(!s.mark("none", Status::Paused));
    s.renew("a");
    assert_eq!(s.status_of("a"), Some(Status::Connecting));
}

#[test]
fn urls_are_normalized() {
    assert_eq!(normalize_url("  <example.com/file.zip>  ").unwrap(), "https://example.com/file.zip");
    assert_eq!(normalize_url("\"http://a.b/c\"").unwrap(), "http://a.b/c");
    assert_eq!(normalize_url("ftp://host/x"), Err(SchedError::InvalidUrl));
    assert_eq!(normalize_url("nodots"), Err(SchedError::InvalidUrl));
    assert_eq!(SchedError::InvalidUrl.message(), "Please provide a valid HTTP or HTTPS URL");
    assert_eq!(renewal_url("   "), Err(SchedError::EmptyUrl));
    assert_eq!(renewal_url("  https://x/y  ").unwrap(), "https://x/y");
}

#[test]
fn names_prefer_typed_then_inferred() {
    assert_eq!(choose_name("https://x.io/a/file.zip", Some("main"), 42), "file.zip");
    assert_eq!(choose_name("https://x.io/a/file.zip", Some(" report.pdf "), 42), "report.pdf");
    assert_eq!(choose_name("https://x.io/a/noext", Some("mydownload"), 42), "mydownload");
    assert_eq!(choose_name("not a url", None, 42), "download-42");
    assert_eq!(choose_name("not a url", Some(""), -5), "download--5");
    assert_eq!(choose_name("https://x.io/a/b/My%20File.zip", None, 0), "My File.zip");
}

#[test]
fn default_folders_follow_file_type() {
    assert_eq!(default_download_dir("movie.MKV", Some("C:\\Users\\me")), "C:\\Users\\me\\Downloads\\Video");
    assert_eq!(default_download_dir("a.tar.gz", Some("H")), "H\\Downloads\\Compressed");
    assert_eq!(default_download_dir("noext", Some("H")), "H\\Downloads\\Documents");
    assert_eq!(default_download_dir("pic.png", Some("H")), "H\\Downloads\\Pictures");
    assert_eq!(default_download_dir("setup.exe", None), ".");
}

#[test]
fn referrer_comes_from_headers_or_origin() {
    assert_eq!(
        referrer_of("{\"Referer\":\"https://example.com/download-page\"}", "https://cdn.example.com/x"),
        "https://example.com/download-page"
    );
    assert_eq!(referrer_of("{\"referrer\":\"https://r.io/\"}", "https://u.io/x"), "https://r.io/");
    assert_eq!(referrer_of("{}", "https://example.com:8443/path/x.zip"), "https://example.com");
    assert_eq!(referrer_of("not json efer", "https://u.io/x"), "");
}

#[test]
fn snapshot_merges_stored_and_live_state() {
    let t = row("id1", "https://example.com/f.bin", "{}", Status::Paused, 1000);
    let chunks = vec![
        ChunkRow { idx: 0, start: 0, end: 499, done: 200 },
        ChunkRow { idx: 1, start: 500, end: 999, done: -3 },
    ];
    let (snap, memo) = merged_snapshot(&t, &chunks, None, None, None, Some(9));
    assert_eq!(snap.status, "paused");
    assert_eq!(snap.downloaded, 200);
    assert_eq!(snap.total, Some(1000));
    assert_eq!(snap.eta_secs, Some(9));
    assert_eq!(memo, EtaMemo::Keep);
    assert_eq!(snap.referrer, "https://example.com");

    let (done, memo) = merged_snapshot(&t, &chunks, Some(Status::Completed), None, None, Some(9));
    assert_eq!(done.downloaded, 1000);
    assert_eq!(done.eta_secs, None);
    assert_eq!(memo, EtaMemo::Forget);

    let run = LiveRun {
        sample: Sample {
            cells: vec![CellSample { idx: 0, start: 0, end: 1000, done: 400 }],
            downloaded: 400,
            bps: 100,
        },
        total: 0,
        url: String::new(),
        dir: "/other".into(),
        filename: String::new(),
    };
    let (live, memo) = merged_snapshot(&t, &chunks, Some(Status::Downloading), Some("x".into()), Some(run), None);
    assert_eq!(live.downloaded, 400);
    assert_eq!(live.speed_bps, 100);
    assert_eq!(live.eta_secs, Some(6));
    assert_eq!(memo, EtaMemo::Remember(6));
    assert_eq!(live.dir, "/other");
    assert_eq!(live.url, "https://example.com/f.bin");
    assert_eq!(live.error_msg.as_deref(), Some("x"));
    assert_eq!(live.segments.len(), 1);
    assert_eq!(live.segments[0].done, 400);
    assert_eq!(status_str(Status::Queued), "queued");
}

#[test]
fn samples_sum_progress_and_reset_speed() {
    let mut cells = vec![
        Cell { idx: 0, start: 0, end: 100, done: 40, speed: 30, active: true },
        Cell { idx: 1, start: 100, end: UNKNOWN_END, done: 0, speed: 20, active: true },
    ];
    let (s, at) = take_sample(&mut cells, 5000, 4000, 0);
    assert_eq!(at, 5000);
    assert_eq!(s.downloaded, 40);
    assert_eq!(s.bps, 50);
    assert_eq!(s.cells[1].end, 101);
    assert!(cells.iter().all(|c| c.speed == 0));
    let (s2, _) = take_sample(&mut cells, 5010, 5000, 0);
    assert_eq!(s2.bps, 0);
    let (s3, _) = take_sample(&mut cells, -1, 0, 777);
    assert_eq!(s3.bps, 777);
}

#[test]
fn connections_follow_size_and_settings() {
    assert_eq!(connection_count(true, Some(10 * 1024 * 1024), 8), 8);
    assert_eq!(connection_count(true, Some(2 * 524288), 8), 2);
    assert_eq!(connection_count(true, Some(100), 8), 1);
    assert_eq!(connection_count(false, Some(1 << 40), 32), 1);
    assert_eq!(connection_count(true, None, 0), 1);
    assert_eq!(connection_count(true, None, 99), 32);
}

#[test]
fn cells_for_a_new_or_resumed_transfer() {
    let rows = vec![ChunkRow { idx: 0, start: 0, end: 9, done: 5 }];
    let resumed = initial_cells(true, &rows, true, Some(10), 4);
    assert_eq!(resumed.len(), 1);
    assert_eq!((resumed[0].start, resumed[0].end, resumed[0].done), (0, 10, 5));
    let fresh = initial_cells(false, &rows, true, Some(10), 4);
    assert_eq!(fresh.len(), 4);
    assert_eq!((fresh[0].start, fresh[0].end), (0, 3));
    assert_eq!(fresh[3].end, 10);
    let single = initial_cells(false, &rows, false, Some(10), 4);
    assert_eq!(single.len(), 1);
    assert_eq!(single[0].end, UNKNOWN_END);
}

#[test]
fn files_are_prepared_by_resume_state() {
    assert_eq!(plan_file(true, Some(100), false, false), (false, FilePrep::Preallocate(100)));
    assert_eq!(plan_file(false, Some(100), false, true), (false, FilePrep::Create));
    assert_eq!(plan_file(true, Some(100), true, true), (true, FilePrep::Keep));
    assert_eq!(plan_file(true, Some(100), true, false), (true, FilePrep::Preallocate(100)));
    assert_eq!(plan_file(false, None, true, false), (false, FilePrep::Create));
    // with the partial file still there, stored progress is kept even without ranges
    assert_eq!(plan_file(false, None, true, true), (true, FilePrep::Keep));
    assert_eq!(plan_file(false, Some(100), true, true), (true, FilePrep::Keep));
}

#[test]
fn run_endings() {
    let mut t = RunTally::new();
    assert!(!t.record(DriveOutcome::Done));
    assert!(t.record(DriveOutcome::Failed("read: reset".into())));
    assert!(t.record(DriveOutcome::Failed("second".into())));
    match run_end(t, Some(Status::Downloading), 100, 0) {
        RunEnd::Failed(m) => assert_eq!(m, "read: reset"),
        _ => panic!("expected a failure"),
    }
    let mut t = RunTally::new();
    t.record(DriveOutcome::Stopped);
    assert!(matches!(run_end(t, None, 0, 0), RunEnd::Stopped));
    let t = RunTally::new();
    assert!(matches!(run_end(t, Some(Status::Downloading), 100, 100), RunEnd::Settled(Status::Completed)));
    let t = RunTally::new();
    assert!(matches!(run_end(t, Some(Status::Downloading), 100, 99), RunEnd::Settled(Status::Paused)));
    let t = RunTally::new();
    assert!(matches!(run_end(t, Some(Status::Connecting), 100, 100), RunEnd::Settled(Status::Queued)));
    let mut t = RunTally::new();
    t.record(DriveOutcome::Paused);
    assert!(matches!(run_end(t, Some(Status::Downloading), 0, 0), RunEnd::Settled(Status::Paused)));
}

#[test]
fn server_hints_replace_generic_names() {
    assert_eq!(better_filename("download", Some("report.pdf"), &Vec::new()), Some("report.pdf".into()));
    assert_eq!(better_filename("main.zip", Some("repo.zip"), &vec!["repo.zip".into()]), Some("repo (1).zip".into()));
    assert_eq!(better_filename("mine.iso", Some("other.iso"), &Vec::new()), None);
    assert_eq!(better_filename("download", Some("nodot"), &Vec::new()), None);
}

#[test]
fn ids_are_hex() {
    let a = new_id();
    assert_eq!(a.len(), 32);
    assert!(a.chars().all(|c| c.is_ascii_digit() || ('a'..='f').contains(&c)));
    assert_ne!(a, new_id());
}

#[test]
fn settings_parse_or_default() {
    assert_eq!(setting_value(Some("12"), 8), 12);
    assert_eq!(setting_value(Some("+7"), 8), 7);
    assert_eq!(setting_value(Some("x"), 8), 8);
    assert_eq!(setting_value(None, 3), 3);
}

#[test]
fn test_update_task_url_and_headers() {
    let mut s = sched(Vec::new(), 4);
    s.add_task(task("renew1", Status::Queued, 1));
    let stored = row("renew1", "https://example.com/expired-url.zip?token=old", "{}", Status::Error, 0);

    let mut fresh_headers = std::collections::HashMap::new();
    fresh_headers.insert("Cookie".to_string(), "session=abc123xyz".to_string());
    fresh_headers.insert("Referer".to_string(), "https://example.com/download-page".to_string());
    let headers_json = serde_json::to_string(&fresh_headers).unwrap();

    let new_url = "https://example.com/fresh-url.zip?token=new123";
    let url = renewal_url(new_url).unwrap();
    s.renew("renew1");
    let updated = TaskRow { url, headers_json, status: Status::Queued, ..stored };

    let (updated_snap, _) = merged_snapshot(&updated, &Vec::new(), s.status_of("renew1"), None, None, None);
    assert_eq!(updated_snap.url, new_url);
    assert_eq!(updated_snap.referrer, "https://example.com/download-page");
}

#[test]
fn new_rows_never_take_an_existing_name() {
    let taken = vec!["report.pdf".to_string(), "report (1).pdf".to_string()];
    let row = new_task_row("https://x.io/r".into(), "/d".into(), "report.pdf", &taken, Some(9), "{}".into(), 3);
    assert_eq!(row.filename, "report (2).pdf");
    assert_eq!(row.total, 9);
    assert_eq!(row.status, Status::Queued);
    let free = new_task_row("https://x.io/r".into(), "/d".into(), "new.pdf", &taken, None, "{}".into(), 3);
    assert_eq!(free.filename, "new.pdf");
    // a name the platform reads as a path still never collides
    let odd = unique_path_name(&vec!["a:b.txt".to_string()], "a:b.txt");
    assert!(odd != "a:b.txt");
    assert_eq!(better_filename("download", Some("report.pdf"), &taken).as_deref(), Some("report (2).pdf"));
}

#[test]
fn progress_survives_pause_and_resume() {
    let cells = vec![
        Cell { idx: 0, start: 0, end: 500, done: 120, speed: 0, active: false },
        Cell { idx: 1, start: 500, end: 1000, done: 300, speed: 0, active: false },
    ];
    let rows = vdm::worker::rows_of_cells(&cells);
    let (resume, _) = plan_file(true, Some(1000), any_chunk_data(&rows), true);
    assert!(resume);
    let again = initial_cells(resume, &rows, true, Some(1000), 4);
    assert_eq!(again.iter().map(|c| c.done).sum::<u64>(), 420);
    let t = row("p", "https://e.x/f", "{}", Status::Paused, 1000);
    let (snap, _) = merged_snapshot(&t, &rows, None, None, None, None);
    assert_eq!(snap.downloaded, 420);
}
