use vdm::session::{
    abort_shutdown, fresh_completions, is_busy, some_busy, Countdown, ShutdownWatch, Tick, COUNTDOWN_SECONDS,
};

fn strings(v: &[&str]) -> Vec<String> {
    v.iter().map(|s| s.to_string()).collect()
}

#[test]
fn countdown_counts_down_then_fires_once() {
    let mut c = Countdown::new();
    assert!(!c.active);
    assert!(c.start());
    assert_eq!(c.seconds, COUNTDOWN_SECONDS);
    for left in (1..30).rev() {
        assert_eq!(c.tick(), Tick::Remaining(left));
    }
    assert_eq!(c.tick(), Tick::Fire);
    assert!(!c.active);
    assert_eq!(c.tick(), Tick::Stopped);
    assert_eq!(c.tick(), Tick::Stopped);
}

#[test]
fn countdown_start_while_running_changes_nothing() {
    let mut c = Countdown::new();
    assert!(c.start());
    assert_eq!(c.tick(), Tick::Remaining(29));
    assert!(!c.start());
    assert_eq!(c.seconds, 29);
    assert_eq!(c.tick(), Tick::Remaining(28));
}

#[test]
fn aborted_countdown_never_fires() {
    let mut c = Countdown::new();
    c.start();
    c.tick();
    c.abort();
    assert_eq!(c.seconds, 29);
    for _ in 0..40 {
        assert_eq!(c.tick(), Tick::Stopped);
    }
    // it can be started again from the full count
    assert!(c.start());
    assert_eq!(c.seconds, 30);
}

#[test]
fn busy_statuses() {
    for s in ["downloading", "connecting", "queued", "processing"] {
        assert!(is_busy(s));
    }
    for s in ["completed", "paused", "error", "idle", "Downloading"] {
        assert!(!is_busy(s));
    }
    assert!(some_busy(&strings(&["completed", "queued"])));
    assert!(!some_busy(&strings(&["completed", "paused"])));
    assert!(!some_busy(&Vec::new()));
}

#[test]
fn watch_starts_countdown_after_work_finishes() {
    let mut w = ShutdownWatch::new();
    w.set_armed(true);
    assert!(!w.observe(&strings(&["downloading", "completed"])));
    assert!(w.had_active);
    assert!(w.observe(&strings(&["completed", "completed"])));
    // used up: no second start
    assert!(!w.armed);
    assert!(!w.observe(&strings(&["completed"])));
    assert!(!w.observe(&strings(&["downloading"])));
    assert!(!w.observe(&strings(&["completed"])));
}

#[test]
fn watch_needs_work_in_this_session() {
    let mut w = ShutdownWatch::new();
    w.set_armed(true);
    assert!(!w.observe(&strings(&["completed", "paused"])));
    assert!(w.armed);
    assert!(!w.observe(&strings(&["queued"])));
    assert!(w.observe(&strings(&["paused"])));
}

#[test]
fn watch_unarmed_never_starts() {
    let mut w = ShutdownWatch::new();
    assert!(!w.observe(&strings(&["downloading"])));
    assert!(!w.observe(&strings(&["completed"])));
    assert!(w.had_active);
    w.set_armed(true);
    assert!(w.observe(&strings(&["completed"])));
}

#[test]
fn closing_a_window_keeps_request_only_if_another_asks() {
    let mut w = ShutdownWatch::new();
    w.set_armed(true);
    w.window_closed(&vec![false, true]);
    assert!(w.armed);
    w.window_closed(&vec![false, false]);
    assert!(!w.armed);
    w.set_armed(false);
    w.window_closed(&vec![true]);
    assert!(!w.armed);
}

#[test]
fn completions_are_announced_once() {
    let mut seen = strings(&["old"]);
    let ids = strings(&["old", "a", "b", "c", "a"]);
    let st = strings(&["completed", "completed", "downloading", "completed", "completed"]);
    let r = fresh_completions(&mut seen, &ids, &st);
    assert_eq!(r, vec![1, 3]);
    assert_eq!(seen, strings(&["old", "a", "c"]));
    let again = fresh_completions(&mut seen, &ids, &st);
    assert!(again.is_empty());
    assert_eq!(seen.len(), 3);
    let st2 = strings(&["completed", "completed", "completed", "completed", "completed"]);
    assert_eq!(fresh_completions(&mut seen, &ids, &st2), vec![2]);
    assert_eq!(seen, strings(&["old", "a", "c", "b"]));
}

#[test]
fn cancelling_the_shutdown_stops_everything() {
    let mut c = Countdown::new();
    let mut w = ShutdownWatch::new();
    w.set_armed(true);
    assert!(!w.observe(&strings(&["downloading"])));
    assert!(w.observe(&strings(&["completed"])));
    assert!(c.start());
    assert_eq!(c.tick(), Tick::Remaining(29));
    w.set_armed(true);
    abort_shutdown(&mut c, &mut w);
    assert!(!w.armed);
    assert!(!c.active);
    assert_eq!(c.tick(), Tick::Stopped);
}
