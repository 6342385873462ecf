//! What the application watches over a session: the countdown before the
//! machine is shut down, when that countdown is started ("shut down when
//! done"), and which completed downloads are new since the last look.
use vstd::prelude::*;
use crate::text::{chars_of, eq_lit};

verus! {

/// Seconds the shutdown countdown runs before it fires.
pub const COUNTDOWN_SECONDS: i32 = 30;

// ------------------------------------------------------------------
// the countdown
// ------------------------------------------------------------------

/// The shutdown countdown: whether it runs and how many seconds are left.
pub struct Countdown {
    pub active: bool,
    pub seconds: i32,
}

/// What one second of the countdown brings.
#[derive(PartialEq, Eq, Structural, Debug, Clone, Copy)]
pub enum Tick {
    /// The countdown was cancelled: nothing more happens.
    Stopped,
    /// Still counting: this many seconds are left.
    Remaining(i32),
    /// The time is up: shut the machine down.
    Fire,
}

impl Countdown {
    /// Seconds stay between zero and the full count, and a running
    /// countdown has at least one second left.
    pub open spec fn wf(self) -> bool {
        &&& 0 <= self.seconds <= COUNTDOWN_SECONDS
        &&& self.active ==> self.seconds >= 1
    }

    pub open spec fn tick_spec(self) -> (Countdown, Tick) {
        if !self.active {
            (self, Tick::Stopped)
        } else if self.seconds - 1 <= 0 {
            (Countdown { active: false, seconds: (self.seconds - 1) as i32 }, Tick::Fire)
        } else {
            (
                Countdown { active: true, seconds: (self.seconds - 1) as i32 },
                Tick::Remaining((self.seconds - 1) as i32),
            )
        }
    }

    /// An idle countdown with the full count loaded.
    pub fn new() -> (c: Countdown)
        ensures
            c.wf(),
            !c.active,
            c.seconds == COUNTDOWN_SECONDS,
    {
        Countdown { active: false, seconds: COUNTDOWN_SECONDS }
    }

    /// Starts the countdown from the full count. A countdown that already
    /// runs is left as it is, and `false` says so.
    pub fn start(&mut self) -> (started: bool)
        requires
            old(self).wf(),
        ensures
            final(self).wf(),
            started == !old(self).active,
            started ==> *final(self) == (Countdown { active: true, seconds: COUNTDOWN_SECONDS }),
            !started ==> *final(self) == *old(self),
    {
        if self.active {
            return false;
        }
        self.active = true;
        self.seconds = COUNTDOWN_SECONDS;
        true
    }

    /// Cancels the countdown; the count that was left stays.
    pub fn abort(&mut self)
        requires
            old(self).wf(),
        ensures
            final(self).wf(),
            !final(self).active,
            final(self).seconds == old(self).seconds,
    {
        self.active = false;
    }

    /// One second passes.
    pub fn tick(&mut self) -> (t: Tick)
        requires
            old(self).wf(),
        ensures
            final(self).wf(),
            (*final(self), t) == old(self).tick_spec(),
    {
        if !self.active {
            return Tick::Stopped;
        }
        let remaining = self.seconds - 1;
        self.seconds = remaining;
        if remaining <= 0 {
            self.active = false;
            Tick::Fire
        } else {
            Tick::Remaining(remaining)
        }
    }
}

/// What `n` seconds of a countdown bring, one tick each.
pub open spec fn run_ticks(c: Countdown, n: nat) -> Seq<Tick>
    decreases n,
{
    if n == 0 {
        Seq::empty()
    } else {
        seq![c.tick_spec().1] + run_ticks(c.tick_spec().0, (n - 1) as nat)
    }
}

/// What a running countdown with `s` seconds left shows, second by second:
/// the seconds that remain, then the shutdown.
pub open spec fn full_run(s: int) -> Seq<Tick> {
    Seq::new(s as nat, |i: int| if i < s - 1 { Tick::Remaining((s - 1 - i) as i32) } else { Tick::Fire })
}

/// A running countdown counts down second by second and fires exactly when
/// its time is up.
pub proof fn lemma_countdown_runs_out(c: Countdown)
    requires
        c.wf(),
        c.active,
    ensures
        run_ticks(c, c.seconds as nat) == full_run(c.seconds as int),
    decreases c.seconds,
{
    let (c2, t) = c.tick_spec();
    if c.seconds == 1 {
        assert(run_ticks(c2, 0) == Seq::<Tick>::empty());
        assert(run_ticks(c, 1) =~= full_run(1));
    } else {
        lemma_countdown_runs_out(c2);
        assert(run_ticks(c, c.seconds as nat) =~= full_run(c.seconds as int));
    }
}

/// A countdown that does not run (cancelled, or already fired) never fires.
pub proof fn lemma_stopped_countdown_stays_quiet(c: Countdown, n: nat)
    requires
        !c.active,
    ensures
        run_ticks(c, n) == Seq::new(n, |i: int| Tick::Stopped),
    decreases n,
{
    if n > 0 {
        lemma_stopped_countdown_stays_quiet(c, (n - 1) as nat);
        assert(run_ticks(c, n) =~= Seq::new(n, |i: int| Tick::Stopped));
    }
}

// ------------------------------------------------------------------
// shut down when done
// ------------------------------------------------------------------

/// A task status that means work is still going on.
pub open spec fn busy_status(s: Seq<char>) -> bool {
    s == "downloading"@ || s == "connecting"@ || s == "queued"@ || s == "processing"@
}

pub fn is_busy(status: &str) -> (r: bool)
    ensures
        r == busy_status(status@),
{
    let v = chars_of(status);
    eq_lit(&v, "downloading") || eq_lit(&v, "connecting") || eq_lit(&v, "queued") || eq_lit(
        &v,
        "processing",
    )
}

/// Some task in the list is still at work.
pub open spec fn any_busy(statuses: Seq<String>) -> bool {
    exists|i: int| 0 <= i < statuses.len() && busy_status(#[trigger] statuses[i]@)
}

pub fn some_busy(statuses: &Vec<String>) -> (r: bool)
    ensures
        r == any_busy(statuses@),
{
    for i in 0..statuses.len()
        invariant
            forall|j: int| 0 <= j < i ==> !busy_status(#[trigger] statuses@[j]@),
    {
        if is_busy(statuses[i].as_str()) {
            return true;
        }
    }
    false
}

/// Whether the user asked to shut down once the downloads are done, and
/// whether downloads have been at work since the countdown last started.
pub struct ShutdownWatch {
    pub armed: bool,
    pub had_active: bool,
}

/// One look at the task list: work seen is remembered, and when the user
/// asked for it and the work that was going on is over, the countdown is
/// due; the request is then used up.
pub open spec fn observe_spec(w: ShutdownWatch, busy: bool) -> (ShutdownWatch, bool) {
    let had = w.had_active || busy;
    if w.armed && !busy && had {
        (ShutdownWatch { armed: false, had_active: false }, true)
    } else {
        (ShutdownWatch { armed: w.armed, had_active: had }, false)
    }
}

impl ShutdownWatch {
    pub fn new() -> (w: ShutdownWatch)
        ensures
            !w.armed,
            !w.had_active,
    {
        ShutdownWatch { armed: false, had_active: false }
    }

    /// The user ticks or unticks "shut down when done".
    pub fn set_armed(&mut self, on: bool)
        ensures
            final(self).armed == on,
            final(self).had_active == old(self).had_active,
    {
        self.armed = on;
    }

    /// A progress window closes; the request stays only if one of the
    /// windows still open asks for it too.
    pub fn window_closed(&mut self, others_armed: &Vec<bool>)
        ensures
            final(self).armed == (old(self).armed && exists|i: int|
                0 <= i < others_armed@.len() && #[trigger] others_armed@[i]),
            final(self).had_active == old(self).had_active,
    {
        let mut any = false;
        for i in 0..others_armed.len()
            invariant
                any == exists|j: int| 0 <= j < i && #[trigger] others_armed@[j],
        {
            if others_armed[i] {
                any = true;
            }
        }
        if !any {
            self.armed = false;
        }
    }

    /// One look at the statuses of all tasks; `true` says that the
    /// shutdown countdown is to start now.
    pub fn observe(&mut self, statuses: &Vec<String>) -> (start: bool)
        ensures
            (*final(self), start) == observe_spec(*old(self), any_busy(statuses@)),
    {
        let busy = some_busy(statuses);
        if busy {
            self.had_active = true;
        }
        if self.armed && !busy && self.had_active {
            self.armed = false;
            self.had_active = false;
            return true;
        }
        false
    }
}

/// The user cancels the shutdown: the countdown stops and the request
/// to shut down when done is dropped.
pub fn abort_shutdown(countdown: &mut Countdown, watch: &mut ShutdownWatch)
    requires
        old(countdown).wf(),
    ensures
        final(countdown).wf(),
        !final(countdown).active,
        final(countdown).seconds == old(countdown).seconds,
        !final(watch).armed,
        final(watch).had_active == old(watch).had_active,
{
    countdown.abort();
    watch.set_armed(false);
}

/// Once the countdown has been called for, later looks do not call for it
/// again until the user asks anew.
pub proof fn lemma_watch_starts_once(w: ShutdownWatch, busy: bool, later: Seq<bool>)
    requires
        observe_spec(w, busy).1,
    ensures
        forall|k: int|
            0 <= k <= later.len() ==> !#[trigger] watch_after(observe_spec(w, busy).0, later.take(k)).armed,
        forall|k: int|
            0 <= k < later.len() ==> !#[trigger] observe_spec(
                watch_after(observe_spec(w, busy).0, later.take(k)),
                later[k],
            ).1,
{
    let w1 = observe_spec(w, busy).0;
    assert forall|k: int| 0 <= k <= later.len() implies !#[trigger] watch_after(w1, later.take(k)).armed by {
        lemma_unarmed_stays_unarmed(w1, later.take(k));
    }
    assert forall|k: int| 0 <= k < later.len() implies !#[trigger] observe_spec(
        watch_after(w1, later.take(k)),
        later[k],
    ).1 by {
        lemma_unarmed_stays_unarmed(w1, later.take(k));
    }
}

/// The watch after a series of looks, each seeing work or not.
pub open spec fn watch_after(w: ShutdownWatch, looks: Seq<bool>) -> ShutdownWatch
    decreases looks.len(),
{
    if looks.len() == 0 {
        w
    } else {
        observe_spec(watch_after(w, looks.drop_last()), looks.last()).0
    }
}

proof fn lemma_unarmed_stays_unarmed(w: ShutdownWatch, looks: Seq<bool>)
    requires
        !w.armed,
    ensures
        !watch_after(w, looks).armed,
    decreases looks.len(),
{
    if looks.len() > 0 {
        lemma_unarmed_stays_unarmed(w, looks.drop_last());
    }
}

/// The countdown is called for only when the user asked for it, nothing is
/// at work now, and something was at work before.
pub proof fn lemma_watch_needs_finished_work(w: ShutdownWatch, busy: bool)
    requires
        observe_spec(w, busy).1,
    ensures
        w.armed,
        !busy,
        w.had_active,
{
}

// ------------------------------------------------------------------
// completion popups
// ------------------------------------------------------------------

/// `x` is among the ids in `seen`.
pub open spec fn among(seen: Seq<String>, x: Seq<char>) -> bool {
    exists|k: int| 0 <= k < seen.len() && #[trigger] seen[k]@ == x
}

/// One of the first `n` tasks of the list is complete and has the id `x`.
pub open spec fn done_before(ids: Seq<String>, statuses: Seq<String>, n: int, x: Seq<char>) -> bool {
    exists|j: int| 0 <= j < n && statuses[j]@ == "completed"@ && #[trigger] ids[j]@ == x
}

/// Task `i` of the list is complete and its id was neither seen before nor
/// reported complete earlier in the list.
pub open spec fn fresh_at(seen: Seq<String>, ids: Seq<String>, statuses: Seq<String>, i: int) -> bool {
    &&& statuses[i]@ == "completed"@
    &&& !among(seen, ids[i]@)
    &&& !done_before(ids, statuses, i, ids[i]@)
}

proof fn lemma_done_before_step(ids: Seq<String>, statuses: Seq<String>, n: int, x: Seq<char>)
    requires
        0 <= n,
    ensures
        done_before(ids, statuses, n + 1, x) <==> (done_before(ids, statuses, n, x) || (
        statuses[n]@ == "completed"@ && ids[n]@ == x)),
{
    if done_before(ids, statuses, n + 1, x) {
        let j = choose|j: int|
            0 <= j < n + 1 && statuses[j]@ == "completed"@ && #[trigger] ids[j]@ == x;
        if j < n {
            assert(done_before(ids, statuses, n, x));
        }
    }
    if done_before(ids, statuses, n, x) {
        let j = choose|j: int| 0 <= j < n && statuses[j]@ == "completed"@ && #[trigger] ids[j]@ == x;
        assert(done_before(ids, statuses, n + 1, x));
    }
}

/// The positions of the tasks whose completion is news, in list order; their
/// ids are added to `seen`, so each completion is announced once.
pub fn fresh_completions(seen: &mut Vec<String>, ids: &Vec<String>, statuses: &Vec<String>) -> (r: Vec<
    usize,
>)
    requires
        ids.len() == statuses.len(),
    ensures
        forall|k: int| 0 <= k < r@.len() ==> #[trigger] r@[k] < ids.len(),
        forall|k: int, l: int| 0 <= k < l < r@.len() ==> r@[k] < r@[l],
        forall|k: int|
            0 <= k < r@.len() ==> fresh_at(old(seen)@, ids@, statuses@, #[trigger] r@[k] as int),
        forall|i: int|
            0 <= i < ids.len() && fresh_at(old(seen)@, ids@, statuses@, i) ==> exists|k: int|
                0 <= k < r@.len() && #[trigger] r@[k] == i,
        final(seen)@.len() == old(seen)@.len() + r@.len(),
        final(seen)@.subrange(0, old(seen)@.len() as int) == old(seen)@,
        forall|k: int|
            0 <= k < r@.len() ==> #[trigger] final(seen)@[old(seen)@.len() + k] == ids@[r@[k] as int],
        // announced once: the same list looked at again brings no news
        forall|i: int| 0 <= i < ids.len() ==> !#[trigger] fresh_at(final(seen)@, ids@, statuses@, i),
{
    let ghost orig = seen@;
    let mut r: Vec<usize> = Vec::new();
    for i in 0..ids.len()
        invariant
            ids.len() == statuses.len(),
            seen@.len() == orig.len() + r@.len(),
            seen@.subrange(0, orig.len() as int) == orig,
            forall|k: int| 0 <= k < r@.len() ==> #[trigger] seen@[orig.len() + k] == ids@[r@[k] as int],
            forall|k: int| 0 <= k < r@.len() ==> #[trigger] r@[k] < i,
            forall|k: int, l: int| 0 <= k < l < r@.len() ==> r@[k] < r@[l],
            forall|k: int| 0 <= k < r@.len() ==> fresh_at(orig, ids@, statuses@, #[trigger] r@[k] as int),
            forall|j: int|
                0 <= j < i && fresh_at(orig, ids@, statuses@, j) ==> exists|k: int|
                    0 <= k < r@.len() && #[trigger] r@[k] == j,
            // `seen` holds the old ids and the completed ones passed so far
            forall|x: Seq<char>|
                #![trigger among(seen@, x)]
                among(seen@, x) <==> (among(orig, x) || done_before(ids@, statuses@, i as int, x)),
    {
        let ghost before = seen@;
        let ghost old_r = r@;
        let done = eq_lit(&chars_of(statuses[i].as_str()), "completed");
        let mut pushed = false;
        if done {
            let mut known = false;
            let mut k: usize = 0;
            while k < seen.len()
                invariant
                    i < ids.len(),
                    k <= seen.len(),
                    known == exists|m: int| 0 <= m < k && #[trigger] seen@[m]@ == ids@[i as int]@,
                decreases seen.len() - k,
            {
                if seen[k] == ids[i] {
                    known = true;
                }
                k = k + 1;
            }
            assert(known == among(seen@, ids@[i as int]@));
            if !known {
                assert(fresh_at(orig, ids@, statuses@, i as int));
                seen.push(ids[i].clone());
                r.push(i);
                pushed = true;
            }
        }
        proof {
            assert(pushed <==> fresh_at(orig, ids@, statuses@, i as int));
            assert forall|x: Seq<char>| #![trigger among(seen@, x)]
                among(seen@, x) <==> (among(orig, x) || done_before(ids@, statuses@, i + 1, x)) by {
                lemma_done_before_step(ids@, statuses@, i as int, x);
                if pushed {
                    if among(seen@, x) {
                        let m = choose|m: int| 0 <= m < seen@.len() && #[trigger] seen@[m]@ == x;
                        if m < before.len() {
                            assert(before[m]@ == x);
                            assert(among(before, x));
                        }
                    }
                    if among(before, x) {
                        let m = choose|m: int| 0 <= m < before.len() && #[trigger] before[m]@ == x;
                        assert(seen@[m]@ == x);
                    }
                    if x == ids@[i as int]@ {
                        assert(seen@[before.len() as int]@ == x);
                    }
                } else if done && x == ids@[i as int]@ {
                    assert(among(seen@, ids@[i as int]@));
                }
            }
            if pushed {
                assert(seen@.subrange(0, orig.len() as int) =~= before.subrange(0, orig.len() as int));
            }
            assert forall|j: int|
                0 <= j < i + 1 && fresh_at(orig, ids@, statuses@, j) implies exists|k: int|
                0 <= k < r@.len() && #[trigger] r@[k] == j by {
                if j < i {
                    let k = choose|k: int| 0 <= k < old_r.len() && #[trigger] old_r[k] == j;
                    assert(r@[k] == j);
                } else {
                    assert(r@[r@.len() - 1] == j);
                }
            }
        }
    }
    proof {
        assert forall|i: int| 0 <= i < ids.len() implies !#[trigger] fresh_at(seen@, ids@, statuses@, i) by {
            if statuses@[i]@ == "completed"@ {
                assert(done_before(ids@, statuses@, ids.len() as int, ids@[i]@));
                assert(among(seen@, ids@[i]@));
            }
        }
    }
    r
}

} // verus!
