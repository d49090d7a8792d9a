use vstd::prelude::*;

verus! {

/// The polling interval of the file mode, in seconds.
pub const POLL_INTERVAL_SECONDS: u32 = 30;

/// What the polling loop does next.
#[derive(Clone, Copy, Debug, PartialEq, Eq, Structural)]
pub enum Step {
    /// Run the action now.
    Run,
    /// Sleep this many time units, then poll again.
    Wait(u64),
}

/// The decisions of a fixed-interval repeating timer whose first run is
/// immediate: the interval, and when the action last started.
#[derive(Clone, Copy, Debug, PartialEq, Eq, Structural)]
pub struct Scheduler {
    pub interval: u32,
    pub last_run: Option<u64>,
}

/// A scheduler that has not run yet.
pub open spec fn fresh(interval: u32) -> Scheduler {
    Scheduler { interval, last_run: None }
}

/// Whether the action is due at time `now`: at once if it never ran, else
/// once a full interval has passed since its last start.
pub open spec fn is_due(s: Scheduler, now: int) -> bool {
    match s.last_run {
        None => true,
        Some(t) => now >= t + s.interval,
    }
}

/// The time left until the next run, capped at the largest `u64`.
pub open spec fn time_left(s: Scheduler, now: int) -> u64 {
    match s.last_run {
        None => 0,
        Some(t) => if t + s.interval - now > u64::MAX {
            u64::MAX
        } else {
            (t + s.interval - now) as u64
        },
    }
}

/// The step taken when polled at `now`.
pub open spec fn step_at(s: Scheduler, now: int) -> Step {
    if is_due(s, now) {
        Step::Run
    } else {
        Step::Wait(time_left(s, now))
    }
}

/// The state after a poll at `now`: a run records its start, a wait changes
/// nothing.
pub open spec fn state_after(s: Scheduler, now: int) -> Scheduler {
    if is_due(s, now) {
        Scheduler { interval: s.interval, last_run: Some(now as u64) }
    } else {
        s
    }
}

impl Scheduler {
    /// A scheduler with the given interval that has not run yet.
    pub fn new(interval: u32) -> (r: Scheduler)
        ensures
            r == fresh(interval),
    {
        Scheduler { interval, last_run: None }
    }

    /// Decides, at time `now`, whether the action runs or how long to wait.
    /// A slow run only delays the next one: runs are never queued.
    pub fn poll(&mut self, now: u64) -> (r: Step)
        ensures
            r == step_at(*old(self), now as int),
            *final(self) == state_after(*old(self), now as int),
    {
        let interval = self.interval as u64;
        match self.last_run {
            None => {
                self.last_run = Some(now);
                Step::Run
            },
            Some(t) => {
                if now >= t {
                    let elapsed = now - t;
                    if elapsed >= interval {
                        self.last_run = Some(now);
                        Step::Run
                    } else {
                        Step::Wait(interval - elapsed)
                    }
                } else {
                    let ahead = t - now;
                    if ahead > u64::MAX - interval {
                        Step::Wait(u64::MAX)
                    } else {
                        Step::Wait(ahead + interval)
                    }
                }
            },
        }
    }
}

/// A new timer runs its action at the first poll, and then not again until a
/// full interval after that first start; from then on it runs at every poll
/// until it next runs.
pub proof fn lemma_runs_at_once_then_after_interval(interval: u32, start: u64, now: u64)
    ensures
        step_at(fresh(interval), start as int) == Step::Run,
        state_after(fresh(interval), start as int).last_run == Some(start),
        now < start + interval ==> step_at(state_after(fresh(interval), start as int), now as int)
            != Step::Run,
        now >= start + interval ==> step_at(state_after(fresh(interval), start as int), now as int)
            == Step::Run,
{
}

/// Whatever has happened before, once the action has run it runs again at a
/// poll exactly when a full interval has passed since its last start, and that
/// run becomes the new last start; a poll that does not run leaves the state
/// unchanged.
pub proof fn lemma_runs_repeat_every_interval(s: Scheduler, last: u64, now: u64)
    requires
        s.last_run == Some(last),
    ensures
        step_at(s, now as int) == Step::Run <==> now >= last + s.interval,
        step_at(s, now as int) == Step::Run ==> state_after(s, now as int) == (Scheduler {
            interval: s.interval,
            last_run: Some(now),
        }),
        step_at(s, now as int) != Step::Run ==> state_after(s, now as int) == s,
{
}

} // verus!
