//! Repeating passes at a fixed interval.
//!
//! The schedule is a state machine too. The caller reads the clock, runs
//! the pass and sleeps; the machine counts the runs, refuses to begin a
//! pass while one is running, and says how long to wait before the next.
//! Whether a pass succeeded is no input of the schedule: a failed pass is
//! followed by the next like any other.

use vstd::prelude::*;

verus! {

/// The nanoseconds in a second.
pub const NANOS_PER_SEC: u128 = 1_000_000_000;

/// Where a schedule stands between its cycles.
#[derive(Debug, Clone, Copy, PartialEq, Eq, Structural)]
pub enum SchedulePhase {
    /// No pass is running and the next may begin at once.
    Idle,
    /// A pass is running.
    Running,
    /// No pass is running; the next begins after a wait.
    Waiting,
}

/// What to do before the next cycle.
#[derive(Debug, Clone, Copy, PartialEq, Eq, Structural)]
pub enum NextCycle {
    /// Sleep for so many nanoseconds, then begin.
    Sleep { nanos: u128 },
    /// Begin at once: the pass took the whole interval or more.
    Immediately,
}

/// The state of a schedule. It lives as long as the process and is kept
/// nowhere else. Times are nanoseconds since a fixed instant of the
/// caller's choice.
#[derive(Debug, Clone, Copy)]
pub struct ScheduleState {
    /// How many passes have begun.
    pub run_count: u64,
    /// When the last pass began.
    pub last_start: Option<u128>,
    /// How long the last completed pass took.
    pub last_elapsed: Option<u128>,
    pub phase: SchedulePhase,
}

/// The time from `start` to `end`, or nothing where the clock went back.
pub open spec fn elapsed_between(start: u128, end: u128) -> u128 {
    if end >= start {
        (end - start) as u128
    } else {
        0
    }
}

/// The wait after a pass that took `elapsed` nanoseconds, in nanoseconds:
/// what is left of the interval, or nothing where the pass took as long or
/// longer.
pub open spec fn wait_nanos(interval_seconds: u64, elapsed: u128) -> int {
    let interval = interval_seconds * NANOS_PER_SEC;
    if elapsed < interval {
        interval - elapsed
    } else {
        0
    }
}

/// What to do after a wait of `wait` nanoseconds was computed.
pub open spec fn next_cycle(wait: int) -> NextCycle {
    if wait > 0 {
        NextCycle::Sleep { nanos: wait as u128 }
    } else {
        NextCycle::Immediately
    }
}

/// The wait before the next cycle, in nanoseconds, after a pass that took
/// `elapsed` nanoseconds of an interval of `interval_seconds` seconds. A
/// pass and the wait after it take the interval together, unless the pass
/// alone took longer.
pub fn wait_time(interval_seconds: u64, elapsed: u128) -> (wait: u128)
    ensures
        wait == wait_nanos(interval_seconds, elapsed),
        elapsed < interval_seconds * NANOS_PER_SEC ==> elapsed + wait == interval_seconds
            * NANOS_PER_SEC,
        elapsed >= interval_seconds * NANOS_PER_SEC ==> wait == 0,
{
    let interval: u128 = (interval_seconds as u128) * NANOS_PER_SEC;
    if elapsed < interval {
        interval - elapsed
    } else {
        0
    }
}

impl ScheduleState {
    /// The schedule after a pass began at `now`.
    pub open spec fn begun(self, now: u128) -> ScheduleState {
        ScheduleState {
            run_count: (self.run_count + 1) as u64,
            last_start: Some(now),
            phase: SchedulePhase::Running,
            ..self
        }
    }

    /// How long the running pass took if it ended at `now`.
    pub open spec fn elapsed_at(self, now: u128) -> u128 {
        match self.last_start {
            Some(start) => elapsed_between(start, now),
            None => 0,
        }
    }

    /// The schedule after the running pass ended at `now`.
    pub open spec fn completed(self, now: u128, interval_seconds: u64) -> ScheduleState {
        ScheduleState {
            last_elapsed: Some(self.elapsed_at(now)),
            phase: if wait_nanos(interval_seconds, self.elapsed_at(now)) > 0 {
                SchedulePhase::Waiting
            } else {
                SchedulePhase::Idle
            },
            ..self
        }
    }

    /// A schedule on which nothing has run yet.
    pub fn new() -> (state: ScheduleState)
        ensures
            state.run_count == 0,
            state.last_start is None,
            state.last_elapsed is None,
            state.phase == SchedulePhase::Idle,
    {
        ScheduleState {
            run_count: 0,
            last_start: None,
            last_elapsed: None,
            phase: SchedulePhase::Idle,
        }
    }

    /// Begins a cycle at `now` and returns its number, counted from one.
    /// While a pass is running no other begins: the call then returns
    /// `None` and changes nothing.
    pub fn begin_cycle(&mut self, now: u128) -> (run: Option<u64>)
        requires
            old(self).run_count < u64::MAX,
        ensures
            old(self).phase == SchedulePhase::Running ==> run is None && *final(self) == *old(
                self,
            ),
            old(self).phase != SchedulePhase::Running ==> run == Some(
                (old(self).run_count + 1) as u64,
            ) && *final(self) == old(self).begun(now),
    {
        match self.phase {
            SchedulePhase::Running => None,
            _ => {
                self.run_count = self.run_count + 1;
                self.last_start = Some(now);
                self.phase = SchedulePhase::Running;
                Some(self.run_count)
            },
        }
    }

    /// Ends the running cycle at `now` and says what to do before the
    /// next: sleep for what is left of the interval, or begin at once.
    /// However the pass ended, the next cycle may begin after that.
    /// Where no pass is running the call returns `None` and changes
    /// nothing.
    pub fn complete_cycle(&mut self, now: u128, interval_seconds: u64) -> (next: Option<NextCycle>)
        ensures
            old(self).phase != SchedulePhase::Running ==> next is None && *final(self) == *old(
                self,
            ),
            old(self).phase == SchedulePhase::Running ==> next == Some(
                next_cycle(wait_nanos(interval_seconds, old(self).elapsed_at(now))),
            ) && *final(self) == old(self).completed(now, interval_seconds),
            final(self).phase == SchedulePhase::Running ==> old(self).phase
                != SchedulePhase::Running,
    {
        match self.phase {
            SchedulePhase::Running => {
                let elapsed: u128 = match self.last_start {
                    Some(start) => if now >= start {
                        now - start
                    } else {
                        0
                    },
                    None => 0,
                };
                let wait = wait_time(interval_seconds, elapsed);
                self.last_elapsed = Some(elapsed);
                if wait > 0 {
                    self.phase = SchedulePhase::Waiting;
                    Some(NextCycle::Sleep { nanos: wait })
                } else {
                    self.phase = SchedulePhase::Idle;
                    Some(NextCycle::Immediately)
                }
            },
            _ => None,
        }
    }
}

/// How a run is driven.
#[derive(Debug, Clone, Copy, PartialEq, Eq, Structural)]
pub enum RunMode {
    /// One pass, then the process ends.
    Once,
    /// Pass after pass, one interval apart.
    Every { interval_seconds: u64 },
}

/// The mode that the optional interval selects: repeating where it is
/// given, a single pass where it is not.
pub fn run_mode(interval: Option<u64>) -> (mode: RunMode)
    ensures
        mode == match interval {
            Some(interval_seconds) => RunMode::Every { interval_seconds },
            None => RunMode::Once,
        },
{
    match interval {
        Some(interval_seconds) => RunMode::Every { interval_seconds },
        None => RunMode::Once,
    }
}

/// The exit code of a single pass: zero where it succeeded, one where it
/// did not.
pub fn exit_code(succeeded: bool) -> (code: i32)
    ensures
        code == if succeeded {
            0i32
        } else {
            1i32
        },
{
    if succeeded {
        0
    } else {
        1
    }
}

/// Cycles never overlap and never stall: from a schedule that is not
/// running, a cycle begins; while it runs, no second one begins; and once
/// it is completed, whatever the times, the next one begins.
pub proof fn lemma_cycles_alternate(state: ScheduleState, start: u128, end: u128, interval_seconds: u64)
    requires
        state.phase != SchedulePhase::Running,
    ensures
        state.begun(start).phase == SchedulePhase::Running,
        state.begun(start).completed(end, interval_seconds).phase != SchedulePhase::Running,
        state.begun(start).completed(end, interval_seconds).run_count == state.begun(
            start,
        ).run_count,
{
}

/// The wait makes up for the time the pass took: a pass that began at
/// `start` and ended at `end` within the interval is followed by the next
/// exactly one interval after `start`; one that took longer is followed at
/// once.
pub proof fn lemma_fixed_cadence(state: ScheduleState, start: u128, end: u128, interval_seconds: u64)
    requires
        start <= end,
    ensures
        ({
            let wait = wait_nanos(interval_seconds, state.begun(start).elapsed_at(end));
            &&& end - start < interval_seconds * NANOS_PER_SEC ==> end + wait == start
                + interval_seconds * NANOS_PER_SEC
            &&& end - start >= interval_seconds * NANOS_PER_SEC ==> wait == 0
            &&& 0 <= wait <= interval_seconds * NANOS_PER_SEC
        }),
{
}

} // verus!
