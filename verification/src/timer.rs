//! Timer engine: start time, target duration, and the derived elapsed /
//! progress / completion values. All functions are pure over explicit
//! timestamps, so the clock is injected by the caller.

use vstd::prelude::*;

verus! {

/// A running (or ready-to-run) timer: when it started and how long it runs.
/// Timestamps and durations are whole seconds.
pub struct TimerState {
    /// Clock reading, in seconds, at the moment the timer was started.
    pub started_at: u64,
    /// Requested duration of the countdown, in seconds.
    pub target_secs: u64,
}

/// Progress of a countdown as an exact rational `num / den`.
///
/// It is not clamped: a slow observer may see a value above one. Consumers
/// treat any ratio at or above one as "complete".
pub struct Ratio {
    pub num: u64,
    pub den: u64,
}

/// A ratio is well formed when its denominator is positive.
pub open spec fn ratio_wf(r: Ratio) -> bool {
    r.den >= 1
}

/// `a <= b` as rationals, by cross-multiplication.
pub open spec fn ratio_le(a: Ratio, b: Ratio) -> bool {
    a.num * b.den <= b.num * a.den
}

/// A ratio at or above one: the countdown is over.
pub open spec fn ratio_full(r: Ratio) -> bool {
    r.num >= r.den
}

/// Seconds elapsed since the timer started, as seen at `now`.
pub open spec fn elapsed_spec(s: TimerState, now: u64) -> int {
    now - s.started_at
}

/// Progress of the countdown at `now`: elapsed over target. A zero target is
/// degenerate (the division has no value) and is treated as immediately
/// complete, so it maps to the ratio one.
pub open spec fn progress_spec(s: TimerState, now: u64) -> Ratio {
    if s.target_secs == 0 {
        Ratio { num: 1, den: 1 }
    } else {
        Ratio { num: (now - s.started_at) as u64, den: s.target_secs }
    }
}

/// The countdown is complete when the elapsed time has reached the target.
pub open spec fn is_complete_spec(s: TimerState, now: u64) -> bool {
    elapsed_spec(s, now) >= s.target_secs
}

impl TimerState {
    /// Start a countdown of `target_secs` at clock reading `now`.
    pub fn start(now: u64, target_secs: u64) -> (s: TimerState)
        ensures
            s.started_at == now,
            s.target_secs == target_secs,
    {
        TimerState { started_at: now, target_secs }
    }
}

/// Seconds elapsed since the timer started. The clock is monotone, so a
/// reading taken after the start is never below `started_at`.
pub fn elapsed(s: &TimerState, now: u64) -> (e: u64)
    requires
        now >= s.started_at,
    ensures
        e == elapsed_spec(*s, now),
{
    now - s.started_at
}

/// Progress of the countdown at `now`, as an exact rational.
pub fn progress(s: &TimerState, now: u64) -> (r: Ratio)
    requires
        now >= s.started_at,
    ensures
        r == progress_spec(*s, now),
        ratio_wf(r),
{
    if s.target_secs == 0 {
        Ratio { num: 1, den: 1 }
    } else {
        Ratio { num: now - s.started_at, den: s.target_secs }
    }
}

/// Completion test: true exactly when the elapsed time has reached the
/// target duration.
pub fn is_complete(s: &TimerState, now: u64) -> (b: bool)
    requires
        now >= s.started_at,
    ensures
        b == is_complete_spec(*s, now),
{
    now - s.started_at >= s.target_secs
}

/// With the state fixed, progress never decreases as the clock advances.
pub proof fn lemma_progress_monotone(s: TimerState, now1: u64, now2: u64)
    requires
        s.started_at <= now1 <= now2,
    ensures
        ratio_le(progress_spec(s, now1), progress_spec(s, now2)),
{
    if s.target_secs != 0 {
        let e1 = (now1 - s.started_at) as u64;
        let e2 = (now2 - s.started_at) as u64;
        assert(e1 * s.target_secs <= e2 * s.target_secs) by (nonlinear_arith)
            requires
                e1 <= e2,
        ;
    }
}

/// The countdown is not complete at any instant strictly before the start
/// time plus the target duration.
pub proof fn lemma_not_complete_before_deadline(s: TimerState, now: u64)
    requires
        s.started_at <= now,
        now < s.started_at + s.target_secs,
    ensures
        !is_complete_spec(s, now),
{
}

/// Completion and a full progress ratio coincide: the countdown is complete
/// exactly when its progress ratio has reached one.
pub proof fn lemma_complete_iff_progress_full(s: TimerState, now: u64)
    requires
        s.started_at <= now,
    ensures
        is_complete_spec(s, now) == ratio_full(progress_spec(s, now)),
{
}

} // verus!
