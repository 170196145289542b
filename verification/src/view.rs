//! View projection: the render-ready snapshot handed to the drawing layer
//! each frame, and the discretisation of the progress ratio into the stepped
//! bar display. Widget layout itself is the renderer's concern; nothing here
//! draws.

use vstd::prelude::*;

use crate::parse::dec_digits;
use crate::parse::format_seconds;
use crate::state::App;
use crate::state::AppModel;
use crate::state::InputMode;
use crate::timer::Ratio;
use crate::timer::TimerState;
use crate::timer::elapsed;
use crate::timer::progress;
use crate::timer::progress_spec;
use crate::timer::ratio_wf;

verus! {

/// What the renderer is handed each frame: the current mode, the duration
/// text (quoted for the idle screen), the elapsed-seconds display text, the
/// running flag, and the progress ratio. The ratio is not clamped; a
/// consumer treats anything at or above one as complete.
pub struct ViewState {
    pub mode: InputMode,
    pub duration_text: Vec<char>,
    pub elapsed_text: Vec<char>,
    pub timer_running: bool,
    pub progress: Ratio,
}

/// Duration text as the idle screen shows it: wrapped in single quotes so
/// that trailing spaces are visible.
pub open spec fn quoted(s: Seq<char>) -> Seq<char> {
    seq!['\''] + s + seq!['\'']
}

/// The snapshot for the idle screen: the pending duration text quoted, no
/// elapsed display, zero progress.
pub fn idle_view(app: &App) -> (v: ViewState)
    ensures
        v.mode == app@.mode,
        v.duration_text@ == quoted(app@.pending_text),
        v.elapsed_text@ == Seq::<char>::empty(),
        v.timer_running == app@.running,
        v.progress == (Ratio { num: 0, den: 1 }),
{
    let mut text: Vec<char> = Vec::new();
    text.push('\'');
    let mut i: usize = 0;
    while i < app.pending_text.len()
        invariant
            i <= app.pending_text.len(),
            text@ =~= seq!['\''] + app.pending_text@.take(i as int),
        decreases app.pending_text.len() - i,
    {
        text.push(app.pending_text[i]);
        i = i + 1;
    }
    text.push('\'');
    assert(text@ =~= quoted(app@.pending_text));
    ViewState {
        mode: app.mode,
        duration_text: text,
        elapsed_text: Vec::new(),
        timer_running: app.running,
        progress: Ratio { num: 0, den: 1 },
    }
}

/// What the countdown frame's snapshot holds for a state `m` observed at
/// clock reading `now`: the mode, the pending duration text, the elapsed
/// seconds as decimal text, the running flag, and the exact progress ratio.
pub open spec fn is_active_view(v: ViewState, m: AppModel, now: u64) -> bool {
    &&& v.mode == m.mode
    &&& v.duration_text@ == m.pending_text
    &&& v.elapsed_text@ == dec_digits((now - m.started_at) as nat)
    &&& v.timer_running == m.running
    &&& v.progress == progress_spec(
        TimerState { started_at: m.started_at, target_secs: m.target_secs },
        now,
    )
}

/// The snapshot for one frame of a running countdown at clock reading
/// `now`: the elapsed seconds as decimal text and the exact progress ratio.
pub fn active_view(app: &App, now: u64) -> (v: ViewState)
    requires
        now >= app@.started_at,
    ensures
        is_active_view(v, app@, now),
        ratio_wf(v.progress),
{
    let e = elapsed(&app.timer, now);
    let mut text: Vec<char> = Vec::new();
    let mut i: usize = 0;
    while i < app.pending_text.len()
        invariant
            i <= app.pending_text.len(),
            text@ =~= app.pending_text@.take(i as int),
        decreases app.pending_text.len() - i,
    {
        text.push(app.pending_text[i]);
        i = i + 1;
    }
    assert(text@ =~= app@.pending_text);
    ViewState {
        mode: app.mode,
        duration_text: text,
        elapsed_text: format_seconds(e),
        timer_running: app.running,
        progress: progress(&app.timer, now),
    }
}

/// The stepped bar display's discrete levels, one per threshold band of the
/// progress ratio: below a quarter, below a half, below three quarters,
/// below one, and at or above one.
#[derive(Clone, Copy, Debug, PartialEq, Eq, Structural)]
pub enum BarLevel {
    UnderQuarter,
    UnderHalf,
    UnderThreeQuarters,
    UnderFull,
    Full,
}

/// Which threshold band a progress ratio falls in, by exact rational
/// comparison against a quarter, a half, three quarters and one.
pub open spec fn bucket_spec(r: Ratio) -> BarLevel {
    if 4 * r.num < r.den {
        BarLevel::UnderQuarter
    } else if 2 * r.num < r.den {
        BarLevel::UnderHalf
    } else if 4 * r.num < 3 * r.den {
        BarLevel::UnderThreeQuarters
    } else if r.num < r.den {
        BarLevel::UnderFull
    } else {
        BarLevel::Full
    }
}

/// Discretise a progress ratio into its bar level.
pub fn bucket(r: &Ratio) -> (l: BarLevel)
    requires
        ratio_wf(*r),
    ensures
        l == bucket_spec(*r),
{
    let num = r.num as u128;
    let den = r.den as u128;
    if 4 * num < den {
        BarLevel::UnderQuarter
    } else if 2 * num < den {
        BarLevel::UnderHalf
    } else if 4 * num < 3 * den {
        BarLevel::UnderThreeQuarters
    } else if num < den {
        BarLevel::UnderFull
    } else {
        BarLevel::Full
    }
}

/// How many steps of the staircase a bar level shows.
pub open spec fn level_steps(l: BarLevel) -> nat {
    match l {
        BarLevel::UnderQuarter => 1,
        BarLevel::UnderHalf => 2,
        BarLevel::UnderThreeQuarters => 3,
        BarLevel::UnderFull => 4,
        BarLevel::Full => 5,
    }
}

/// Height of the bars in step `i` of the staircase.
pub open spec fn step_height(i: int) -> u64 {
    if i == 0 {
        10
    } else if i == 1 {
        40
    } else if i == 2 {
        60
    } else if i == 3 {
        90
    } else {
        100
    }
}

fn step_height_at(i: usize) -> (h: u64)
    ensures
        h == step_height(i as int),
{
    if i == 0 {
        10
    } else if i == 1 {
        40
    } else if i == 2 {
        60
    } else if i == 3 {
        90
    } else {
        100
    }
}

/// The bar heights of the stepped progress display for one level: four bars
/// per step, each step of the staircase at its fixed height.
pub fn bar_heights(l: BarLevel) -> (v: Vec<u64>)
    ensures
        v@.len() == 4 * level_steps(l),
        forall|i: int| 0 <= i < v@.len() ==> v@[i] == step_height(i / 4),
{
    let steps: usize = match l {
        BarLevel::UnderQuarter => 1,
        BarLevel::UnderHalf => 2,
        BarLevel::UnderThreeQuarters => 3,
        BarLevel::UnderFull => 4,
        BarLevel::Full => 5,
    };
    let mut v: Vec<u64> = Vec::new();
    let mut s: usize = 0;
    while s < steps
        invariant
            s <= steps,
            v@.len() == 4 * s,
            forall|i: int| 0 <= i < v@.len() ==> v@[i] == step_height(i / 4),
        decreases steps - s,
    {
        let h = step_height_at(s);
        v.push(h);
        v.push(h);
        v.push(h);
        v.push(h);
        proof {
            let base = 4 * s as int;
            assert((base + 0) / 4 == s as int && (base + 1) / 4 == s as int && (base + 2) / 4
                == s as int && (base + 3) / 4 == s as int) by (nonlinear_arith)
                requires
                    base == 4 * s as int,
            ;
        }
        s = s + 1;
    }
    v
}

} // verus!
