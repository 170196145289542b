//! The control loop's decision step. The loop itself — drawing, sleeping,
//! blocking on keys, playing the alarm — runs outside; each iteration of the
//! active phase it asks this one function what the frame shows and whether
//! the countdown is over, and on completion it feeds every voice-count
//! observation through `observe_voices` until the wait ends.

use vstd::prelude::*;

use crate::state::App;
use crate::timer::is_complete;
use crate::timer::is_complete_spec;
use crate::view::ViewState;
use crate::view::active_view;
use crate::view::is_active_view;

verus! {

/// What one scheduling tick of the active phase decided: the frame to
/// render, and whether the countdown has completed — in which case the loop
/// triggers the alarm and waits on the voice count before anything else.
pub struct TickOutcome {
    pub view: ViewState,
    pub complete: bool,
}

/// One scheduling tick of the active countdown phase at clock reading
/// `now`: project the frame to render and decide completion. Completion is
/// decided exactly when the elapsed time has reached the target duration.
pub fn countdown_tick(app: &App, now: u64) -> (t: TickOutcome)
    requires
        now >= app@.started_at,
    ensures
        t.complete == is_complete_spec(app.timer, now),
        is_active_view(t.view, app@, now),
{
    TickOutcome { view: active_view(app, now), complete: is_complete(&app.timer, now) }
}

} // verus!
