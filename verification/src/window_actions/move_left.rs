use vstd::prelude::*;
use crate::{ActionContext, MonitorInfo};
use crate::window_actions::{carry_over_position, carry_over_rect};

verus! {

/// The best leftward candidate among the first `n` monitors: one whose
/// trailing edge lies at or before the current monitor's leading edge,
/// with the largest such edge; of equals, the later in the list.
pub open spec fn best_left_candidate(monitors: Seq<MonitorInfo>, cur: int, n: int) -> Option<int>
    decreases n,
{
    if n <= 0 {
        None
    } else {
        let prev = best_left_candidate(monitors, cur, n - 1);
        let i = n - 1;
        if monitors[i].right <= monitors[cur].left && (prev is None || monitors[i].right
            >= monitors[prev->Some_0].right) {
            Some(i)
        } else {
            prev
        }
    }
}

/// The rightmost of the first `n` monitors; of equals, the later in the
/// list.
pub open spec fn rightmost_monitor(monitors: Seq<MonitorInfo>, n: int) -> int
    decreases n,
{
    if n <= 1 {
        0
    } else {
        let prev = rightmost_monitor(monitors, n - 1);
        if monitors[n - 1].right >= monitors[prev].right {
            n - 1
        } else {
            prev
        }
    }
}

/// The monitor a leftward move goes to: the nearest monitor to the left
/// or, when the current monitor is already the leftmost, the rightmost
/// monitor of all (wraparound).
pub open spec fn move_left_target(monitors: Seq<MonitorInfo>, cur: int) -> int {
    match best_left_candidate(monitors, cur, monitors.len() as int) {
        Some(i) => i,
        None => rightmost_monitor(monitors, monitors.len() as int),
    }
}

pub struct MoveLeftAction;

impl MoveLeftAction {
    /// Selects the nearest monitor to the left, wrapping to the
    /// rightmost when there is none.
    pub fn get_target_monitor(&self, current_monitor: usize, monitors: &Vec<MonitorInfo>) -> (r:
        usize)
        requires
            current_monitor < monitors@.len(),
        ensures
            r < monitors@.len(),
            r as int == move_left_target(monitors@, current_monitor as int),
    {
        let n = monitors.len();
        let mut best: usize = 0;
        let mut has_best = false;
        let mut i: usize = 0;
        while i < n
            invariant
                0 <= i <= n,
                n == monitors@.len(),
                current_monitor < n,
                has_best ==> best < i && best_left_candidate(
                    monitors@,
                    current_monitor as int,
                    i as int,
                ) == Some(best as int),
                !has_best ==> best_left_candidate(
                    monitors@,
                    current_monitor as int,
                    i as int,
                ) is None,
            decreases n - i,
        {
            let cand = monitors[i].right <= monitors[current_monitor].left;
            if cand && (!has_best || monitors[i].right >= monitors[best].right) {
                best = i;
                has_best = true;
            }
            i = i + 1;
        }
        if has_best {
            best
        } else {
            let mut rm: usize = 0;
            let mut j: usize = 1;
            while j < n
                invariant
                    1 <= j <= n || n == 0,
                    n == monitors@.len(),
                    rm < j,
                    rm as int == rightmost_monitor(monitors@, j as int),
                decreases n - j,
            {
                if monitors[j].right >= monitors[rm].right {
                    rm = j;
                }
                j = j + 1;
            }
            rm
        }
    }

    /// Moves to the target monitor, preserving the window's relative
    /// position and relative size within the work area.
    pub fn calculate_position(&self, context: &ActionContext) -> (r: (i32, i32, i32, i32))
        requires
            context.wf(),
        ensures
            (r.0 as int, r.1 as int, r.2 as int, r.3 as int) == carry_over_rect(
                context.cur(),
                context.tgt(),
                context.window_info,
            ),
    {
        carry_over_position(context)
    }
}

} // verus!
