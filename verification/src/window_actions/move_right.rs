use vstd::prelude::*;
use crate::{ActionContext, MonitorInfo};
use crate::window_actions::{carry_over_position, carry_over_rect};

verus! {

/// The best rightward candidate among the first `n` monitors: one whose
/// leading edge lies at or after the current monitor's trailing edge,
/// with the smallest such edge; of equals, the earliest in the list.
pub open spec fn best_right_candidate(monitors: Seq<MonitorInfo>, cur: int, n: int) -> Option<
    int,
>
    decreases n,
{
    if n <= 0 {
        None
    } else {
        let prev = best_right_candidate(monitors, cur, n - 1);
        let i = n - 1;
        if monitors[i].left >= monitors[cur].right && (prev is None || monitors[i].left
            < monitors[prev->Some_0].left) {
            Some(i)
        } else {
            prev
        }
    }
}

/// The leftmost of the first `n` monitors; of equals, the earliest in
/// the list.
pub open spec fn leftmost_monitor(monitors: Seq<MonitorInfo>, n: int) -> int
    decreases n,
{
    if n <= 1 {
        0
    } else {
        let prev = leftmost_monitor(monitors, n - 1);
        if monitors[n - 1].left < monitors[prev].left {
            n - 1
        } else {
            prev
        }
    }
}

/// The monitor a rightward move goes to: the nearest monitor to the
/// right or, when the current monitor is already the rightmost, the
/// leftmost monitor of all (wraparound).
pub open spec fn move_right_target(monitors: Seq<MonitorInfo>, cur: int) -> int {
    match best_right_candidate(monitors, cur, monitors.len() as int) {
        Some(i) => i,
        None => leftmost_monitor(monitors, monitors.len() as int),
    }
}

pub struct MoveRightAction;

impl MoveRightAction {
    /// Selects the nearest monitor to the right, wrapping to the
    /// leftmost when there is none.
    pub fn get_target_monitor(&self, current_monitor: usize, monitors: &Vec<MonitorInfo>) -> (r:
        usize)
        requires
            current_monitor < monitors@.len(),
        ensures
            r < monitors@.len(),
            r as int == move_right_target(monitors@, current_monitor as int),
    {
        let n = monitors.len();
        let mut best: usize = 0;
        let mut has_best = false;
        let mut i: usize = 0;
        while i < n
            invariant
                0 <= i <= n,
                n == monitors@.len(),
                current_monitor < n,
                has_best ==> best < i && best_right_candidate(
                    monitors@,
                    current_monitor as int,
                    i as int,
                ) == Some(best as int),
                !has_best ==> best_right_candidate(
                    monitors@,
                    current_monitor as int,
                    i as int,
                ) is None,
            decreases n - i,
        {
            let cand = monitors[i].left >= monitors[current_monitor].right;
            if cand && (!has_best || monitors[i].left < monitors[best].left) {
                best = i;
                has_best = true;
            }
            i = i + 1;
        }
        if has_best {
            best
        } else {
            let mut lm: usize = 0;
            let mut j: usize = 1;
            while j < n
                invariant
                    1 <= j <= n || n == 0,
                    n == monitors@.len(),
                    lm < j,
                    lm as int == leftmost_monitor(monitors@, j as int),
                decreases n - j,
            {
                if monitors[j].left < monitors[lm].left {
                    lm = j;
                }
                j = j + 1;
            }
            lm
        }
    }

    /// Moves to the target monitor, preserving the window's relative
    /// position and relative size within the work area.
    pub fn calculate_position(&self, context: &ActionContext) -> (r: (i32, i32, i32, i32))
        requires
            context.wf(),
        ensures
            (r.0 as int, r.1 as int, r.2 as int, r.3 as int) == carry_over_rect(
                context.cur(),
                context.tgt(),
                context.window_info,
            ),
    {
        carry_over_position(context)
    }
}

} // verus!
