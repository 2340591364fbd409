use vstd::prelude::*;
use crate::{ActionContext, MonitorInfo};

verus! {

/// The first two thirds of the work area: two thirds of the width, full height, anchored left.
pub open spec fn first_two_thirds_rect(m: MonitorInfo) -> (int, int, int, int) {
    let w = m.work_right - m.work_left;
    let h = m.work_bottom - m.work_top;
    ((2 * w) / 3, h, m.work_left as int, m.work_top as int)
}

pub struct FirstTwoThirdsAction;

impl FirstTwoThirdsAction {
    /// Snaps to the first two thirds of the target monitor's work area.
    pub fn calculate_position(&self, context: &ActionContext) -> (r: (i32, i32, i32, i32))
        requires
            context.wf(),
        ensures
            (r.0 as int, r.1 as int, r.2 as int, r.3 as int) == first_two_thirds_rect(context.tgt()),
    {
        let m = &context.monitors[context.target_monitor];
        let w = m.work_right - m.work_left;
        let h = m.work_bottom - m.work_top;
        let w2 = (2 * (w as i64)) / 3;
        proof {
            assert(0 <= w2 <= w);
        }
        (w2 as i32, h, m.work_left, m.work_top)
    }
}

} // verus!
