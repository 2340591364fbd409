use vstd::prelude::*;
use crate::{ActionContext, MonitorInfo};

verus! {

/// The last (right) third of the work area, absorbing the remainder pixels so the thirds tile it exactly.
pub open spec fn last_third_rect(m: MonitorInfo) -> (int, int, int, int) {
    let w = m.work_right - m.work_left;
    let h = m.work_bottom - m.work_top;
    ({ let x = m.work_left + 2 * (w / 3); (m.work_right - x, h, x, m.work_top as int) })
}

pub struct LastThirdAction;

impl LastThirdAction {
    /// Snaps to the last third of the target monitor's work area.
    pub fn calculate_position(&self, context: &ActionContext) -> (r: (i32, i32, i32, i32))
        requires
            context.wf(),
        ensures
            (r.0 as int, r.1 as int, r.2 as int, r.3 as int) == last_third_rect(context.tgt()),
    {
        let m = &context.monitors[context.target_monitor];
        let w = m.work_right - m.work_left;
        let h = m.work_bottom - m.work_top;
        {
        let x = m.work_left + 2 * (w / 3);
        (m.work_right - x, h, x, m.work_top)
    }
    }
}

} // verus!
