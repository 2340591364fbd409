use vstd::prelude::*;
use crate::{ActionContext, MonitorInfo};

verus! {

/// The bottom half of the work area: anchored at the midpoint, absorbing the odd pixel.
pub open spec fn bottom_half_rect(m: MonitorInfo) -> (int, int, int, int) {
    let w = m.work_right - m.work_left;
    let h = m.work_bottom - m.work_top;
    ({ let y = m.work_top + h / 2; (w, m.work_bottom - y, m.work_left as int, y) })
}

pub struct BottomHalfAction;

impl BottomHalfAction {
    /// Snaps to the bottom half of the target monitor's work area.
    pub fn calculate_position(&self, context: &ActionContext) -> (r: (i32, i32, i32, i32))
        requires
            context.wf(),
        ensures
            (r.0 as int, r.1 as int, r.2 as int, r.3 as int) == bottom_half_rect(context.tgt()),
    {
        let m = &context.monitors[context.target_monitor];
        let w = m.work_right - m.work_left;
        let h = m.work_bottom - m.work_top;
        {
        let y = m.work_top + h / 2;
        (w, m.work_bottom - y, m.work_left, y)
    }
    }
}

} // verus!
