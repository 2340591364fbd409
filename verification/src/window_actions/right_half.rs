use vstd::prelude::*;
use crate::{ActionContext, MonitorInfo};

verus! {

/// The right half of the work area: anchored at the midpoint, absorbing the odd pixel.
pub open spec fn right_half_rect(m: MonitorInfo) -> (int, int, int, int) {
    let w = m.work_right - m.work_left;
    let h = m.work_bottom - m.work_top;
    ({ let x = m.work_left + w / 2; (m.work_right - x, h, x, m.work_top as int) })
}

pub struct RightHalfAction;

impl RightHalfAction {
    /// Snaps to the right half of the target monitor's work area.
    pub fn calculate_position(&self, context: &ActionContext) -> (r: (i32, i32, i32, i32))
        requires
            context.wf(),
        ensures
            (r.0 as int, r.1 as int, r.2 as int, r.3 as int) == right_half_rect(context.tgt()),
    {
        let m = &context.monitors[context.target_monitor];
        let w = m.work_right - m.work_left;
        let h = m.work_bottom - m.work_top;
        {
        let x = m.work_left + w / 2;
        (m.work_right - x, h, x, m.work_top)
    }
    }
}

} // verus!
