use vstd::prelude::*;
use crate::{ActionContext, MonitorInfo};

verus! {

/// The left half of the work area: width halved, full height, anchored to the left edge.
pub open spec fn left_half_rect(m: MonitorInfo) -> (int, int, int, int) {
    let w = m.work_right - m.work_left;
    let h = m.work_bottom - m.work_top;
    (w / 2, h, m.work_left as int, m.work_top as int)
}

pub struct LeftHalfAction;

impl LeftHalfAction {
    /// Snaps to the left half of the target monitor's work area.
    pub fn calculate_position(&self, context: &ActionContext) -> (r: (i32, i32, i32, i32))
        requires
            context.wf(),
        ensures
            (r.0 as int, r.1 as int, r.2 as int, r.3 as int) == left_half_rect(context.tgt()),
    {
        let m = &context.monitors[context.target_monitor];
        let w = m.work_right - m.work_left;
        let h = m.work_bottom - m.work_top;
        (w / 2, h, m.work_left, m.work_top)
    }
}

} // verus!
