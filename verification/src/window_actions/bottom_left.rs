use vstd::prelude::*;
use crate::{ActionContext, MonitorInfo};

verus! {

/// The bottom-left quarter of the work area.
pub open spec fn bottom_left_rect(m: MonitorInfo) -> (int, int, int, int) {
    let w = m.work_right - m.work_left;
    let h = m.work_bottom - m.work_top;
    (w / 2, h / 2, m.work_left as int, m.work_top + h / 2)
}

pub struct BottomLeftAction;

impl BottomLeftAction {
    /// Snaps to the bottom-left quarter of the target monitor's work area.
    pub fn calculate_position(&self, context: &ActionContext) -> (r: (i32, i32, i32, i32))
        requires
            context.wf(),
        ensures
            (r.0 as int, r.1 as int, r.2 as int, r.3 as int) == bottom_left_rect(context.tgt()),
    {
        let m = &context.monitors[context.target_monitor];
        let w = m.work_right - m.work_left;
        let h = m.work_bottom - m.work_top;
        (w / 2, h / 2, m.work_left, m.work_top + h / 2)
    }
}

} // verus!
