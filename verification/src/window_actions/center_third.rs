use vstd::prelude::*;
use crate::{ActionContext, MonitorInfo};

verus! {

/// The center third of the work area, anchored a third of the way in.
pub open spec fn center_third_rect(m: MonitorInfo) -> (int, int, int, int) {
    let w = m.work_right - m.work_left;
    let h = m.work_bottom - m.work_top;
    (w / 3, h, m.work_left + w / 3, m.work_top as int)
}

pub struct CenterThirdAction;

impl CenterThirdAction {
    /// Snaps to the center third of the target monitor's work area.
    pub fn calculate_position(&self, context: &ActionContext) -> (r: (i32, i32, i32, i32))
        requires
            context.wf(),
        ensures
            (r.0 as int, r.1 as int, r.2 as int, r.3 as int) == center_third_rect(context.tgt()),
    {
        let m = &context.monitors[context.target_monitor];
        let w = m.work_right - m.work_left;
        let h = m.work_bottom - m.work_top;
        (w / 3, h, m.work_left + w / 3, m.work_top)
    }
}

} // verus!
