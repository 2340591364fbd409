use vstd::prelude::*;
use crate::{ActionContext, MonitorInfo};

verus! {

/// The first (left) third of the work area: a third of the width, full height.
pub open spec fn first_third_rect(m: MonitorInfo) -> (int, int, int, int) {
    let w = m.work_right - m.work_left;
    let h = m.work_bottom - m.work_top;
    (w / 3, h, m.work_left as int, m.work_top as int)
}

pub struct FirstThirdAction;

impl FirstThirdAction {
    /// Snaps to the first third of the target monitor's work area.
    pub fn calculate_position(&self, context: &ActionContext) -> (r: (i32, i32, i32, i32))
        requires
            context.wf(),
        ensures
            (r.0 as int, r.1 as int, r.2 as int, r.3 as int) == first_third_rect(context.tgt()),
    {
        let m = &context.monitors[context.target_monitor];
        let w = m.work_right - m.work_left;
        let h = m.work_bottom - m.work_top;
        (w / 3, h, m.work_left, m.work_top)
    }
}

} // verus!
