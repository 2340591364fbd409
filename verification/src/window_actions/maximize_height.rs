use vstd::prelude::*;
use crate::{ActionContext, MonitorInfo, WindowInfo};

verus! {

/// The window keeps its width and horizontal center; its height becomes
/// the full height of the target work area.
pub open spec fn maximize_height_rect(m: MonitorInfo, win: WindowInfo) -> (int, int, int, int) {
    let h = m.work_bottom - m.work_top;
    (
        win.current_width as int,
        h,
        win.center_x - win.current_width / 2,
        m.work_top as int,
    )
}

pub struct MaximizeHeightAction;

impl MaximizeHeightAction {
    /// Maximizes the window's height over the target monitor's work
    /// area, keeping its width and horizontal position.
    pub fn calculate_position(&self, context: &ActionContext) -> (r: (i32, i32, i32, i32))
        requires
            context.wf(),
        ensures
            (r.0 as int, r.1 as int, r.2 as int, r.3 as int) == maximize_height_rect(
                context.tgt(),
                context.window_info,
            ),
    {
        let m = &context.monitors[context.target_monitor];
        let h = m.work_bottom - m.work_top;
        let cw = context.window_info.current_width;
        (cw, h, context.window_info.center_x - cw / 2, m.work_top)
    }
}

} // verus!
