use vstd::prelude::*;
use crate::{ActionContext, MonitorInfo, WindowInfo};
use crate::geometry::{div_trunc, div_trunc_i64};

verus! {

/// The window keeps its size and is centered in the target work area;
/// a window larger than the work area is centered across it.
pub open spec fn center_rect(m: MonitorInfo, win: WindowInfo) -> (int, int, int, int) {
    let w = m.work_right - m.work_left;
    let h = m.work_bottom - m.work_top;
    (
        win.current_width as int,
        win.current_height as int,
        m.work_left + div_trunc(w - win.current_width, 2),
        m.work_top + div_trunc(h - win.current_height, 2),
    )
}

pub struct CenterAction;

impl CenterAction {
    /// Centers the window, at its current size, in the target monitor's
    /// work area.
    pub fn calculate_position(&self, context: &ActionContext) -> (r: (i32, i32, i32, i32))
        requires
            context.wf(),
        ensures
            (r.0 as int, r.1 as int, r.2 as int, r.3 as int) == center_rect(
                context.tgt(),
                context.window_info,
            ),
    {
        let m = &context.monitors[context.target_monitor];
        let w = m.work_right - m.work_left;
        let h = m.work_bottom - m.work_top;
        let cw = context.window_info.current_width;
        let ch = context.window_info.current_height;
        let dx = div_trunc_i64((w as i64) - (cw as i64), 2);
        let dy = div_trunc_i64((h as i64) - (ch as i64), 2);
        proof {
            assert(-0x2000_0000 <= dx <= 0x2000_0000);
            assert(-0x2000_0000 <= dy <= 0x2000_0000);
        }
        (cw, ch, m.work_left + (dx as i32), m.work_top + (dy as i32))
    }
}

} // verus!
