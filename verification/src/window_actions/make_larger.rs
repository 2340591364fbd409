use vstd::prelude::*;
use vstd::math::{max, min};
use crate::{ActionContext, MonitorInfo, WindowInfo};
use crate::geometry::{max_i64, min_i64, mul_i64};

verus! {

/// The window scaled up by a tenth, capped at the work-area extent,
/// re-centered on its prior center point, then translated so it stays
/// fully inside the work area.
pub open spec fn larger_rect(m: MonitorInfo, win: WindowInfo) -> (int, int, int, int) {
    let tw = m.work_right - m.work_left;
    let th = m.work_bottom - m.work_top;
    let nw = min(11 * win.current_width / 10, tw);
    let nh = min(11 * win.current_height / 10, th);
    let nx = min(max(win.center_x - nw / 2, m.work_left as int), m.work_right - nw);
    let ny = min(max(win.center_y - nh / 2, m.work_top as int), m.work_bottom - nh);
    (nw, nh, nx, ny)
}

pub struct MakeLargerAction;

impl MakeLargerAction {
    /// Grows the window by a tenth, capped at the target work area,
    /// keeping its center where the work area allows.
    pub fn calculate_position(&self, context: &ActionContext) -> (r: (i32, i32, i32, i32))
        requires
            context.wf(),
        ensures
            (r.0 as int, r.1 as int, r.2 as int, r.3 as int) == larger_rect(
                context.tgt(),
                context.window_info,
            ),
    {
        let m = &context.monitors[context.target_monitor];
        let w = context.window_info;
        let tw = (m.work_right as i64) - (m.work_left as i64);
        let th = (m.work_bottom as i64) - (m.work_top as i64);
        let nw = min_i64(mul_i64(11, w.current_width as i64) / 10, tw);
        let nh = min_i64(mul_i64(11, w.current_height as i64) / 10, th);
        proof {
            assert(0 <= nw <= tw);
            assert(0 <= nh <= th);
        }
        let nx = min_i64(
            max_i64((w.center_x as i64) - nw / 2, m.work_left as i64),
            (m.work_right as i64) - nw,
        );
        let ny = min_i64(
            max_i64((w.center_y as i64) - nh / 2, m.work_top as i64),
            (m.work_bottom as i64) - nh,
        );
        proof {
            assert(m.work_left <= nx <= m.work_right);
            assert(m.work_top <= ny <= m.work_bottom);
        }
        (nw as i32, nh as i32, nx as i32, ny as i32)
    }
}

} // verus!
