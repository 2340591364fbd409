use vstd::prelude::*;
use crate::{ActionContext, MonitorInfo};
use crate::geometry::mul_i64;

verus! {

/// Live window metrics that only the OS can supply at action time: the
/// window's DPI and its nominal and extended (visibly rendered) frame
/// rectangles, which differ by the platform-drawn shadow insets.
#[derive(Debug, Clone, Copy)]
pub struct FrameMetrics {
    pub dpi: u32,
    pub win_left: i32,
    pub win_top: i32,
    pub win_right: i32,
    pub win_bottom: i32,
    pub ext_left: i32,
    pub ext_top: i32,
    pub ext_right: i32,
    pub ext_bottom: i32,
}

impl FrameMetrics {
    /// The DPI is positive and bounded, coordinates stay in the engine's
    /// range, and each shadow inset (the gap between an extended edge
    /// and its nominal edge) is bounded.
    pub open spec fn wf(self) -> bool {
        &&& 0 < self.dpi <= 0x8000
        &&& -0x2000_0000 <= self.win_left <= 0x2000_0000
        &&& -0x2000_0000 <= self.win_top <= 0x2000_0000
        &&& -0x2000_0000 <= self.win_right <= 0x2000_0000
        &&& -0x2000_0000 <= self.win_bottom <= 0x2000_0000
        &&& -0x1_0000 <= self.ext_left - self.win_left <= 0x1_0000
        &&& -0x1_0000 <= self.ext_top - self.win_top <= 0x1_0000
        &&& -0x1_0000 <= self.win_right - self.ext_right <= 0x1_0000
        &&& -0x1_0000 <= self.win_bottom - self.ext_bottom <= 0x1_0000
    }
}

/// The nominal rectangle whose visible (extended) frame sits exactly
/// `gutter` DPI-scaled pixels inside the monitor's work area on all four
/// sides, compensating for the shadow insets.
pub open spec fn maximize_rect(m: MonitorInfo, gutter: int, f: FrameMetrics) -> (
    int,
    int,
    int,
    int,
) {
    let shadow_left = f.ext_left - f.win_left;
    let shadow_top = f.ext_top - f.win_top;
    let shadow_right = f.win_right - f.ext_right;
    let shadow_bottom = f.win_bottom - f.ext_bottom;
    let scaled_gutter = gutter * f.dpi / 96;
    let ww = m.work_right - m.work_left;
    let wh = m.work_bottom - m.work_top;
    (
        ww - 2 * scaled_gutter + shadow_left + shadow_right,
        wh - 2 * scaled_gutter + shadow_top + shadow_bottom,
        m.work_left + scaled_gutter - shadow_left,
        m.work_top + scaled_gutter - shadow_top,
    )
}

pub struct MaximizeAction {
    pub gutter: i32,
}

impl MaximizeAction {
    /// Maximizes the window into the current monitor's work area,
    /// leaving the gutter margin around the visible frame.
    pub fn calculate_position(&self, context: &ActionContext, metrics: &FrameMetrics) -> (r: (
        i32,
        i32,
        i32,
        i32,
    ))
        requires
            context.wf(),
            metrics.wf(),
            0 <= self.gutter <= 0x8000,
        ensures
            (r.0 as int, r.1 as int, r.2 as int, r.3 as int) == maximize_rect(
                context.cur(),
                self.gutter as int,
                *metrics,
            ),
    {
        let m = &context.monitors[context.current_monitor];
        let sl = (metrics.ext_left as i64) - (metrics.win_left as i64);
        let st = (metrics.ext_top as i64) - (metrics.win_top as i64);
        let sr = (metrics.win_right as i64) - (metrics.ext_right as i64);
        let sb = (metrics.win_bottom as i64) - (metrics.ext_bottom as i64);
        let g = mul_i64(self.gutter as i64, metrics.dpi as i64) / 96;
        proof {
            assert(0 <= g <= 0x100_0000) by {
                assert(0 <= (self.gutter as int) * (metrics.dpi as int) <= 0x4000_0000)
                    by (nonlinear_arith)
                    requires
                        0 <= self.gutter as int <= 0x8000,
                        0 < metrics.dpi as int <= 0x8000,
                ;
                let p = (self.gutter as int) * (metrics.dpi as int);
                vstd::arithmetic::div_mod::lemma_div_pos_is_pos(p, 96);
                vstd::arithmetic::div_mod::lemma_div_is_ordered(p, 0x4000_0000, 96);
                assert(0x4000_0000int / 96 < 0x100_0000);
            }
        }
        let ww = (m.work_right as i64) - (m.work_left as i64);
        let wh = (m.work_bottom as i64) - (m.work_top as i64);
        let rw = ww - 2 * g + sl + sr;
        let rh = wh - 2 * g + st + sb;
        let rx = (m.work_left as i64) + g - sl;
        let ry = (m.work_top as i64) + g - st;
        (rw as i32, rh as i32, rx as i32, ry as i32)
    }
}

} // verus!
