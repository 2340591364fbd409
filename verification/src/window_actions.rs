//! The window actions: one unit struct per tiling behavior, each with
//! an exact rectangle specification over the action context.

pub mod bottom_half;
pub mod bottom_left;
pub mod bottom_right;
pub mod center;
pub mod center_third;
pub mod first_third;
pub mod first_two_thirds;
pub mod last_third;
pub mod last_two_thirds;
pub mod left_half;
pub mod make_larger;
pub mod make_smaller;
pub mod maximize;
pub mod maximize_height;
pub mod move_left;
pub mod move_right;
pub mod no_op;
pub mod right_half;
pub mod top_half;
pub mod top_left;
pub mod top_right;

use vstd::prelude::*;
use vstd::math::{max, min};
use crate::{Action, ActionContext, MonitorInfo, WindowInfo};
use crate::geometry::{div_trunc, div_trunc_i64, max_i64, min_i64, mul_i64};

pub use bottom_half::BottomHalfAction;
pub use bottom_left::BottomLeftAction;
pub use bottom_right::BottomRightAction;
pub use center::CenterAction;
pub use center_third::CenterThirdAction;
pub use first_third::FirstThirdAction;
pub use first_two_thirds::FirstTwoThirdsAction;
pub use last_third::LastThirdAction;
pub use last_two_thirds::LastTwoThirdsAction;
pub use left_half::LeftHalfAction;
pub use make_larger::MakeLargerAction;
pub use make_smaller::MakeSmallerAction;
pub use maximize::MaximizeAction;
pub use maximize_height::MaximizeHeightAction;
pub use move_left::MoveLeftAction;
pub use move_right::MoveRightAction;
pub use no_op::NoOpAction;
pub use right_half::RightHalfAction;
pub use top_half::TopHalfAction;
pub use top_left::TopLeftAction;
pub use top_right::TopRightAction;

verus! {

/// A directional move preserves the window's relative position and
/// relative size within the work area: the new size is the same fraction
/// of the target extent (capped at it), the new center the same fraction
/// of the way across, and the final origin is clamped so the window
/// stays inside the target work area.
pub open spec fn carry_over_rect(c: MonitorInfo, t: MonitorInfo, win: WindowInfo) -> (
    int,
    int,
    int,
    int,
) {
    let cw = c.work_right - c.work_left;
    let ch = c.work_bottom - c.work_top;
    let tw = t.work_right - t.work_left;
    let th = t.work_bottom - t.work_top;
    let nw = min(div_trunc(tw * win.current_width, cw), tw);
    let nh = min(div_trunc(th * win.current_height, ch), th);
    let ncx = t.work_left + div_trunc(tw * (win.center_x - c.work_left), cw);
    let ncy = t.work_top + div_trunc(th * (win.center_y - c.work_top), ch);
    let nx = min(max(ncx - nw / 2, t.work_left as int), t.work_right - nw);
    let ny = min(max(ncy - nh / 2, t.work_top as int), t.work_bottom - nh);
    (nw, nh, nx, ny)
}

/// Computes the carried-over rectangle for a directional move.
pub fn carry_over_position(context: &ActionContext) -> (r: (i32, i32, i32, i32))
    requires
        context.wf(),
    ensures
        (r.0 as int, r.1 as int, r.2 as int, r.3 as int) == carry_over_rect(
            context.cur(),
            context.tgt(),
            context.window_info,
        ),
{
    let c = &context.monitors[context.current_monitor];
    let t = &context.monitors[context.target_monitor];
    let win = context.window_info;
    let cw = (c.work_right as i64) - (c.work_left as i64);
    let ch = (c.work_bottom as i64) - (c.work_top as i64);
    let tw = (t.work_right as i64) - (t.work_left as i64);
    let th = (t.work_bottom as i64) - (t.work_top as i64);
    proof {
        assert(0 <= (tw as int) * (win.current_width as int)) by (nonlinear_arith)
            requires
                tw >= 0,
                win.current_width >= 0,
        ;
        assert(0 <= (th as int) * (win.current_height as int)) by (nonlinear_arith)
            requires
                th >= 0,
                win.current_height >= 0,
        ;
    }
    let nw = min_i64(div_trunc_i64(mul_i64(tw, win.current_width as i64), cw), tw);
    let nh = min_i64(div_trunc_i64(mul_i64(th, win.current_height as i64), ch), th);
    proof {
        assert(0 <= nw <= tw);
        assert(0 <= nh <= th);
    }
    let ncx = (t.work_left as i64) + div_trunc_i64(
        mul_i64(tw, (win.center_x as i64) - (c.work_left as i64)),
        cw,
    );
    let ncy = (t.work_top as i64) + div_trunc_i64(
        mul_i64(th, (win.center_y as i64) - (c.work_top as i64)),
        ch,
    );
    let nx = min_i64(max_i64(ncx - nw / 2, t.work_left as i64), (t.work_right as i64) - nw);
    let ny = min_i64(max_i64(ncy - nh / 2, t.work_top as i64), (t.work_bottom as i64) - nh);
    proof {
        assert(t.work_left <= nx <= t.work_right);
        assert(t.work_top <= ny <= t.work_bottom);
    }
    (nw as i32, nh as i32, nx as i32, ny as i32)
}

/// The rectangle of each action that needs no live OS metrics. Maximize
/// is the one action computed elsewhere, from the frame metrics it
/// requires ([`maximize::maximize_rect`]); its arm here is never
/// consulted.
pub open spec fn action_rect(action: Action, cur: MonitorInfo, tgt: MonitorInfo, win: WindowInfo) -> (
    int,
    int,
    int,
    int,
) {
    match action {
        Action::MoveLeft => carry_over_rect(cur, tgt, win),
        Action::MoveRight => carry_over_rect(cur, tgt, win),
        Action::Maximize { .. } => (0, 0, 0, 0),
        Action::LeftHalf => left_half::left_half_rect(tgt),
        Action::RightHalf => right_half::right_half_rect(tgt),
        Action::TopHalf => top_half::top_half_rect(tgt),
        Action::BottomHalf => bottom_half::bottom_half_rect(tgt),
        Action::TopLeft => top_left::top_left_rect(tgt),
        Action::TopRight => top_right::top_right_rect(tgt),
        Action::BottomLeft => bottom_left::bottom_left_rect(tgt),
        Action::BottomRight => bottom_right::bottom_right_rect(tgt),
        Action::FirstThird => first_third::first_third_rect(tgt),
        Action::CenterThird => center_third::center_third_rect(tgt),
        Action::LastThird => last_third::last_third_rect(tgt),
        Action::FirstTwoThirds => first_two_thirds::first_two_thirds_rect(tgt),
        Action::LastTwoThirds => last_two_thirds::last_two_thirds_rect(tgt),
        Action::Center => center::center_rect(tgt, win),
        Action::MakeLarger => make_larger::larger_rect(tgt, win),
        Action::MakeSmaller => make_smaller::smaller_rect(win),
        Action::MaximizeHeight => maximize_height::maximize_height_rect(tgt, win),
        Action::NoOp => no_op::no_op_rect(win),
    }
}

/// The thirds tile the work area exactly: each begins where the previous
/// one ends, the first at the left edge and the last ending at the right
/// edge, with no overlap and no gap.
pub proof fn lemma_thirds_partition(m: MonitorInfo)
    requires
        m.wf(),
    ensures
        first_third::first_third_rect(m).2 == m.work_left as int,
        first_third::first_third_rect(m).2 + first_third::first_third_rect(m).0
            == center_third::center_third_rect(m).2,
        center_third::center_third_rect(m).2 + center_third::center_third_rect(m).0
            == last_third::last_third_rect(m).2,
        last_third::last_third_rect(m).2 + last_third::last_third_rect(m).0
            == m.work_right as int,
{
}

/// With a single monitor, a directional move wraps around to the monitor
/// it started on: a no-op.
pub proof fn lemma_single_monitor_wraparound(monitors: Seq<MonitorInfo>)
    requires
        monitors.len() == 1,
        monitors[0].wf(),
    ensures
        move_left::move_left_target(monitors, 0) == 0,
        move_right::move_right_target(monitors, 0) == 0,
{
    assert(move_right::best_right_candidate(monitors, 0, 0) is None);
    assert(monitors[0].left < monitors[0].right);
    assert(move_right::best_right_candidate(monitors, 0, 1) is None);
    assert(move_right::leftmost_monitor(monitors, 1) == 0);
    assert(move_left::best_left_candidate(monitors, 0, 0) is None);
    assert(move_left::best_left_candidate(monitors, 0, 1) is None);
    assert(move_left::rightmost_monitor(monitors, 1) == 0);
}

} // verus!
