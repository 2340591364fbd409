use vstd::prelude::*;
use vstd::math::max;
use crate::{ActionContext, WindowInfo};
use crate::geometry::{max_i64, mul_i64};

verus! {

/// One shrink step of a window dimension: nine tenths of it, truncated,
/// but never below the floor.
pub open spec fn shrink_dim(d: int, floor: int) -> int {
    max(9 * d / 10, floor)
}

/// The window scaled down by a tenth, floored at 200 by 150, re-centered
/// on its prior center point.
pub open spec fn smaller_rect(win: WindowInfo) -> (int, int, int, int) {
    let nw = shrink_dim(win.current_width as int, 200);
    let nh = shrink_dim(win.current_height as int, 150);
    (nw, nh, win.center_x - nw / 2, win.center_y - nh / 2)
}

pub struct MakeSmallerAction;

impl MakeSmallerAction {
    /// Shrinks the window by a tenth, keeping its center, never below
    /// the 200 by 150 floor.
    pub fn calculate_position(&self, context: &ActionContext) -> (r: (i32, i32, i32, i32))
        requires
            context.wf(),
        ensures
            (r.0 as int, r.1 as int, r.2 as int, r.3 as int) == smaller_rect(context.window_info),
            r.0 >= 200,
            r.1 >= 150,
    {
        let w = context.window_info;
        let nw = max_i64(mul_i64(9, w.current_width as i64) / 10, 200);
        let nh = max_i64(mul_i64(9, w.current_height as i64) / 10, 150);
        proof {
            assert(200 <= nw <= 0x4000_0000);
            assert(150 <= nh <= 0x4000_0000);
        }
        let nw32 = nw as i32;
        let nh32 = nh as i32;
        (nw32, nh32, w.center_x - nw32 / 2, w.center_y - nh32 / 2)
    }
}

/// The shrink step applied `n` times.
pub open spec fn shrink_iter(d: int, floor: int, n: nat) -> int
    decreases n,
{
    if n == 0 {
        d
    } else {
        shrink_dim(shrink_iter(d, floor, (n - 1) as nat), floor)
    }
}

/// The floor is a fixed point of shrinking: a window at the floor stays
/// exactly there.
pub proof fn lemma_shrink_fixed_point(floor: int)
    requires
        floor >= 1,
    ensures
        shrink_dim(floor, floor) == floor,
{
}

/// One shrink step never goes below the floor, and strictly shrinks any
/// dimension above it.
pub proof fn lemma_shrink_progress(d: int, floor: int)
    requires
        floor >= 1,
        d >= 0,
    ensures
        shrink_dim(d, floor) >= floor,
        d > floor ==> shrink_dim(d, floor) < d,
{
}

proof fn lemma_shrink_iter_shift(d: int, floor: int, n: nat)
    ensures
        shrink_iter(shrink_dim(d, floor), floor, n) == shrink_iter(d, floor, n + 1),
    decreases n,
{
    if n == 0 {
        assert(shrink_iter(shrink_dim(d, floor), floor, 0) == shrink_dim(d, floor));
        assert(shrink_iter(d, floor, 1) == shrink_dim(shrink_iter(d, floor, 0), floor));
    } else {
        lemma_shrink_iter_shift(d, floor, (n - 1) as nat);
        assert(shrink_iter(shrink_dim(d, floor), floor, n) == shrink_dim(
            shrink_iter(shrink_dim(d, floor), floor, (n - 1) as nat),
            floor,
        ));
        assert(shrink_iter(d, floor, n + 1) == shrink_dim(shrink_iter(d, floor, n), floor));
    }
}

/// From any starting dimension, repeated shrinking reaches exactly the
/// floor.
pub proof fn lemma_shrink_converges(d: int, floor: int)
    requires
        floor >= 1,
        d >= 0,
    ensures
        exists|n: nat| shrink_iter(d, floor, n) == floor,
    decreases d,
{
    if shrink_dim(d, floor) == floor {
        assert(shrink_iter(d, floor, 1) == shrink_dim(shrink_iter(d, floor, 0), floor));
        assert(shrink_iter(d, floor, 1) == floor);
    } else {
        lemma_shrink_progress(d, floor);
        assert(d > floor);
        let d2 = shrink_dim(d, floor);
        assert(floor <= d2 < d);
        lemma_shrink_converges(d2, floor);
        let n = choose|n: nat| shrink_iter(d2, floor, n) == floor;
        lemma_shrink_iter_shift(d, floor, n);
        assert(shrink_iter(d, floor, n + 1) == floor);
    }
}

/// Once at the floor, every further shrink leaves it there.
pub proof fn lemma_shrink_stays(d: int, floor: int, n: nat, m: nat)
    requires
        floor >= 1,
        shrink_iter(d, floor, n) == floor,
        n <= m,
    ensures
        shrink_iter(d, floor, m) == floor,
    decreases m - n,
{
    if n < m {
        assert(shrink_iter(d, floor, n + 1) == shrink_dim(shrink_iter(d, floor, n), floor));
        lemma_shrink_fixed_point(floor);
        lemma_shrink_stays(d, floor, n + 1, m);
    }
}

} // verus!
