use vstd::prelude::*;
use crate::{ActionContext, WindowInfo};

verus! {

/// The window's current rectangle, reconstructed from its size and
/// center: no change.
pub open spec fn no_op_rect(win: WindowInfo) -> (int, int, int, int) {
    (
        win.current_width as int,
        win.current_height as int,
        win.center_x - win.current_width / 2,
        win.center_y - win.current_height / 2,
    )
}

pub struct NoOpAction;

impl NoOpAction {
    /// Returns the current position and size, unchanged.
    pub fn calculate_position(&self, context: &ActionContext) -> (r: (i32, i32, i32, i32))
        requires
            context.wf(),
        ensures
            (r.0 as int, r.1 as int, r.2 as int, r.3 as int) == no_op_rect(context.window_info),
    {
        let w = context.window_info;
        (
            w.current_width,
            w.current_height,
            w.center_x - w.current_width / 2,
            w.center_y - w.current_height / 2,
        )
    }
}

} // verus!
