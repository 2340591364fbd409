//! Window-tiling engine and shortcut canonicalization.
//!
//! The crate computes window placement rectangles over multi-monitor
//! geometry and keeps a registry of global-shortcut bindings consistent
//! under edits; the OS collaborators (display queries, hotkey
//! registration, persistence) stay outside and hand in plain values.

pub mod geometry;
pub mod key_mapping;
pub mod shortcut_laws;
pub mod shortcuts;
pub mod text;
pub mod window_actions;

use vstd::prelude::*;
use crate::shortcuts::{normalize_shortcut, normalized, symbols_translated, translate_key_symbols};
use crate::text::{chars_of, eq_str};
use crate::window_actions::{
    action_rect, BottomHalfAction, BottomLeftAction, BottomRightAction, CenterAction,
    CenterThirdAction, FirstThirdAction, FirstTwoThirdsAction, LastThirdAction,
    LastTwoThirdsAction, LeftHalfAction, MakeLargerAction, MakeSmallerAction, MaximizeAction,
    MaximizeHeightAction, MoveLeftAction, MoveRightAction, NoOpAction, RightHalfAction,
    TopHalfAction, TopLeftAction, TopRightAction,
};
use crate::window_actions::move_left::move_left_target;
use crate::window_actions::move_right::move_right_target;
use crate::window_actions::maximize::{maximize_rect, FrameMetrics};

verus! {

/// A snapshot of one monitor: full bounds and the work area
/// (the usable region excluding OS-reserved chrome such as a taskbar).
#[derive(Clone, Copy, Debug)]
pub struct MonitorInfo {
    pub left: i32,
    pub top: i32,
    pub right: i32,
    pub bottom: i32,
    pub work_left: i32,
    pub work_top: i32,
    pub work_right: i32,
    pub work_bottom: i32,
}

impl MonitorInfo {
    /// Both rectangles are non-degenerate, the work area lies within the
    /// full bounds, and every coordinate is small enough that the
    /// engine's integer arithmetic stays in range.
    pub open spec fn wf(self) -> bool {
        &&& self.left < self.right
        &&& self.top < self.bottom
        &&& self.left <= self.work_left < self.work_right <= self.right
        &&& self.top <= self.work_top < self.work_bottom <= self.bottom
        &&& -0x2000_0000 <= self.left
        &&& self.right <= 0x2000_0000
        &&& -0x2000_0000 <= self.top
        &&& self.bottom <= 0x2000_0000
    }
}

/// The focused window at action time: current size and center point.
#[derive(Clone, Copy, Debug)]
pub struct WindowInfo {
    pub current_width: i32,
    pub current_height: i32,
    pub center_x: i32,
    pub center_y: i32,
}

impl WindowInfo {
    /// Sizes are non-negative and every value is small enough that the
    /// engine's integer arithmetic stays in range.
    pub open spec fn wf(self) -> bool {
        &&& 0 <= self.current_width <= 0x4000_0000
        &&& 0 <= self.current_height <= 0x4000_0000
        &&& -0x2000_0000 <= self.center_x <= 0x2000_0000
        &&& -0x2000_0000 <= self.center_y <= 0x2000_0000
    }
}

/// The input of every placement computation: the monitor list, the
/// current and target monitor indices, and the window snapshot.
#[derive(Clone, Debug)]
pub struct ActionContext {
    pub current_monitor: usize,
    pub target_monitor: usize,
    pub monitors: Vec<MonitorInfo>,
    pub window_info: WindowInfo,
}

impl ActionContext {
    pub open spec fn wf(self) -> bool {
        &&& self.current_monitor < self.monitors@.len()
        &&& self.target_monitor < self.monitors@.len()
        &&& forall|i: int| 0 <= i < self.monitors@.len() ==> (#[trigger] self.monitors@[i]).wf()
        &&& self.window_info.wf()
    }

    /// The monitor the window currently sits on.
    pub open spec fn cur(self) -> MonitorInfo {
        self.monitors@[self.current_monitor as int]
    }

    /// The monitor the window is headed to.
    pub open spec fn tgt(self) -> MonitorInfo {
        self.monitors@[self.target_monitor as int]
    }
}

/// The closed set of window actions.
#[derive(Debug, Clone, Copy, PartialEq, Eq, Structural)]
pub enum Action {
    MoveLeft,
    MoveRight,
    Maximize { gutter: i32 },
    LeftHalf,
    RightHalf,
    TopHalf,
    BottomHalf,
    TopLeft,
    TopRight,
    BottomLeft,
    BottomRight,
    FirstThird,
    CenterThird,
    LastThird,
    FirstTwoThirds,
    LastTwoThirds,
    Center,
    MakeLarger,
    MakeSmaller,
    MaximizeHeight,
    NoOp,
}

impl Action {
    /// A gutter is a margin in pixels: non-negative, and small enough
    /// that scaling it by the DPI factor stays in range.
    pub open spec fn wf(self) -> bool {
        match self {
            Action::Maximize { gutter } => 0 <= gutter <= 0x8000,
            _ => true,
        }
    }
}

/// Failure of a placement computation, per the error taxonomy: an OS
/// query the action depends on did not deliver.
#[derive(Debug, Clone, Copy, PartialEq, Eq, Structural)]
pub enum EngineError {
    /// The action needs live frame metrics (DPI, extended frame bounds)
    /// and none were supplied.
    OsQueryFailure,
}

impl EngineError {
    /// A short description, for surfacing to the caller.
    pub fn describe(&self) -> (r: &'static str)
        ensures
            r@ == "failed to query window metrics"@,
    {
        "failed to query window metrics"
    }
}

/// The monitor an action sends the window to: directional moves pick an
/// adjacent monitor with wraparound, every other action stays put.
pub open spec fn action_target(action: Action, monitors: Seq<MonitorInfo>, cur: int) -> int {
    match action {
        Action::MoveLeft => move_left_target(monitors, cur),
        Action::MoveRight => move_right_target(monitors, cur),
        _ => cur,
    }
}

/// Selects the target monitor for an action.
pub fn target_monitor_for(
    action: &Action,
    current_monitor: usize,
    monitors: &Vec<MonitorInfo>,
) -> (r: usize)
    requires
        current_monitor < monitors@.len(),
        forall|i: int| 0 <= i < monitors@.len() ==> (#[trigger] monitors@[i]).wf(),
    ensures
        r < monitors@.len(),
        r as int == action_target(*action, monitors@, current_monitor as int),
{
    match action {
        Action::MoveLeft => MoveLeftAction.get_target_monitor(current_monitor, monitors),
        Action::MoveRight => MoveRightAction.get_target_monitor(current_monitor, monitors),
        _ => current_monitor,
    }
}

/// The rectangle an action yields, as a function of the two monitors,
/// the window snapshot and (for Maximize) the live frame metrics; absent
/// metrics fail exactly the one action that needs them.
pub open spec fn action_outcome(
    action: Action,
    cur: MonitorInfo,
    tgt: MonitorInfo,
    win: WindowInfo,
    metrics: Option<FrameMetrics>,
) -> Result<(int, int, int, int), EngineError> {
    match action {
        Action::Maximize { gutter } => match metrics {
            Some(f) => Ok(maximize_rect(cur, gutter as int, f)),
            None => Err(EngineError::OsQueryFailure),
        },
        _ => Ok(action_rect(action, cur, tgt, win)),
    }
}

/// Computes the new rectangle `(width, height, x, y)` for an action.
/// Every pure-geometry action succeeds; only Maximize can fail, and only
/// for want of the frame metrics it needs.
pub fn compute_rectangle(
    action: &Action,
    context: &ActionContext,
    metrics: Option<&FrameMetrics>,
) -> (r: Result<(i32, i32, i32, i32), EngineError>)
    requires
        context.wf(),
        action.wf(),
        (metrics matches Some(f) ==> f.wf()),
    ensures
        ({
            let spec_metrics = match metrics {
                Some(f) => Some::<FrameMetrics>(*f),
                None => None::<FrameMetrics>,
            };
            match (r, action_outcome(
                *action,
                context.cur(),
                context.tgt(),
                context.window_info,
                spec_metrics,
            )) {
                (Ok(v), Ok(w)) => (v.0 as int, v.1 as int, v.2 as int, v.3 as int) == w,
                (Err(e), Err(f)) => e == f,
                _ => false,
            }
        }),
{
    match action {
        Action::MoveLeft => Ok(MoveLeftAction.calculate_position(context)),
        Action::MoveRight => Ok(MoveRightAction.calculate_position(context)),
        Action::Maximize { gutter } => match metrics {
            Some(f) => Ok(MaximizeAction { gutter: *gutter }.calculate_position(context, f)),
            None => Err(EngineError::OsQueryFailure),
        },
        Action::LeftHalf => Ok(LeftHalfAction.calculate_position(context)),
        Action::RightHalf => Ok(RightHalfAction.calculate_position(context)),
        Action::TopHalf => Ok(TopHalfAction.calculate_position(context)),
        Action::BottomHalf => Ok(BottomHalfAction.calculate_position(context)),
        Action::TopLeft => Ok(TopLeftAction.calculate_position(context)),
        Action::TopRight => Ok(TopRightAction.calculate_position(context)),
        Action::BottomLeft => Ok(BottomLeftAction.calculate_position(context)),
        Action::BottomRight => Ok(BottomRightAction.calculate_position(context)),
        Action::FirstThird => Ok(FirstThirdAction.calculate_position(context)),
        Action::CenterThird => Ok(CenterThirdAction.calculate_position(context)),
        Action::LastThird => Ok(LastThirdAction.calculate_position(context)),
        Action::FirstTwoThirds => Ok(FirstTwoThirdsAction.calculate_position(context)),
        Action::LastTwoThirds => Ok(LastTwoThirdsAction.calculate_position(context)),
        Action::Center => Ok(CenterAction.calculate_position(context)),
        Action::MakeLarger => Ok(MakeLargerAction.calculate_position(context)),
        Action::MakeSmaller => Ok(MakeSmallerAction.calculate_position(context)),
        Action::MaximizeHeight => Ok(MaximizeHeightAction.calculate_position(context)),
        Action::NoOp => Ok(NoOpAction.calculate_position(context)),
    }
}


/// The window center lies within the monitor's full bounds.
pub open spec fn point_in_monitor(m: MonitorInfo, cx: int, cy: int) -> bool {
    m.left <= cx < m.right && m.top <= cy < m.bottom
}

/// The first of the first `n` monitors whose bounds contain the point,
/// if any.
pub open spec fn monitor_containing(
    monitors: Seq<MonitorInfo>,
    cx: int,
    cy: int,
    n: int,
) -> Option<int>
    decreases n,
{
    if n <= 0 {
        None
    } else {
        let prev = monitor_containing(monitors, cx, cy, n - 1);
        if prev is Some {
            prev
        } else if point_in_monitor(monitors[n - 1], cx, cy) {
            Some(n - 1)
        } else {
            None
        }
    }
}

/// The monitor the engine works from: the first whose bounds contain the
/// window center, or the first monitor when none does.
pub open spec fn current_monitor_of(monitors: Seq<MonitorInfo>, cx: int, cy: int) -> int {
    match monitor_containing(monitors, cx, cy, monitors.len() as int) {
        Some(i) => i,
        None => 0,
    }
}

/// What one whole action invocation computes from the window rectangle
/// and the monitor list: derive the snapshot, locate the current
/// monitor, select the target, and work out the action's rectangle.
pub open spec fn plan_spec(
    monitors: Seq<MonitorInfo>,
    win_left: int,
    win_top: int,
    win_right: int,
    win_bottom: int,
    action: Action,
    metrics: Option<FrameMetrics>,
) -> Result<(int, int, int, int), EngineError> {
    let cx = crate::geometry::div_trunc(win_left + win_right, 2);
    let cy = crate::geometry::div_trunc(win_top + win_bottom, 2);
    let cur = current_monitor_of(monitors, cx, cy);
    let tgt = action_target(action, monitors, cur);
    let win = WindowInfo {
        current_width: (win_right - win_left) as i32,
        current_height: (win_bottom - win_top) as i32,
        center_x: cx as i32,
        center_y: cy as i32,
    };
    action_outcome(action, monitors[cur], monitors[tgt], win, metrics)
}

/// Runs one whole action invocation over a fresh monitor snapshot and
/// the focused window's rectangle, producing the rectangle to apply.
pub fn plan_window_move(
    monitors: Vec<MonitorInfo>,
    win_left: i32,
    win_top: i32,
    win_right: i32,
    win_bottom: i32,
    action: &Action,
    metrics: Option<&FrameMetrics>,
) -> (r: Result<(i32, i32, i32, i32), EngineError>)
    requires
        monitors@.len() > 0,
        forall|i: int| 0 <= i < monitors@.len() ==> (#[trigger] monitors@[i]).wf(),
        action.wf(),
        (metrics matches Some(f) ==> f.wf()),
        -0x2000_0000 <= win_left <= win_right <= 0x2000_0000,
        -0x2000_0000 <= win_top <= win_bottom <= 0x2000_0000,
    ensures
        ({
            let spec_metrics = match metrics {
                Some(f) => Some::<FrameMetrics>(*f),
                None => None::<FrameMetrics>,
            };
            match (r, plan_spec(
                monitors@,
                win_left as int,
                win_top as int,
                win_right as int,
                win_bottom as int,
                *action,
                spec_metrics,
            )) {
                (Ok(v), Ok(w)) => (v.0 as int, v.1 as int, v.2 as int, v.3 as int) == w,
                (Err(e), Err(f)) => e == f,
                _ => false,
            }
        }),
{
    let cx64 = crate::geometry::div_trunc_i64((win_left as i64) + (win_right as i64), 2);
    let cy64 = crate::geometry::div_trunc_i64((win_top as i64) + (win_bottom as i64), 2);
    proof {
        assert(-0x2000_0000 <= cx64 <= 0x2000_0000);
        assert(-0x2000_0000 <= cy64 <= 0x2000_0000);
    }
    let cx = cx64 as i32;
    let cy = cy64 as i32;
    let n = monitors.len();
    let mut cur: usize = 0;
    let mut found = false;
    let mut i: usize = 0;
    while i < n
        invariant
            0 <= i <= n,
            n == monitors@.len(),
            found ==> cur < i && monitor_containing(monitors@, cx as int, cy as int, i as int)
                == Some(cur as int),
            !found ==> cur == 0 && monitor_containing(
                monitors@,
                cx as int,
                cy as int,
                i as int,
            ) is None,
        decreases n - i,
    {
        let m = &monitors[i];
        if !found && m.left <= cx && cx < m.right && m.top <= cy && cy < m.bottom {
            cur = i;
            found = true;
        }
        i = i + 1;
    }
    let window_info = WindowInfo {
        current_width: win_right - win_left,
        current_height: win_bottom - win_top,
        center_x: cx,
        center_y: cy,
    };
    let target = target_monitor_for(action, cur, &monitors);
    let context = ActionContext {
        current_monitor: cur,
        target_monitor: target,
        monitors,
        window_info,
    };
    compute_rectangle(action, &context, metrics)
}


/// The engine action bound to a logical identifier, if any.
pub open spec fn action_of_id(id: Seq<char>) -> Option<Action> {
    if id == "moveMonitorLeft"@ {
        Some(Action::MoveLeft)
    } else if id == "moveMonitorRight"@ {
        Some(Action::MoveRight)
    } else if id == "maximizeWindow"@ {
        Some(Action::Maximize { gutter: 0 })
    } else if id == "almostMaximizeWindow"@ {
        Some(Action::Maximize { gutter: 32 })
    } else if id == "leftHalf"@ {
        Some(Action::LeftHalf)
    } else if id == "rightHalf"@ {
        Some(Action::RightHalf)
    } else if id == "topHalf"@ {
        Some(Action::TopHalf)
    } else if id == "bottomHalf"@ {
        Some(Action::BottomHalf)
    } else if id == "topLeft"@ {
        Some(Action::TopLeft)
    } else if id == "topRight"@ {
        Some(Action::TopRight)
    } else if id == "bottomLeft"@ {
        Some(Action::BottomLeft)
    } else if id == "bottomRight"@ {
        Some(Action::BottomRight)
    } else if id == "firstThird"@ {
        Some(Action::FirstThird)
    } else if id == "centerThird"@ {
        Some(Action::CenterThird)
    } else if id == "lastThird"@ {
        Some(Action::LastThird)
    } else if id == "firstTwoThirds"@ {
        Some(Action::FirstTwoThirds)
    } else if id == "lastTwoThirds"@ {
        Some(Action::LastTwoThirds)
    } else if id == "center"@ {
        Some(Action::Center)
    } else if id == "makeLarger"@ {
        Some(Action::MakeLarger)
    } else if id == "makeSmaller"@ {
        Some(Action::MakeSmaller)
    } else if id == "maximizeHeight"@ {
        Some(Action::MaximizeHeight)
    } else {
        None
    }
}

/// Maps a binding's logical identifier to its engine action.
pub fn action_for_id(id: &str) -> (r: Option<Action>)
    ensures
        r == action_of_id(id@),
{
    let v = chars_of(id);
    if eq_str(&v, "moveMonitorLeft") {
        return Some(Action::MoveLeft);
    }
    if eq_str(&v, "moveMonitorRight") {
        return Some(Action::MoveRight);
    }
    if eq_str(&v, "maximizeWindow") {
        return Some(Action::Maximize { gutter: 0 });
    }
    if eq_str(&v, "almostMaximizeWindow") {
        return Some(Action::Maximize { gutter: 32 });
    }
    if eq_str(&v, "leftHalf") {
        return Some(Action::LeftHalf);
    }
    if eq_str(&v, "rightHalf") {
        return Some(Action::RightHalf);
    }
    if eq_str(&v, "topHalf") {
        return Some(Action::TopHalf);
    }
    if eq_str(&v, "bottomHalf") {
        return Some(Action::BottomHalf);
    }
    if eq_str(&v, "topLeft") {
        return Some(Action::TopLeft);
    }
    if eq_str(&v, "topRight") {
        return Some(Action::TopRight);
    }
    if eq_str(&v, "bottomLeft") {
        return Some(Action::BottomLeft);
    }
    if eq_str(&v, "bottomRight") {
        return Some(Action::BottomRight);
    }
    if eq_str(&v, "firstThird") {
        return Some(Action::FirstThird);
    }
    if eq_str(&v, "centerThird") {
        return Some(Action::CenterThird);
    }
    if eq_str(&v, "lastThird") {
        return Some(Action::LastThird);
    }
    if eq_str(&v, "firstTwoThirds") {
        return Some(Action::FirstTwoThirds);
    }
    if eq_str(&v, "lastTwoThirds") {
        return Some(Action::LastTwoThirds);
    }
    if eq_str(&v, "center") {
        return Some(Action::Center);
    }
    if eq_str(&v, "makeLarger") {
        return Some(Action::MakeLarger);
    }
    if eq_str(&v, "makeSmaller") {
        return Some(Action::MakeSmaller);
    }
    if eq_str(&v, "maximizeHeight") {
        return Some(Action::MaximizeHeight);
    }
    None
}

/// The first binding whose combination normalizes to the fired one and
/// whose identifier names an action, among the first `n`.
pub open spec fn dispatch_index(
    bindings: Seq<(String, crate::shortcuts::ShortcutConfig)>,
    fired_norm: Seq<char>,
    n: int,
) -> Option<int>
    decreases n,
{
    if n <= 0 {
        None
    } else {
        let prev = dispatch_index(bindings, fired_norm, n - 1);
        if prev is Some {
            prev
        } else {
            let b = bindings[n - 1];
            if normalized(symbols_translated(b.1.default_shortcut@)) == fired_norm && action_of_id(
                b.0@,
            ) is Some {
                Some(n - 1)
            } else {
                None
            }
        }
    }
}

proof fn lemma_dispatch_index_found(
    bindings: Seq<(String, crate::shortcuts::ShortcutConfig)>,
    fired_norm: Seq<char>,
    i: int,
    n: int,
)
    requires
        0 <= i < n <= bindings.len(),
        dispatch_index(bindings, fired_norm, i) is None,
        normalized(symbols_translated(bindings[i].1.default_shortcut@)) == fired_norm,
        action_of_id(bindings[i].0@) is Some,
    ensures
        dispatch_index(bindings, fired_norm, n) == Some(i),
    decreases n,
{
    if n > i + 1 {
        lemma_dispatch_index_found(bindings, fired_norm, i, n - 1);
    }
}

/// Looks a fired key combination up in the binding set: the first
/// binding whose combination normalizes equal to the fired one and that
/// names an action wins; normalized equality is the sole comparison.
pub fn dispatch_lookup(config: &crate::shortcuts::ShortcutsConfig, fired: &str) -> (r: Option<
    (String, Action),
>)
    ensures
        ({
            let fired_norm = normalized(fired@);
            let w = dispatch_index(config.shortcuts@, fired_norm, config.shortcuts@.len() as int);
            match (r, w) {
                (Some(p), Some(i)) => p.0@ == config.shortcuts@[i].0@ && Some(p.1) == action_of_id(
                    config.shortcuts@[i].0@,
                ),
                (None, None) => true,
                _ => false,
            }
        }),
{
    let fired_norm = normalize_shortcut(fired);
    let n = config.shortcuts.len();
    let mut i: usize = 0;
    while i < n
        invariant
            0 <= i <= n,
            n == config.shortcuts@.len(),
            fired_norm@ == normalized(fired@),
            dispatch_index(config.shortcuts@, normalized(fired@), i as int) is None,
        decreases n - i,
    {
        let entry = &config.shortcuts[i];
        let translated = translate_key_symbols(entry.1.default_shortcut.as_str());
        let norm = normalize_shortcut(translated.as_str());
        if norm == fired_norm {
            match action_for_id(entry.0.as_str()) {
                Some(action) => {
                    proof {
                        lemma_dispatch_index_found(
                            config.shortcuts@,
                            normalized(fired@),
                            i as int,
                            n as int,
                        );
                    }
                    return Some((entry.0.clone(), action));
                },
                None => {},
            }
        }
        i = i + 1;
    }
    None
}

} // verus!
