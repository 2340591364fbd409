use galaxy::window_actions::maximize::FrameMetrics;
use galaxy::window_actions::{
    BottomHalfAction, BottomRightAction, CenterAction, CenterThirdAction, FirstThirdAction,
    FirstTwoThirdsAction, LastThirdAction, LastTwoThirdsAction, LeftHalfAction, MakeLargerAction,
    MakeSmallerAction, MaximizeHeightAction, MoveLeftAction, MoveRightAction, NoOpAction,
    RightHalfAction, TopHalfAction, TopLeftAction,
};
use galaxy::{
    compute_rectangle, plan_window_move, target_monitor_for, Action, ActionContext, EngineError,
    MonitorInfo, WindowInfo,
};

fn monitor(left: i32, top: i32, right: i32, bottom: i32) -> MonitorInfo {
    MonitorInfo {
        left,
        top,
        right,
        bottom,
        work_left: left,
        work_top: top,
        work_right: right,
        work_bottom: bottom,
    }
}

fn context(monitors: Vec<MonitorInfo>, current: usize, target: usize, win: WindowInfo) -> ActionContext {
    ActionContext { current_monitor: current, target_monitor: target, monitors, window_info: win }
}

fn hd_context() -> ActionContext {
    context(
        vec![monitor(0, 0, 1920, 1080)],
        0,
        0,
        WindowInfo { current_width: 800, current_height: 600, center_x: 960, center_y: 540 },
    )
}

#[test]
fn test_directional_wraparound() {
    // monitors A(0..100) and B(100..200): moving right from B wraps to A,
    // moving left from A wraps to B
    let monitors = vec![monitor(0, 0, 100, 100), monitor(100, 0, 200, 100)];
    assert_eq!(MoveRightAction.get_target_monitor(1, &monitors), 0);
    assert_eq!(MoveLeftAction.get_target_monitor(0, &monitors), 1);
    // and the plain adjacent moves
    assert_eq!(MoveRightAction.get_target_monitor(0, &monitors), 1);
    assert_eq!(MoveLeftAction.get_target_monitor(1, &monitors), 0);
}

#[test]
fn test_single_monitor_wraparound_is_noop() {
    let monitors = vec![monitor(0, 0, 1920, 1080)];
    assert_eq!(MoveLeftAction.get_target_monitor(0, &monitors), 0);
    assert_eq!(MoveRightAction.get_target_monitor(0, &monitors), 0);
}

#[test]
fn test_move_right_picks_nearest_monitor() {
    let monitors = vec![
        monitor(0, 0, 100, 100),
        monitor(300, 0, 400, 100),
        monitor(100, 0, 200, 100),
    ];
    // from the first monitor, the nearest to the right starts at 100
    assert_eq!(MoveRightAction.get_target_monitor(0, &monitors), 2);
    // from that one, the nearest to the right starts at 300
    assert_eq!(MoveRightAction.get_target_monitor(2, &monitors), 1);
}

#[test]
fn test_quarter_snap_exactness() {
    let ctx = hd_context();
    assert_eq!(TopLeftAction.calculate_position(&ctx), (960, 540, 0, 0));
    assert_eq!(BottomRightAction.calculate_position(&ctx), (960, 540, 960, 540));
}

#[test]
fn test_thirds_partition_width_exactly() {
    // 1000 is not divisible by 3: the last third absorbs the remainder
    let ctx = context(
        vec![monitor(0, 0, 1000, 600)],
        0,
        0,
        WindowInfo { current_width: 100, current_height: 100, center_x: 500, center_y: 300 },
    );
    let first = FirstThirdAction.calculate_position(&ctx);
    let center = CenterThirdAction.calculate_position(&ctx);
    let last = LastThirdAction.calculate_position(&ctx);
    assert_eq!(first, (333, 600, 0, 0));
    assert_eq!(center, (333, 600, 333, 0));
    assert_eq!(last, (334, 600, 666, 0));
    assert_eq!(first.2 + first.0, center.2);
    assert_eq!(center.2 + center.0, last.2);
    assert_eq!(last.2 + last.0, 1000);
}

#[test]
fn test_make_smaller_respects_floor() {
    let mut win = WindowInfo { current_width: 1000, current_height: 700, center_x: 500, center_y: 350 };
    for _ in 0..60 {
        let ctx = context(vec![monitor(0, 0, 1920, 1080)], 0, 0, win);
        let (w, h, _, _) = MakeSmallerAction.calculate_position(&ctx);
        assert!(w >= 200 && h >= 150);
        win.current_width = w;
        win.current_height = h;
    }
    // repeated shrinking converges to exactly the floor and stays there
    assert_eq!(win.current_width, 200);
    assert_eq!(win.current_height, 150);
    let ctx = context(vec![monitor(0, 0, 1920, 1080)], 0, 0, win);
    assert_eq!(MakeSmallerAction.calculate_position(&ctx), (200, 150, 400, 275));
}

#[test]
fn test_make_smaller_one_step() {
    let ctx = context(
        vec![monitor(0, 0, 1920, 1080)],
        0,
        0,
        WindowInfo { current_width: 1000, current_height: 700, center_x: 500, center_y: 350 },
    );
    // 900 by 630, re-centered on (500, 350)
    assert_eq!(MakeSmallerAction.calculate_position(&ctx), (900, 630, 50, 35));
}

#[test]
fn test_make_larger_grows_and_clamps() {
    let ctx = context(
        vec![monitor(0, 0, 1920, 1080)],
        0,
        0,
        WindowInfo { current_width: 1000, current_height: 700, center_x: 500, center_y: 350 },
    );
    // 1100 by 770, centered at (500, 350) but clamped to the work area
    assert_eq!(MakeLargerAction.calculate_position(&ctx), (1100, 770, 0, 0));
    let ctx2 = context(
        vec![monitor(0, 0, 1920, 1080)],
        0,
        0,
        WindowInfo { current_width: 1900, current_height: 1000, center_x: 960, center_y: 540 },
    );
    // capped at the work-area extent
    let (w, h, x, y) = MakeLargerAction.calculate_position(&ctx2);
    assert_eq!((w, h), (1920, 1080));
    assert_eq!((x, y), (0, 0));
}

#[test]
fn test_center_preserves_size() {
    let ctx = context(
        vec![monitor(0, 0, 1920, 1080)],
        0,
        0,
        WindowInfo { current_width: 801, current_height: 601, center_x: 100, center_y: 100 },
    );
    // truncating division: (1920-801)/2 = 559, (1080-601)/2 = 239
    assert_eq!(CenterAction.calculate_position(&ctx), (801, 601, 559, 239));
}

#[test]
fn test_maximize_height_keeps_width_and_x() {
    let ctx = context(
        vec![monitor(0, 0, 1920, 1080)],
        0,
        0,
        WindowInfo { current_width: 800, current_height: 600, center_x: 700, center_y: 500 },
    );
    assert_eq!(MaximizeHeightAction.calculate_position(&ctx), (800, 1080, 300, 0));
}

#[test]
fn test_no_op_returns_current_rectangle() {
    let ctx = hd_context();
    assert_eq!(NoOpAction.calculate_position(&ctx), (800, 600, 560, 240));
}

#[test]
fn test_directional_move_preserves_relative_position() {
    // a window in the lower right of A lands in the lower right of B
    let a = monitor(0, 0, 100, 100);
    let b = monitor(100, 0, 300, 200);
    let win = WindowInfo { current_width: 50, current_height: 50, center_x: 75, center_y: 75 };
    let ctx = context(vec![a, b], 0, 1, win);
    assert_eq!(MoveRightAction.calculate_position(&ctx), (100, 100, 200, 100));
}

#[test]
fn test_maximize_with_gutter_and_shadow() {
    let ctx = hd_context();
    let metrics = FrameMetrics {
        dpi: 96,
        win_left: 0,
        win_top: 0,
        win_right: 800,
        win_bottom: 600,
        ext_left: 8,
        ext_top: 0,
        ext_right: 792,
        ext_bottom: 592,
    };
    let r = compute_rectangle(&Action::Maximize { gutter: 32 }, &ctx, Some(&metrics));
    // shadows: left 8, top 0, right 8, bottom 8; gutter scales by dpi/96
    assert_eq!(r, Ok((1872, 1024, 24, 32)));
}

#[test]
fn test_maximize_scales_gutter_by_dpi() {
    let ctx = hd_context();
    let metrics = FrameMetrics {
        dpi: 144,
        win_left: 0,
        win_top: 0,
        win_right: 800,
        win_bottom: 600,
        ext_left: 0,
        ext_top: 0,
        ext_right: 800,
        ext_bottom: 600,
    };
    // 32 * 144 / 96 = 48
    let r = compute_rectangle(&Action::Maximize { gutter: 32 }, &ctx, Some(&metrics));
    assert_eq!(r, Ok((1920 - 96, 1080 - 96, 48, 48)));
}

#[test]
fn test_maximize_without_metrics_fails() {
    let ctx = hd_context();
    let r = compute_rectangle(&Action::Maximize { gutter: 0 }, &ctx, None);
    assert_eq!(r, Err(EngineError::OsQueryFailure));
    assert_eq!(EngineError::OsQueryFailure.describe(), "failed to query window metrics");
}

#[test]
fn test_target_monitor_for_stays_for_snaps() {
    let monitors = vec![monitor(0, 0, 100, 100), monitor(100, 0, 200, 100)];
    assert_eq!(target_monitor_for(&Action::LeftHalf, 1, &monitors), 1);
    assert_eq!(target_monitor_for(&Action::MoveRight, 1, &monitors), 0);
}

#[test]
fn test_plan_window_move_full_flow() {
    // window centered on B; move left lands it on A with carried size
    let monitors = vec![monitor(0, 0, 960, 540), monitor(960, 0, 1920, 540)];
    let r = plan_window_move(monitors, 1160, 100, 1660, 400, &Action::MoveLeft, None);
    // snapshot: 500x300 centered (1410, 250); relative position carries to A
    assert_eq!(r, Ok((500, 300, 200, 100)));
}

#[test]
fn test_plan_window_move_snap_on_current_monitor() {
    let monitors = vec![monitor(0, 0, 1920, 1080)];
    let r = plan_window_move(monitors, 100, 100, 900, 700, &Action::LeftHalf, None);
    assert_eq!(r, Ok((960, 1080, 0, 0)));
}

#[test]
fn test_plan_window_move_center_off_monitors_defaults_to_first() {
    let monitors = vec![monitor(0, 0, 100, 100), monitor(100, 0, 200, 100)];
    // the window center (500, 500) lies on no monitor: the first is used
    let r = plan_window_move(monitors, 450, 450, 550, 550, &Action::TopLeft, None);
    assert_eq!(r, Ok((50, 50, 0, 0)));
}

#[test]
fn test_halves_absorb_odd_pixel() {
    let ctx = context(
        vec![monitor(0, 0, 101, 51)],
        0,
        0,
        WindowInfo { current_width: 10, current_height: 10, center_x: 50, center_y: 25 },
    );
    assert_eq!(LeftHalfAction.calculate_position(&ctx), (50, 51, 0, 0));
    assert_eq!(RightHalfAction.calculate_position(&ctx), (51, 51, 50, 0));
    assert_eq!(TopHalfAction.calculate_position(&ctx), (101, 25, 0, 0));
    assert_eq!(BottomHalfAction.calculate_position(&ctx), (101, 26, 0, 25));
}

#[test]
fn test_two_thirds_snaps() {
    let ctx = context(
        vec![monitor(0, 0, 900, 600)],
        0,
        0,
        WindowInfo { current_width: 10, current_height: 10, center_x: 450, center_y: 300 },
    );
    assert_eq!(FirstTwoThirdsAction.calculate_position(&ctx), (600, 600, 0, 0));
    assert_eq!(LastTwoThirdsAction.calculate_position(&ctx), (600, 600, 300, 0));
}

#[test]
fn test_move_right_tie_keeps_first() {
    // two monitors to the right share the same leading edge: the first
    // in the list wins
    let monitors = vec![
        monitor(0, 0, 100, 100),
        monitor(200, 0, 300, 100),
        monitor(200, 0, 250, 50),
    ];
    assert_eq!(MoveRightAction.get_target_monitor(0, &monitors), 1);
    // wraparound: two monitors share the minimal leading edge; the
    // first in the list wins
    let monitors = vec![monitor(0, 0, 100, 100), monitor(0, 10, 50, 60), monitor(100, 0, 200, 100)];
    assert_eq!(MoveRightAction.get_target_monitor(2, &monitors), 0);
}

#[test]
fn test_move_left_tie_keeps_last() {
    // two monitors to the left share the same trailing edge: the last
    // in the list wins
    let monitors = vec![
        monitor(200, 0, 300, 100),
        monitor(100, 0, 200, 100),
        monitor(150, 10, 200, 60),
    ];
    assert_eq!(MoveLeftAction.get_target_monitor(0, &monitors), 2);
    // wraparound: two monitors share the maximal trailing edge; the
    // last in the list wins
    let monitors = vec![monitor(0, 0, 100, 100), monitor(100, 0, 200, 100), monitor(150, 0, 200, 50)];
    assert_eq!(MoveLeftAction.get_target_monitor(0, &monitors), 2);
}
