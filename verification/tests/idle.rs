use obs_clip::idle::{capture_due, IdleVerdict, IdleWatchdog, WindowGeometry, IDLE_POLL_SECS};
use obs_clip::window::Rect;

fn fullscreen() -> Option<WindowGeometry> {
    let monitor = Rect { left: 0, top: 0, right: 2560, bottom: 1440 };
    Some(WindowGeometry { window: monitor, monitor })
}

fn windowed() -> Option<WindowGeometry> {
    let monitor = Rect { left: 0, top: 0, right: 2560, bottom: 1440 };
    let window = Rect { left: 100, top: 100, right: 900, bottom: 700 };
    Some(WindowGeometry { window, monitor })
}

#[test]
fn poll_interval_is_five_minutes() {
    assert_eq!(IDLE_POLL_SECS, 300);
}

#[test]
fn new_watchdog_has_seen_no_input() {
    assert_eq!(IdleWatchdog::new().last_input_time, 0);
}

#[test]
fn active_user_in_fullscreen_gets_a_capture() {
    let mut watchdog = IdleWatchdog::new();
    assert!(watchdog.check(Some(1000), fullscreen()));
    assert_eq!(watchdog.last_input_time, 1000);
}

#[test]
fn unchanged_input_time_gets_no_capture() {
    let mut watchdog = IdleWatchdog::new();
    assert!(watchdog.check(Some(1000), fullscreen()));
    assert!(!watchdog.check(Some(1000), fullscreen()));
    assert_eq!(watchdog.last_input_time, 1000);
    assert!(watchdog.check(Some(1001), fullscreen()));
}

#[test]
fn earlier_input_time_gets_no_capture() {
    let mut watchdog = IdleWatchdog { last_input_time: 500 };
    assert!(!watchdog.check(Some(499), fullscreen()));
    assert_eq!(watchdog.last_input_time, 500);
}

#[test]
fn input_time_zero_on_a_new_watchdog_is_idle() {
    let mut watchdog = IdleWatchdog::new();
    assert_eq!(watchdog.observe_input(Some(0)), IdleVerdict::Idle);
}

#[test]
fn failed_query_gets_no_capture_and_keeps_the_baseline() {
    let mut watchdog = IdleWatchdog { last_input_time: 500 };
    assert_eq!(watchdog.observe_input(None), IdleVerdict::QueryFailed);
    assert!(!watchdog.check(None, fullscreen()));
    assert_eq!(watchdog.last_input_time, 500);
}

#[test]
fn active_user_without_fullscreen_window_gets_no_capture() {
    let mut watchdog = IdleWatchdog::new();
    assert!(!watchdog.check(Some(10), windowed()));
    assert_eq!(watchdog.last_input_time, 10);
    assert!(!watchdog.check(Some(20), None));
    assert_eq!(watchdog.last_input_time, 20);
}

#[test]
fn observe_input_tells_active_from_idle() {
    let mut watchdog = IdleWatchdog::new();
    assert_eq!(watchdog.observe_input(Some(7)), IdleVerdict::Active);
    assert_eq!(watchdog.observe_input(Some(7)), IdleVerdict::Idle);
    assert_eq!(watchdog.observe_input(Some(8)), IdleVerdict::Active);
    assert_eq!(watchdog.last_input_time, 8);
}

#[test]
fn capture_is_due_only_in_fullscreen() {
    assert!(capture_due(fullscreen()));
    assert!(!capture_due(windowed()));
    assert!(!capture_due(None));
}
