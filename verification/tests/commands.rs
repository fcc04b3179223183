use window_commands::commands::OPACITY_SCALE;
use window_commands::commands::get_window_opacity;
use window_commands::commands::get_window_size;
use window_commands::commands::set_always_on_top;
use window_commands::commands::set_window_size;
use window_commands::commands::set_window_transparent;
use window_commands::host::HostError;
use window_commands::host::SizeLimits;
use window_commands::host::Window;
use window_commands::host::error_text;

const DEAD_MESSAGE: &str = "window reference is invalid or destroyed";

fn roomy_limits() -> SizeLimits {
    SizeLimits { min_width: 1, min_height: 1, max_width: 10_000, max_height: 10_000 }
}

#[test]
fn set_window_size_then_get_round_trip() {
    let mut win = Window::create(roomy_limits(), 640, 480);
    assert_eq!(set_window_size(&mut win, 800, 600), Ok(()));
    assert_eq!(get_window_size(&win), Ok((800, 600)));
}

#[test]
fn always_on_top_toggle() {
    let mut win = Window::create(roomy_limits(), 640, 480);
    assert_eq!(set_always_on_top(&mut win, true), Ok(()));
    assert!(win.always_on_top);
    assert_eq!(set_always_on_top(&mut win, false), Ok(()));
    assert!(!win.always_on_top);
}

#[test]
fn opacity_with_no_prior_state() {
    let opacity = get_window_opacity().unwrap();
    assert_eq!(opacity.per_mille, OPACITY_SCALE);
    assert_eq!(opacity.per_mille as f64 / OPACITY_SCALE as f64, 1.0);
}

#[test]
fn opacity_constant_over_any_call_sequence() {
    let mut win = Window::create(roomy_limits(), 640, 480);
    let first = get_window_opacity().unwrap();
    let _ = set_always_on_top(&mut win, true);
    let _ = set_window_size(&mut win, 50, 50);
    let _ = set_window_transparent(&win, false);
    win.destroy();
    let second = get_window_opacity().unwrap();
    assert_eq!(first, second);
    assert_eq!(second.per_mille, OPACITY_SCALE);
}

#[test]
fn transparent_stub_always_succeeds() {
    let mut win = Window::create(roomy_limits(), 640, 480);
    assert_eq!(set_window_transparent(&win, true), Ok(()));
    assert_eq!(set_window_transparent(&win, true), Ok(()));
    assert_eq!(set_window_transparent(&win, false), Ok(()));
    let before = win;
    win.destroy();
    assert_eq!(set_window_transparent(&win, true), Ok(()));
    assert_eq!(win.width, before.width);
    assert_eq!(win.height, before.height);
    assert_eq!(win.always_on_top, before.always_on_top);
}

#[test]
fn operations_fail_on_destroyed_window() {
    let mut win = Window::create(roomy_limits(), 640, 480);
    win.destroy();
    assert_eq!(set_always_on_top(&mut win, true), Err(DEAD_MESSAGE.to_string()));
    assert_eq!(get_window_size(&win), Err(DEAD_MESSAGE.to_string()));
    assert_eq!(set_window_size(&mut win, 800, 600), Err(DEAD_MESSAGE.to_string()));
    assert_eq!(set_window_transparent(&win, true), Ok(()));
    assert!(get_window_opacity().is_ok());
}

#[test]
fn resize_clamps_to_host_limits() {
    let limits =
        SizeLimits { min_width: 100, min_height: 100, max_width: 2000, max_height: 2000 };
    let mut win = Window::create(limits, 800, 600);
    assert_eq!(set_window_size(&mut win, 50, 3000), Ok(()));
    assert_eq!(get_window_size(&win), Ok((100, 2000)));
}

#[test]
fn create_clamps_initial_size() {
    let limits =
        SizeLimits { min_width: 200, min_height: 200, max_width: 1000, max_height: 1000 };
    let win = Window::create(limits, 1, 5000);
    assert_eq!(get_window_size(&win), Ok((200, 1000)));
    assert!(win.alive);
    assert!(!win.always_on_top);
}

#[test]
fn unconstrained_limits_admit_any_size() {
    let mut win = Window::create(SizeLimits::unconstrained(), 640, 480);
    assert_eq!(set_window_size(&mut win, 1, u32::MAX), Ok(()));
    assert_eq!(get_window_size(&win), Ok((1, u32::MAX)));
}

#[test]
fn error_text_is_uniform() {
    assert_eq!(error_text(&HostError::WindowDestroyed), DEAD_MESSAGE.to_string());
}
