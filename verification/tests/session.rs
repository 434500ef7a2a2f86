use beacon_pulse::capture::{AppKind, WindowInfo};
use beacon_pulse::session::{
    clipboard_update, cursor_css_name, frame_budget_nanos, pacing_delay, session_window_info,
    CursorShape, CursorWatch, StreamState, CLIPBOARD_SYNC_LIMIT,
};
use beacon_pulse::CaptureTarget;

#[test]
fn frame_budget_at_common_rates() {
    assert_eq!(frame_budget_nanos(60), 16_666_000);
    assert_eq!(frame_budget_nanos(30), 33_333_000);
    assert_eq!(frame_budget_nanos(1), 1_000_000_000);
    assert_eq!(frame_budget_nanos(144), 6_944_000);
}

#[test]
fn pacing_sleeps_for_the_rest_of_the_budget() {
    assert_eq!(pacing_delay(16_666_000, 6_666_000), 10_000_000);
    assert_eq!(pacing_delay(16_666_000, 16_666_000), 0);
    assert_eq!(pacing_delay(16_666_000, 99_000_000_000), 0);
    assert_eq!(pacing_delay(16_666_000, 0), 16_666_000);
}

#[test]
fn stream_is_announced_once_with_a_keyframe_first() {
    let mut s = StreamState::new();
    let first = s.on_frame();
    assert!(first.announce);
    assert!(first.request_keyframe);
    let second = s.on_frame();
    assert!(!second.announce);
    assert!(!second.request_keyframe);
    s.on_capture_restart();
    let third = s.on_frame();
    assert!(!third.announce);
    assert!(third.request_keyframe);
    let fourth = s.on_frame();
    assert!(!fourth.announce);
    assert!(!fourth.request_keyframe);
}

#[test]
fn cursor_shapes_have_css_names() {
    assert_eq!(cursor_css_name(None), "none");
    assert_eq!(cursor_css_name(Some(CursorShape::Arrow)), "default");
    assert_eq!(cursor_css_name(Some(CursorShape::Hand)), "pointer");
    assert_eq!(cursor_css_name(Some(CursorShape::IBeam)), "text");
    assert_eq!(cursor_css_name(Some(CursorShape::No)), "not-allowed");
    assert_eq!(cursor_css_name(Some(CursorShape::SizeAll)), "move");
    assert_eq!(cursor_css_name(Some(CursorShape::SizeNesw)), "nesw-resize");
    assert_eq!(cursor_css_name(Some(CursorShape::SizeNs)), "ns-resize");
    assert_eq!(cursor_css_name(Some(CursorShape::SizeNwse)), "nwse-resize");
    assert_eq!(cursor_css_name(Some(CursorShape::SizeWe)), "ew-resize");
    assert_eq!(cursor_css_name(Some(CursorShape::Wait)), "wait");
    assert_eq!(cursor_css_name(Some(CursorShape::Cross)), "crosshair");
    assert_eq!(cursor_css_name(Some(CursorShape::AppStarting)), "progress");
    assert_eq!(cursor_css_name(Some(CursorShape::Help)), "help");
    assert_eq!(cursor_css_name(Some(CursorShape::Other)), "default");
}

#[test]
fn cursor_changes_are_sent_once() {
    let mut w = CursorWatch::new();
    assert!(w.observe("default"));
    assert!(!w.observe("default"));
    assert!(w.observe("text"));
    assert!(!w.observe("text"));
    assert!(w.observe("default"));
    assert_eq!(w.last, "default");
}

#[test]
fn clipboard_texts_are_sent_once_and_within_limits() {
    let mut last = String::new();
    assert_eq!(clipboard_update(None, Some("hello"), &mut last), Some("hello".to_string()));
    assert_eq!(last, "hello");
    assert_eq!(clipboard_update(Some(1), Some("hello"), &mut last), None);
    assert_eq!(clipboard_update(Some(0), Some("other"), &mut last), None);
    assert_eq!(last, "hello");
    assert_eq!(clipboard_update(Some(1), Some(""), &mut last), None);
    assert_eq!(clipboard_update(Some(1), None, &mut last), None);
    let big = "x".repeat(CLIPBOARD_SYNC_LIMIT + 1);
    assert_eq!(clipboard_update(Some(1), Some(&big), &mut last), None);
    let fits = "y".repeat(CLIPBOARD_SYNC_LIMIT);
    assert_eq!(clipboard_update(Some(1), Some(&fits), &mut last), Some(fits.clone()));
    assert_eq!(last, fits);
}

#[test]
fn session_window_records() {
    let w = session_window_info(&CaptureTarget::Window(-42), None);
    assert_eq!((w.hwnd, w.title.as_str(), w.process_name.as_str()), (-42, "hwnd:-42", ""));
    assert_eq!((w.width, w.height, w.process_id, w.is_minimized), (1920, 1080, 0, false));
    assert_eq!(w.app_kind, AppKind::Unknown);
    assert!(!w.suspends_render_when_minimized);
    let d = session_window_info(&CaptureTarget::Display(65537), None);
    assert_eq!((d.hwnd, d.title.as_str(), d.process_name.as_str()), (0, "Display 65537", "Display"));
    let m = session_window_info(&CaptureTarget::MultiWindow(vec![1, -2, 300]), None);
    assert_eq!(m.title, format!("MultiWindow {:?}", vec![1isize, -2, 300]));
    assert_eq!(m.process_name, "MultiWindow");
    let e = session_window_info(&CaptureTarget::MultiDisplay(vec![]), None);
    assert_eq!(e.title, "MultiDisplay []");
    let dual = session_window_info(&CaptureTarget::DualWindow(7, 8), None);
    assert_eq!(dual.title, "DualWindow 7, 8");
    let listed = WindowInfo {
        hwnd: 5,
        title: "Notes".to_string(),
        process_name: "notepad.exe".to_string(),
        process_id: 99,
        width: 800,
        height: 600,
        is_minimized: true,
        app_kind: AppKind::Win32,
        suspends_render_when_minimized: false,
    };
    let f = session_window_info(&CaptureTarget::Window(5), Some(listed));
    assert_eq!((f.title.as_str(), f.process_id, f.width), ("Notes", 99, 800));
    let i = session_window_info(&CaptureTarget::Window(isize::MIN), None);
    assert_eq!(i.title, format!("hwnd:{}", isize::MIN));
}
