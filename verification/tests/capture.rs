use beacon_pulse::capture::health::{frame_choice, FrameChoice, PollPlan};
use beacon_pulse::capture::compatibility::{
    classify_app_kind, detect_app_kind, preferred_backend, suspends_render_when_minimized,
};
use beacon_pulse::capture::compose::scale_and_blit_bgra;
use beacon_pulse::capture::health::{
    is_stale, recovery_due, suspension_due, CaptureHealth, PollOutcome,
};
use beacon_pulse::capture::policy::{
    engine_for, fallbacks_after, minimized_backend, needs_switch, restored_backend,
    startup_backends, window_changes, CaptureEngine, MinimizeChange,
};
use beacon_pulse::capture::audio::{
    audio_packet, take_opus_frame, to_stereo, AUDIO_DISPLAY_ID, OPUS_FRAME_SAMPLES,
    OPUS_FRAME_SAMPLES_PER_CHANNEL,
};
use beacon_pulse::capture::window_list::{
    display_window_info, monitor_entry, order_by_title, window_entry, WindowProbe, WS_CHILD,
};
use beacon_pulse::capture::{AppKind, CaptureBackend, PersistentCaptureConfig, WindowInfo};
use beacon_pulse::capture::compose::grid_shape;
use beacon_pulse::capture::compose::cell_origin;

fn window(process: &str, title: &str) -> WindowInfo {
    WindowInfo {
        hwnd: 1,
        title: title.to_string(),
        process_name: process.to_string(),
        process_id: 1,
        width: 800,
        height: 600,
        is_minimized: false,
        app_kind: AppKind::Unknown,
        suspends_render_when_minimized: false,
    }
}

#[test]
fn detects_rdp_clients() {
    assert_eq!(detect_app_kind(&window("mstsc.exe", "x")), AppKind::RDP);
    assert_eq!(detect_app_kind(&window("MSRDC.EXE", "x")), AppKind::RDP);
    assert_eq!(detect_app_kind(&window("other.exe", "My Remote Desktop")), AppKind::RDP);
}

#[test]
fn detects_chromium_family() {
    assert_eq!(detect_app_kind(&window("chrome.exe", "Tab")), AppKind::Chromium);
    assert_eq!(detect_app_kind(&window("MSEdge.exe", "Tab")), AppKind::Chromium);
    assert_eq!(detect_app_kind(&window("Code.exe", "main.rs")), AppKind::Chromium);
    assert_eq!(detect_app_kind(&window("Discord.exe", "")), AppKind::Chromium);
    assert_eq!(detect_app_kind(&window("Figma.exe", "")), AppKind::Chromium);
}

#[test]
fn detects_games_by_process_or_title() {
    assert_eq!(detect_app_kind(&window("UnityPlayer.exe", "")), AppKind::DirectX);
    assert_eq!(detect_app_kind(&window("foo.exe", "Vulkan demo")), AppKind::DirectX);
    assert_eq!(detect_app_kind(&window("bar.exe", "My GAME")), AppKind::DirectX);
    assert_eq!(detect_app_kind(&window("notepad.exe", "notes.txt")), AppKind::Win32);
}

#[test]
fn rdp_wins_over_chromium_and_uwp() {
    assert_eq!(classify_app_kind("mstsc-chrome", "", true), AppKind::RDP);
    assert_eq!(classify_app_kind("chrome", "", true), AppKind::Chromium);
    assert_eq!(classify_app_kind("calc", "game", true), AppKind::UWP);
    assert_eq!(classify_app_kind("calc", "game", false), AppKind::DirectX);
}

#[test]
fn render_suspension_kinds() {
    assert!(suspends_render_when_minimized(&AppKind::Chromium));
    assert!(suspends_render_when_minimized(&AppKind::DirectX));
    assert!(suspends_render_when_minimized(&AppKind::UWP));
    assert!(suspends_render_when_minimized(&AppKind::Vulkan));
    assert!(!suspends_render_when_minimized(&AppKind::Win32));
    assert!(!suspends_render_when_minimized(&AppKind::OpenGL));
    assert!(!suspends_render_when_minimized(&AppKind::RDP));
    assert!(!suspends_render_when_minimized(&AppKind::Unknown));
}

#[test]
fn preferred_backends() {
    assert_eq!(preferred_backend(&AppKind::UWP, true), CaptureBackend::WGC);
    assert_eq!(preferred_backend(&AppKind::Chromium, false), CaptureBackend::WGC);
    assert_eq!(preferred_backend(&AppKind::Chromium, true), CaptureBackend::PrintWindow);
    assert_eq!(preferred_backend(&AppKind::DirectX, true), CaptureBackend::WGC);
    assert_eq!(preferred_backend(&AppKind::RDP, true), CaptureBackend::WGC);
    assert_eq!(preferred_backend(&AppKind::Win32, true), CaptureBackend::PrintWindow);
    assert_eq!(preferred_backend(&AppKind::Unknown, false), CaptureBackend::WGC);
}

#[test]
fn fallback_chain_moves_forward() {
    assert_eq!(
        fallbacks_after(CaptureBackend::WGC),
        vec![CaptureBackend::DDA, CaptureBackend::DXShared, CaptureBackend::PrintWindow]
    );
    assert_eq!(
        fallbacks_after(CaptureBackend::DXShared),
        vec![CaptureBackend::PrintWindow]
    );
    assert!(fallbacks_after(CaptureBackend::PrintWindow).is_empty());
}

#[test]
fn startup_order_and_minimize_rules() {
    assert_eq!(
        startup_backends(&AppKind::Win32, true),
        vec![
            CaptureBackend::PrintWindow,
            CaptureBackend::WGC,
            CaptureBackend::DDA,
            CaptureBackend::PrintWindow
        ]
    );
    assert_eq!(minimized_backend(&AppKind::UWP), None);
    assert_eq!(minimized_backend(&AppKind::Chromium), None);
    assert_eq!(minimized_backend(&AppKind::DirectX), Some(CaptureBackend::PrintWindow));
    assert_eq!(minimized_backend(&AppKind::Win32), Some(CaptureBackend::PrintWindow));
    assert_eq!(restored_backend(&AppKind::Chromium), CaptureBackend::WGC);
}

#[test]
fn persistent_capture_defaults() {
    let c = PersistentCaptureConfig::default();
    assert!(c.persistent_mode);
    assert!(c.preserve_last_frame);
    assert!(!c.prevent_render_suspend);
    assert_eq!(c.stale_frame_notify_ms, 1000);
}

#[test]
fn recovery_needs_three_failures_and_two_seconds() {
    assert!(!recovery_due(2, None));
    assert!(recovery_due(3, None));
    assert!(!recovery_due(5, Some(1_999_999_999)));
    assert!(recovery_due(5, Some(2_000_000_000)));
}

#[test]
fn suspension_and_staleness_thresholds() {
    assert!(!suspension_due(1_000_000_000, 1000, false, true));
    assert!(suspension_due(1_000_000_001, 1000, false, true));
    assert!(!suspension_due(5_000_000_000, 1000, true, true));
    assert!(!suspension_due(5_000_000_000, 1000, false, false));
    assert!(!is_stale(500_000_000));
    assert!(is_stale(500_000_001));
}

#[test]
fn health_counts_failures_and_recovers_once() {
    let mut h = CaptureHealth::new();
    h.on_poll(PollOutcome::Failed);
    h.on_poll(PollOutcome::Failed);
    assert!(!h.take_recovery());
    h.on_poll(PollOutcome::Nothing);
    h.on_poll(PollOutcome::Failed);
    assert_eq!(h.consecutive_failures, 3);
    assert!(h.take_recovery());
    assert_eq!(h.consecutive_failures, 0);
    for _ in 0..3 {
        h.on_poll(PollOutcome::Failed);
    }
    // The last attempt was just now: the next waits 2 s.
    assert!(!h.take_recovery());
    h.on_poll(PollOutcome::Frame);
    assert_eq!(h.consecutive_failures, 0);
    assert!(!h.frame_is_stale());
}

#[test]
fn lost_window_reported_once() {
    let mut h = CaptureHealth::new();
    assert!(h.on_window_lost());
    assert!(!h.on_window_lost());
}

#[test]
fn fresh_frame_is_not_a_suspension() {
    let mut h = CaptureHealth::new();
    assert!(!h.take_suspension_report(1000, true));
    assert!(!h.stale_notified);
    h.stale_notified = true;
    h.on_poll(PollOutcome::Frame);
    assert!(!h.stale_notified);
}

#[test]
fn blit_copies_scaled_pixels() {
    // 2x1 source: red pixel then green pixel.
    let src = [0u8, 0, 255, 255, 0, 255, 0, 255];
    let mut dst = vec![9u8; 4 * 4 * 2];
    // Scale into a 4x2 rectangle at the origin of a 4x2 frame.
    scale_and_blit_bgra(&src, 2, 1, &mut dst, 4, 2, 0, 0, 4, 2);
    let red = [0u8, 0, 255, 255];
    let green = [0u8, 255, 0, 255];
    for y in 0..2 {
        for x in 0..4 {
            let p = &dst[(y * 4 + x) * 4..(y * 4 + x) * 4 + 4];
            if x < 2 {
                assert_eq!(p, &red);
            } else {
                assert_eq!(p, &green);
            }
        }
    }
}

#[test]
fn blit_clips_to_destination() {
    let src = [1u8, 2, 3, 4];
    let mut dst = vec![0u8; 2 * 2 * 4];
    scale_and_blit_bgra(&src, 1, 1, &mut dst, 2, 2, 1, 1, 5, 5);
    assert_eq!(&dst[0..12], &[0u8; 12]);
    assert_eq!(&dst[12..16], &[1u8, 2, 3, 4]);
}

#[test]
fn blit_ignores_empty_input() {
    let mut dst = vec![7u8; 16];
    scale_and_blit_bgra(&[], 2, 2, &mut dst, 2, 2, 0, 0, 2, 2);
    assert_eq!(dst, vec![7u8; 16]);
    scale_and_blit_bgra(&[1, 2, 3, 4], 1, 1, &mut dst, 2, 2, 0, 0, 0, 2);
    assert_eq!(dst, vec![7u8; 16]);
}

#[test]
fn blit_skips_pixels_outside_the_source() {
    // The source claims 2x2 but holds one pixel: only the first is copied.
    let src = [5u8, 6, 7, 8];
    let mut dst = vec![0u8; 16];
    scale_and_blit_bgra(&src, 2, 2, &mut dst, 2, 2, 0, 0, 2, 2);
    assert_eq!(&dst[0..4], &[5u8, 6, 7, 8]);
    assert_eq!(&dst[4..16], &[0u8; 12]);
}

#[test]
fn composite_grid_is_near_square() {
    assert_eq!(grid_shape(1), (1, 1));
    assert_eq!(grid_shape(2), (2, 1));
    assert_eq!(grid_shape(3), (2, 2));
    assert_eq!(grid_shape(4), (2, 2));
    assert_eq!(grid_shape(5), (3, 2));
    assert_eq!(grid_shape(9), (3, 3));
    assert_eq!(grid_shape(10), (4, 3));
    for n in 1..200u32 {
        let f = n as f32;
        let cols = f.sqrt().ceil() as u32;
        let rows = (f / cols as f32).ceil() as u32;
        assert_eq!(grid_shape(n), (cols, rows));
    }
}

#[test]
fn composite_cells_centre_their_frames() {
    assert_eq!(cell_origin(0, 2, 1, 1920, 1080, 960, 540), (0, 270));
    assert_eq!(cell_origin(1, 2, 1, 1920, 1080, 800, 1080), (1040, 0));
    assert_eq!(cell_origin(3, 2, 2, 1920, 1080, 960, 540), (960, 540));
    assert_eq!(cell_origin(4, 3, 2, 1920, 1080, 600, 540), (660, 540));
}

fn probe(title: &str, l: i32, t: i32, r: i32, b: i32) -> WindowProbe {
    WindowProbe {
        hwnd: 77,
        visible: true,
        style: 0x10CF_0000,
        owned: false,
        title: title.to_string(),
        left: l,
        top: t,
        right: r,
        bottom: b,
        process_id: 4242,
        process_name: Some("chrome.exe".to_string()),
        minimized: false,
    }
}

#[test]
fn offered_windows_are_recorded() {
    let w = window_entry(probe("Inbox - Mail", 10, 20, 810, 620)).unwrap();
    assert_eq!((w.hwnd, w.title.as_str(), w.process_name.as_str()), (77, "Inbox - Mail", "chrome.exe"));
    assert_eq!((w.width, w.height, w.process_id, w.is_minimized), (800, 600, 4242, false));
    assert_eq!(w.app_kind, AppKind::Chromium);
    assert!(w.suspends_render_when_minimized);
    let mut unknown = probe("Notes", 0, 0, 300, 200);
    unknown.process_name = None;
    let u = window_entry(unknown).unwrap();
    assert_eq!(u.process_name, "Unknown");
    assert_eq!(u.app_kind, AppKind::Win32);
}

#[test]
fn hidden_small_and_shell_windows_are_not_offered() {
    let mut hidden = probe("A", 0, 0, 100, 100);
    hidden.visible = false;
    assert!(window_entry(hidden).is_none());
    let mut child = probe("A", 0, 0, 100, 100);
    child.style |= WS_CHILD;
    assert!(window_entry(child).is_none());
    let mut owned = probe("A", 0, 0, 100, 100);
    owned.owned = true;
    assert!(window_entry(owned).is_none());
    assert!(window_entry(probe("", 0, 0, 100, 100)).is_none());
    assert!(window_entry(probe("Program Manager", 0, 0, 1920, 1080)).is_none());
    assert!(window_entry(probe("Settings - Display", 0, 0, 900, 700)).is_none());
    assert!(window_entry(probe("Task View", 0, 0, 900, 700)).is_none());
    assert!(window_entry(probe("My Settings", 0, 0, 900, 700)).is_some());
    assert!(window_entry(probe("A", 0, 0, 49, 100)).is_none());
    assert!(window_entry(probe("A", 0, 0, 100, 49)).is_none());
    assert!(window_entry(probe("A", 100, 0, 50, 100)).is_none());
    assert!(window_entry(probe("A", 0, 0, 50, 50)).is_some());
}

fn titled(title: &str, hwnd: isize) -> WindowInfo {
    let mut w = window(title, title);
    w.title = title.to_string();
    w.hwnd = hwnd;
    w
}

#[test]
fn windows_are_listed_by_lowercase_title_stably() {
    let ws = vec![
        titled("beta", 1),
        titled("Alpha", 2),
        titled("BETA", 3),
        titled("alpha", 4),
        titled("Zed", 5),
        titled("", 6),
    ];
    let mut expected = ws.clone();
    expected.sort_by_key(|a| a.title.to_lowercase());
    let sorted = order_by_title(ws);
    let order: Vec<isize> = sorted.iter().map(|w| w.hwnd).collect();
    assert_eq!(order, vec![6, 2, 4, 1, 3, 5]);
    let std_order: Vec<isize> = expected.iter().map(|w| w.hwnd).collect();
    assert_eq!(order, std_order);
    assert!(order_by_title(Vec::new()).is_empty());
}

#[test]
fn monitors_are_recorded() {
    let m = monitor_entry(9, "\\\\.\\DISPLAY1\0\0\0", -1920, 0, 0, 1080, 0);
    assert_eq!((m.handle, m.name.as_str(), m.width, m.height, m.is_primary), (9, "\\\\.\\DISPLAY1", 1920, 1080, false));
    let p = monitor_entry(1, "DISPLAY2", 0, 1080, 2560, 0, 3);
    assert_eq!((p.width, p.height, p.is_primary), (2560, 1080, true));
}

#[test]
fn display_records_fall_back_to_full_hd() {
    let d = display_window_info(65537, Some((0, 0, 3840, 2160)));
    assert_eq!((d.title.as_str(), d.process_name.as_str(), d.width, d.height), ("Display 65537", "Display", 3840, 2160));
    let f = display_window_info(-3, None);
    assert_eq!((f.title.as_str(), f.width, f.height, f.hwnd), ("Display -3", 1920, 1080, 0));
}

#[test]
fn window_polls_report_changes() {
    assert_eq!(window_changes(false, (800, 600), true, None), (Some(MinimizeChange::Minimized), None));
    assert_eq!(window_changes(true, (800, 600), false, Some((800, 600))), (Some(MinimizeChange::Restored), None));
    assert_eq!(window_changes(false, (800, 600), false, Some((1024, 600))), (None, Some((1024, 600))));
    assert_eq!(window_changes(false, (800, 600), false, Some((800, 600))), (None, None));
    assert_eq!(engine_for(CaptureBackend::WGC), CaptureEngine::GraphicsCapture);
    assert_eq!(engine_for(CaptureBackend::DDA), CaptureEngine::DesktopDuplication);
    assert_eq!(engine_for(CaptureBackend::DXShared), CaptureEngine::DesktopDuplication);
    assert_eq!(engine_for(CaptureBackend::PrintWindow), CaptureEngine::DesktopDuplication);
    assert!(!needs_switch(CaptureBackend::WGC, CaptureBackend::WGC));
    assert!(needs_switch(CaptureBackend::WGC, CaptureBackend::PrintWindow));
}

#[test]
fn loopback_samples_become_stereo() {
    assert_eq!(to_stereo(&[0.1f32, -0.2, 0.3, -0.4], 2), vec![0.1f32, -0.2, 0.3, -0.4]);
    assert_eq!(to_stereo(&[0.5f32, -0.5], 1), vec![0.5f32, 0.5, -0.5, -0.5]);
    let six: Vec<f32> = (0..14).map(|i| i as f32).collect();
    assert_eq!(to_stereo(&six, 6), vec![0.0f32, 1.0, 6.0, 7.0]);
    assert_eq!(to_stereo::<f32>(&[], 3), Vec::<f32>::new());
}

#[test]
fn opus_frames_are_cut_from_the_buffer() {
    let mut buf: Vec<f32> = (0..(OPUS_FRAME_SAMPLES + 5)).map(|i| i as f32).collect();
    let frame = take_opus_frame(&mut buf).unwrap();
    assert_eq!(frame.len(), OPUS_FRAME_SAMPLES);
    assert_eq!(frame[0], 0.0);
    assert_eq!(buf, vec![1920.0f32, 1921.0, 1922.0, 1923.0, 1924.0]);
    assert!(take_opus_frame(&mut buf).is_none());
    assert_eq!(buf.len(), 5);
    assert_eq!(OPUS_FRAME_SAMPLES, 2 * OPUS_FRAME_SAMPLES_PER_CHANNEL);
}

#[test]
fn audio_packets_are_marked() {
    let p = audio_packet(vec![1, 2, 3], 99);
    assert_eq!((p.data, p.timestamp_us, p.is_keyframe, p.width, p.height, p.display_id), (vec![1u8, 2, 3], 99, false, 0, 0, AUDIO_DISPLAY_ID));
    assert_eq!(AUDIO_DISPLAY_ID, 255);
}

#[test]
fn per_target_poll_plan_and_decisions() {
    let mut h = CaptureHealth::new();
    assert_eq!(h.plan_poll(true, true, false), PollPlan::Capture);
    assert_eq!(h.plan_poll(true, true, true), PollPlan::Minimized);
    assert_eq!(h.plan_poll(false, false, false), PollPlan::Capture);
    assert_eq!(h.plan_poll(true, false, false), PollPlan::Lost { report: true });
    assert_eq!(h.plan_poll(true, false, false), PollPlan::Lost { report: false });
    let mut h = CaptureHealth::new();
    for _ in 0..2 {
        assert!(!h.finish_poll(PollOutcome::Failed, 1000, false).recover);
    }
    let d = h.finish_poll(PollOutcome::Failed, 1000, false);
    assert!(d.recover);
    assert!(!d.report_suspended);
    assert_eq!(h.consecutive_failures, 0);
    assert_eq!(frame_choice(1, 0), FrameChoice::NoFrame);
    assert_eq!(frame_choice(1, 1), FrameChoice::Single);
    assert_eq!(frame_choice(3, 2), FrameChoice::Composite);
}
