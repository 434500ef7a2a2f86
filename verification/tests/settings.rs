use beacon_pulse::capture::{AppKind, WindowInfo};
use beacon_pulse::settings::{
    settings_registry_writes, share_registry_writes, stop_share_registry_writes, RegistryValue,
    RegistryWrite, SavedSettings,
};
use beacon_pulse::CaptureTarget;

fn empty() -> SavedSettings {
    SavedSettings {
        bitrate_kbps: None,
        fps: None,
        audio_enabled: None,
        clipboard_enabled: None,
        allow_input_control: None,
        unattended_mode: None,
        unattended_pin: None,
        tls_enabled: None,
        adaptive_bitrate_enabled: None,
        use_static_code: None,
        static_code: None,
        start_with_windows: None,
    }
}

fn describe(w: &RegistryWrite) -> String {
    match w {
        RegistryWrite::Dword(k, v) => format!("{}={}", k.name(), v),
        RegistryWrite::Text(k, t) => format!("{}='{}'", k.name(), t),
        RegistryWrite::Delete(k) => format!("-{}", k.name()),
        RegistryWrite::AddStartup => "+startup".to_string(),
        RegistryWrite::RemoveStartup => "-startup".to_string(),
    }
}

fn all(s: SavedSettings) -> Vec<String> {
    settings_registry_writes(s).iter().map(describe).collect()
}

#[test]
fn empty_document_only_removes_the_static_code() {
    assert_eq!(all(empty()), vec!["-PairingCode"]);
}

#[test]
fn full_document_mirrors_every_setting_in_order() {
    let s = SavedSettings {
        bitrate_kbps: Some(8000),
        fps: Some(60),
        audio_enabled: Some(true),
        clipboard_enabled: Some(false),
        allow_input_control: Some(true),
        unattended_mode: Some(true),
        unattended_pin: Some("4321".to_string()),
        tls_enabled: Some(false),
        adaptive_bitrate_enabled: Some(true),
        use_static_code: Some(true),
        static_code: Some("778899".to_string()),
        start_with_windows: Some(false),
    };
    assert_eq!(
        all(s),
        vec![
            "Quality=8",
            "Fps=60",
            "Audio=1",
            "Clipboard=0",
            "ControlEnabled=1",
            "Unattended=1",
            "UnattendedPin='4321'",
            "TlsEnabled=0",
            "AdaptiveBitrate=1",
            "PairingCode='778899'",
            "-startup",
            "StartupEnabled=0",
        ]
    );
}

#[test]
fn quality_and_fps_are_cut_to_32_bits() {
    let mut s = empty();
    s.bitrate_kbps = Some(2500);
    s.fps = Some((1u64 << 32) + 30);
    s.use_static_code = Some(false);
    s.start_with_windows = Some(true);
    assert_eq!(all(s), vec!["Quality=2", "Fps=30", "-PairingCode", "+startup"]);
}

#[test]
fn static_code_in_use_without_a_code_writes_nothing_for_it() {
    let mut s = empty();
    s.use_static_code = Some(true);
    assert_eq!(all(s), Vec::<String>::new());
    assert_eq!(RegistryValue::StartupEnabled.name(), "StartupEnabled");
}

#[test]
fn sharing_records_the_target_for_the_watchdog() {
    let w = WindowInfo {
        hwnd: 5,
        title: "Notes".to_string(),
        process_name: "notepad.exe".to_string(),
        process_id: 1,
        width: 800,
        height: 600,
        is_minimized: false,
        app_kind: AppKind::Win32,
        suspends_render_when_minimized: false,
    };
    let d = |v: Vec<RegistryWrite>| v.iter().map(describe).collect::<Vec<_>>();
    assert_eq!(
        d(share_registry_writes(&CaptureTarget::Window(5), Some(&w))),
        vec!["LastWindowProcess='notepad.exe'", "LastWindowTitle='Notes'"]
    );
    assert!(share_registry_writes(&CaptureTarget::Window(5), None).is_empty());
    assert_eq!(
        d(share_registry_writes(&CaptureTarget::Display(-7), None)),
        vec!["LastTargetType='Display'", "LastTargetDisplay='-7'"]
    );
    assert!(share_registry_writes(&CaptureTarget::DualWindow(1, 2), None).is_empty());
    assert_eq!(
        d(stop_share_registry_writes()),
        vec!["LastWindowProcess=''", "LastWindowTitle=''", "LastTargetType=''", "LastTargetDisplay=''"]
    );
}
