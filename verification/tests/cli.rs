use beacon_pulse::capture::{AppKind, WindowInfo};
use beacon_pulse::cli::{
    background_args, benchmark_target, choose_startup_window, find_window, host_launch_mode, parse_host_args,
    player_wants_terminal, quality_bitrate_bps, truncate_str, LaunchMode, ArgError, HostArgs, HostFlag, HostLoopAction, HostPresence, HostSessionEvent,
};

fn args(list: &[&str]) -> Vec<String> {
    list.iter().map(|s| s.to_string()).collect()
}

fn window(process: &str, title: &str) -> WindowInfo {
    WindowInfo {
        hwnd: 7,
        title: title.to_string(),
        process_name: process.to_string(),
        process_id: 7,
        width: 100,
        height: 100,
        is_minimized: false,
        app_kind: AppKind::Win32,
        suspends_render_when_minimized: false,
    }
}

#[test]
fn parses_all_host_options() {
    let inv = parse_host_args(&args(&[
        "beacon", "host", "-w", "chrome", "--port", "45100", "-cp", "45101", "--code", "888888",
        "-q", "30",
    ]))
    .unwrap();
    assert_eq!(inv.args.window_title.as_deref(), Some("chrome"));
    assert_eq!(inv.args.port, Some(45100));
    assert_eq!(inv.args.control_port, Some(45101));
    assert_eq!(inv.args.code.as_deref(), Some("888888"));
    assert_eq!(inv.args.quality, Some(30));
    assert!(!inv.startup);
    assert!(!inv.bg_service);
}

#[test]
fn mode_switches_are_seen_anywhere() {
    let inv = parse_host_args(&args(&["beacon", "host", "--startup", "--window", "x"])).unwrap();
    assert!(inv.startup);
    assert!(!inv.bg_service);
    let inv = parse_host_args(&args(&["beacon", "host", "--bg-service"])).unwrap();
    assert!(inv.bg_service);
    assert_eq!(inv.args.window_title, None);
    let inv = parse_host_args(&args(&["beacon", "host"])).unwrap();
    assert_eq!(inv.args.port, None);
}

#[test]
fn later_options_override_earlier_ones() {
    let inv = parse_host_args(&args(&["b", "host", "-p", "1", "-p", "+2"])).unwrap();
    assert_eq!(inv.args.port, Some(2));
}

#[test]
fn host_argument_errors() {
    assert_eq!(
        parse_host_args(&args(&["b", "host", "--window"])).err(),
        Some(ArgError::MissingValue(HostFlag::Window))
    );
    assert_eq!(
        parse_host_args(&args(&["b", "host", "--port", "70000"])).err(),
        Some(ArgError::InvalidNumber(HostFlag::Port))
    );
    assert_eq!(
        parse_host_args(&args(&["b", "host", "-cp", "abc"])).err(),
        Some(ArgError::InvalidNumber(HostFlag::ControlPort))
    );
    assert_eq!(
        parse_host_args(&args(&["b", "host", "-q", "-5"])).err(),
        Some(ArgError::InvalidNumber(HostFlag::Quality))
    );
    assert_eq!(
        parse_host_args(&args(&["b", "host", "--verbose"])).err(),
        Some(ArgError::UnknownArgument("--verbose".to_string()))
    );
}

#[test]
fn readme_host_example_parses() {
    let inv = parse_host_args(&args(&[
        "beacon.exe", "host", "--window", "Chrome", "--quality", "30", "--fps", "60", "--code", "123456",
    ]))
    .unwrap();
    assert_eq!(inv.args.window_title.as_deref(), Some("Chrome"));
    assert_eq!(inv.args.quality, Some(30));
    assert_eq!(inv.args.fps, Some(60));
    assert_eq!(inv.args.code.as_deref(), Some("123456"));
}

#[test]
fn parses_capture_and_feature_options() {
    let inv = parse_host_args(&args(&[
        "b", "host", "-d", "65537", "-mw", "10, 20,30", "-dw", "7,8", "-f", "30", "-a", "true", "-cb", "false",
    ]))
    .unwrap();
    assert_eq!(inv.args.display, Some(65537));
    assert_eq!(inv.args.multi_window, Some(vec![10, 20, 30]));
    assert_eq!(inv.args.dual_window, Some((7, 8)));
    assert_eq!(inv.args.fps, Some(30));
    assert_eq!(inv.args.audio, Some(true));
    assert_eq!(inv.args.clipboard, Some(false));
    let inv = parse_host_args(&args(&["b", "host", "--multi-window", "5"])).unwrap();
    assert_eq!(inv.args.multi_window, Some(vec![5]));
    assert_eq!(
        parse_host_args(&args(&["b", "host", "--dual-window", "1,2,3"])).err(),
        Some(ArgError::InvalidValue(HostFlag::DualWindow))
    );
    assert_eq!(
        parse_host_args(&args(&["b", "host", "-mw", "1,,2"])).err(),
        Some(ArgError::InvalidNumber(HostFlag::MultiWindow))
    );
    assert_eq!(
        parse_host_args(&args(&["b", "host", "--audio", "yes"])).err(),
        Some(ArgError::InvalidValue(HostFlag::Audio))
    );
    assert_eq!(
        parse_host_args(&args(&["b", "host", "--display", "x"])).err(),
        Some(ArgError::InvalidNumber(HostFlag::Display))
    );
    assert_eq!(ArgError::InvalidValue(HostFlag::Clipboard).message(), "Invalid value for --clipboard (use true or false)");
    assert_eq!(ArgError::InvalidValue(HostFlag::DualWindow).message(), "--dual-window takes two window handles");
    assert_eq!(ArgError::InvalidNumber(HostFlag::Fps).message(), "Invalid value for --fps");
}

#[test]
fn quality_to_bitrate() {
    assert_eq!(quality_bitrate_bps(20), 20_000_000);
    assert_eq!(quality_bitrate_bps(0), 0);
}

#[test]
fn finds_window_by_title_or_process() {
    let wins = vec![
        window("explorer.exe", "Files"),
        window("chrome.exe", "Inbox - Mail"),
        window("code.exe", "Chrome notes"),
    ];
    assert_eq!(find_window(&wins, "CHROME"), Some(1));
    assert_eq!(find_window(&wins, "notes"), Some(2));
    assert_eq!(find_window(&wins, "vlc"), None);
    assert_eq!(find_window(&Vec::new(), "x"), None);
}

#[test]
fn startup_window_choice() {
    let wins = vec![
        window("explorer.exe", "Files"),
        window("Chrome.exe", "Mail"),
        window("obs.exe", "Scene"),
    ];
    assert_eq!(choose_startup_window(&wins, Some("chrome.EXE"), Some("scene"), false), Some(1));
    assert_eq!(choose_startup_window(&wins, Some("vlc.exe"), Some("SCENE"), false), Some(2));
    assert_eq!(choose_startup_window(&wins, Some("vlc.exe"), None, false), None);
    assert_eq!(choose_startup_window(&wins, None, None, true), Some(0));
    assert_eq!(choose_startup_window(&Vec::new(), None, None, true), None);
}

#[test]
fn background_service_command_line() {
    let a = HostArgs {
        window_title: None,
        port: Some(45100),
        code: None,
        control_port: None,
        quality: Some(25),
        display: None, multi_window: None, dual_window: None, fps: None, audio: None, clipboard: None,
    };
    assert_eq!(
        background_args("chrome.exe", &a, false, Some("123456")),
        args(&[
            "host", "--bg-service", "--window", "chrome.exe", "--port", "45100", "--quality", "25",
            "--code", "123456"
        ])
    );
    assert_eq!(
        background_args("chrome.exe", &a, true, Some("123456")),
        args(&["host", "--bg-service", "--window", "chrome.exe", "--port", "45100", "--quality", "25"])
    );
    let b = HostArgs { window_title: None, port: None, code: None, control_port: Some(9), quality: None, display: None, multi_window: None, dual_window: None, fps: None, audio: None, clipboard: None };
    assert_eq!(
        background_args("x", &b, false, None),
        args(&["host", "--bg-service", "--window", "x", "--control-port", "9"])
    );
}

#[test]
fn truncates_long_titles() {
    assert_eq!(truncate_str("short", 30), "short");
    assert_eq!(truncate_str("exactly5", 8), "exactly5");
    assert_eq!(truncate_str("a long window title", 7), "a long…");
    assert_eq!(truncate_str("ab", 1), "…");
    assert_eq!(truncate_str("héllo", 4), "hél…");
    assert_eq!(truncate_str("ééé", 3), "ééé");
    assert_eq!(truncate_str("aéé", 2), "a…");
}

#[test]
fn attended_host_stops_when_player_leaves() {
    let mut p = HostPresence::new();
    assert_eq!(p.on_event(HostSessionEvent::ClientDisconnected, true, false), HostLoopAction::Continue);
    assert_eq!(p.on_event(HostSessionEvent::ClientConnected, true, false), HostLoopAction::AnnounceConnection);
    assert_eq!(p.on_event(HostSessionEvent::ClientConnected, true, false), HostLoopAction::Continue);
    assert_eq!(p.on_event(HostSessionEvent::Other, true, false), HostLoopAction::Continue);
    assert_eq!(p.on_event(HostSessionEvent::ClientDisconnected, true, false), HostLoopAction::Stop);
}

#[test]
fn unattended_host_waits_for_next_player() {
    let mut p = HostPresence::new();
    assert_eq!(p.on_event(HostSessionEvent::ClientConnected, false, true), HostLoopAction::Continue);
    assert_eq!(p.on_event(HostSessionEvent::ClientDisconnected, false, true), HostLoopAction::Continue);
    assert!(!p.player_connected);
    assert_eq!(p.on_event(HostSessionEvent::StreamStopped, false, true), HostLoopAction::Stop);
    assert_eq!(p.on_event(HostSessionEvent::Shutdown, false, true), HostLoopAction::Stop);
}

#[test]
fn host_launch_modes() {
    assert_eq!(host_launch_mode(&args(&["beacon"]), 1), LaunchMode::Console);
    assert_eq!(host_launch_mode(&args(&["beacon"]), 2), LaunchMode::Terminal);
    assert_eq!(host_launch_mode(&args(&["beacon", "headless"]), 1), LaunchMode::Terminal);
    assert_eq!(host_launch_mode(&args(&["beacon", "host", "--startup"]), 1), LaunchMode::Terminal);
    assert_eq!(host_launch_mode(&args(&["beacon", "benchmark"]), 1), LaunchMode::Benchmark(10));
    assert_eq!(host_launch_mode(&args(&["beacon", "benchmark", "30"]), 1), LaunchMode::Benchmark(30));
    assert_eq!(host_launch_mode(&args(&["beacon", "benchmark", "x"]), 1), LaunchMode::Benchmark(10));
    assert_eq!(host_launch_mode(&args(&["beacon", "service"]), 1), LaunchMode::Service);
    assert_eq!(host_launch_mode(&args(&["beacon", "host"]), 1), LaunchMode::Console);
}

#[test]
fn player_launch_modes() {
    assert!(!player_wants_terminal(&args(&["pulse"])));
    assert!(player_wants_terminal(&args(&["pulse", "headless"])));
    assert!(player_wants_terminal(&args(&["pulse", "play", "--bg-service"])));
}

fn sized(w: u32, h: u32) -> WindowInfo {
    let mut win = window("app.exe", "App");
    win.width = w;
    win.height = h;
    win
}

#[test]
fn benchmark_picks_largest_window_last_on_ties() {
    assert_eq!(benchmark_target(&Vec::new()), None);
    let wins = vec![sized(100, 100), sized(200, 50), sized(50, 300), sized(10, 10)];
    assert_eq!(benchmark_target(&wins), Some(2));
    let ties = vec![sized(100, 100), sized(50, 200), sized(1, 1)];
    assert_eq!(benchmark_target(&ties), Some(1));
    let expected = ties.iter().enumerate().max_by_key(|(_, w)| w.width * w.height).map(|(i, _)| i);
    assert_eq!(benchmark_target(&ties), expected);
}

#[test]
fn argument_error_messages() {
    assert_eq!(ArgError::MissingValue(HostFlag::Window).message(), "Missing value for --window");
    assert_eq!(ArgError::MissingValue(HostFlag::ControlPort).message(), "Missing value for --control-port");
    assert_eq!(ArgError::InvalidNumber(HostFlag::Port).message(), "Invalid port number");
    assert_eq!(ArgError::InvalidNumber(HostFlag::ControlPort).message(), "Invalid control port number");
    assert_eq!(
        ArgError::InvalidNumber(HostFlag::Quality).message(),
        "Invalid quality value (use Mbps, e.g. 20)"
    );
    assert_eq!(ArgError::UnknownArgument("-x".to_string()).message(), "Unknown argument: -x");
}

#[test]
fn background_service_reads_back_its_options() {
    let a = HostArgs {
        window_title: Some("ignored".to_string()),
        port: Some(45100),
        code: None,
        control_port: Some(0),
        quality: Some(4294),
        display: None, multi_window: None, dual_window: None, fps: None, audio: None, clipboard: None,
    };
    let mut full = vec!["beacon.exe".to_string()];
    full.extend(background_args("Visual Studio Code.exe", &a, false, Some("654321")));
    let inv = parse_host_args(&full).unwrap();
    assert!(inv.bg_service);
    assert_eq!(inv.args.window_title.as_deref(), Some("Visual Studio Code.exe"));
    assert_eq!(inv.args.port, Some(45100));
    assert_eq!(inv.args.control_port, Some(0));
    assert_eq!(inv.args.quality, Some(4294));
    assert_eq!(inv.args.code.as_deref(), Some("654321"));
    let mut unattended = vec!["beacon.exe".to_string()];
    unattended.extend(background_args("a.exe", &a, true, Some("654321")));
    assert_eq!(parse_host_args(&unattended).unwrap().args.code, None);
}
