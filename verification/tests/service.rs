use beacon_pulse::capture::compose::strip_row_padding;
use beacon_pulse::input::{key_input, mouse_button_flag, KeyInput};
use beacon_pulse::shell::{is_player_executable, wake_on_lan_packet, WolError};
use beacon_pulse::ipc::{
    asset_path, content_type, is_wan_code, is_websocket_upgrade, scan_targets, usable_local_ipv4, Ipv4,
};
use beacon_pulse::logging::session_logger::SessionId;
use beacon_pulse::{CaptureTarget, ShareMode};
use beacon_pulse::input::{delivers_input, InputKind};

#[test]
fn share_mode_defaults_to_window() {
    assert_eq!(ShareMode::default(), ShareMode::Window);
}

#[test]
fn capture_target_parts() {
    assert_eq!(CaptureTarget::Window(3).parts(), vec![CaptureTarget::Window(3)]);
    assert_eq!(
        CaptureTarget::DualWindow(1, 2).parts(),
        vec![CaptureTarget::Window(1), CaptureTarget::Window(2)]
    );
    assert_eq!(
        CaptureTarget::MultiDisplay(vec![5, 6, 7]).parts(),
        vec![CaptureTarget::Display(5), CaptureTarget::Display(6), CaptureTarget::Display(7)]
    );
    assert!(CaptureTarget::MultiWindow(vec![]).parts().is_empty());
}

#[test]
fn multi_source_targets() {
    assert!(!CaptureTarget::MultiWindow(vec![1]).is_composited());
    assert!(CaptureTarget::MultiWindow(vec![1, 2]).is_composited());
    assert!(CaptureTarget::DualWindow(1, 2).is_composited());
    assert!(!CaptureTarget::MultiDisplay(vec![1, 2]).is_composited());
    assert!(CaptureTarget::MultiDisplay(vec![1]).is_multi_source());
    assert!(!CaptureTarget::Display(1).is_multi_source());
}

#[test]
fn wan_codes_are_six_digits() {
    assert!(is_wan_code("123456"));
    assert!(!is_wan_code("12345"));
    assert!(!is_wan_code("1234567"));
    assert!(!is_wan_code("12345a"));
    assert!(!is_wan_code("192.168.1.2"));
    assert!(!is_wan_code("１２３４５６"));
}

#[test]
fn session_ids() {
    let id = SessionId::new();
    let s = id.as_str();
    assert_eq!(s.len(), 13);
    assert!(s.starts_with("sess_"));
    assert!(s[5..].chars().all(|c| c.is_ascii_hexdigit() && !c.is_ascii_uppercase()));
    assert_eq!(id.to_string(), s);
    let other = SessionId::new();
    assert_ne!(other.as_str(), s, "two fresh identifiers should differ");
    let fixed = SessionId::from_text("67e55044-10b1-426f-9247-bb680e5fe0c8");
    assert_eq!(fixed.as_str(), "sess_0e5fe0c8");
}

#[test]
fn key_events() {
    assert_eq!(
        key_input(0x41, 0, true, false),
        KeyInput { vk: 0x41, scan: 0, flags: 0, extra_info: 0xBEAC0D }
    );
    assert_eq!(
        key_input(0x41, 0x1E, false, false),
        KeyInput { vk: 0, scan: 0x1E, flags: 0x2 | 0x8, extra_info: 0xBEAC0D }
    );
    assert_eq!(key_input(0x25, 0, false, true).flags, 0x3);
}

#[test]
fn mouse_button_flags() {
    assert_eq!(mouse_button_flag(0, true), Some(0x2));
    assert_eq!(mouse_button_flag(0, false), Some(0x4));
    assert_eq!(mouse_button_flag(1, true), Some(0x8));
    assert_eq!(mouse_button_flag(2, false), Some(0x40));
    assert_eq!(mouse_button_flag(3, true), None);
}

#[test]
fn player_executable_names() {
    assert!(is_player_executable("Pulse.exe"));
    assert!(is_player_executable("beacon-PLAYER"));
    assert!(!is_player_executable("beacon.exe"));
}

#[test]
fn wake_on_lan_packets() {
    let p = wake_on_lan_packet("AA:bb-CC:dd:EE:01").unwrap();
    assert_eq!(p.len(), 102);
    assert_eq!(&p[0..6], &[0xFF; 6]);
    for k in 0..16 {
        assert_eq!(&p[6 + 6 * k..12 + 6 * k], &[0xAA, 0xBB, 0xCC, 0xDD, 0xEE, 0x01]);
    }
    // A leading '+' is accepted in a pair, as by u8::from_str_radix.
    let q = wake_on_lan_packet("+A+B+C+D+E+F").unwrap();
    assert_eq!(&q[6..12], &[10, 11, 12, 13, 14, 15]);
    assert_eq!(wake_on_lan_packet("00:11:22:33:44"), Err(WolError::WrongLength));
    assert_eq!(wake_on_lan_packet("GG:11:22:33:44:55"), Err(WolError::InvalidByte));
    assert_eq!(wake_on_lan_packet("00-11-22-33-44-5-"), Err(WolError::WrongLength));
    assert_eq!(
        WolError::WrongLength.message(),
        "MAC address must be 12 hexadecimal characters"
    );
    assert_eq!(
        WolError::InvalidByte.message(),
        "Invalid MAC byte: invalid digit found in string"
    );
    let e = u8::from_str_radix("GG", 16).unwrap_err();
    assert_eq!(format!("Invalid MAC byte: {}", e), WolError::InvalidByte.message());
}

#[test]
fn row_padding_is_dropped() {
    // Two rows of one pixel each, rows 8 bytes apart.
    let src = [1u8, 2, 3, 4, 99, 99, 99, 99, 5, 6, 7, 8];
    assert_eq!(strip_row_padding(&src, 8, 1, 2), vec![1, 2, 3, 4, 5, 6, 7, 8]);
    assert!(strip_row_padding(&[], 16, 4, 0).is_empty());
}

#[test]
fn web_asset_routing() {
    assert_eq!(asset_path("/"), "index.html");
    assert_eq!(asset_path(""), "index.html");
    assert_eq!(asset_path("/?x=1"), "index.html");
    assert_eq!(asset_path("/assets/app.js?v=3"), "assets/app.js");
    assert_eq!(asset_path("///a.css"), "a.css");
    assert_eq!(asset_path("//"), "");
    assert_eq!(asset_path("?only"), "index.html");
}

#[test]
fn web_content_types() {
    assert_eq!(content_type("index.html"), "text/html");
    assert_eq!(content_type("assets/app.min.js"), "application/javascript");
    assert_eq!(content_type("a.css"), "text/css");
    assert_eq!(content_type("logo.png"), "image/png");
    assert_eq!(content_type("favicon.ico"), "image/x-icon");
    assert_eq!(content_type("icon.svg"), "image/svg+xml");
    assert_eq!(content_type("data.json"), "application/octet-stream");
    assert_eq!(content_type("js"), "application/javascript");
    assert_eq!(content_type("archive."), "application/octet-stream");
}

#[test]
fn websocket_upgrade_detection() {
    assert!(is_websocket_upgrade("GET / HTTP/1.1\r\nUpgrade: websocket\r\n"));
    assert!(is_websocket_upgrade("GET / HTTP/1.1\r\nconnection: upgrade\r\nupgrade: websocket\r\n"));
    assert!(!is_websocket_upgrade("GET /index.html HTTP/1.1\r\n"));
    assert!(!is_websocket_upgrade("Upgrade: WebSocket"));
}

fn ip(a: u8, b: u8, c: u8, d: u8) -> Ipv4 {
    Ipv4 { a, b, c, d }
}

#[test]
fn scan_targets_cover_each_subnet_once() {
    let local = vec![ip(192, 168, 1, 10), ip(10, 0, 0, 5), ip(192, 168, 1, 20)];
    let t = scan_targets(&local);
    // 254 hosts in each of the two /24s, minus the three local addresses.
    assert_eq!(t.len(), 254 * 2 - 3);
    assert_eq!(t[0], ip(192, 168, 1, 1));
    assert_eq!(t[8], ip(192, 168, 1, 9));
    assert_eq!(t[9], ip(192, 168, 1, 11));
    assert_eq!(t[252], ip(10, 0, 0, 1));
    assert!(!t.contains(&ip(192, 168, 1, 20)));
    assert!(!t.contains(&ip(10, 0, 0, 0)));
    assert!(!t.contains(&ip(10, 0, 0, 255)));
    let mut seen = std::collections::HashSet::new();
    for x in &t {
        assert!(seen.insert((x.a, x.b, x.c, x.d)), "duplicate {:?}", x);
    }
    assert!(scan_targets(&Vec::new()).is_empty());
}

#[test]
fn local_address_filter() {
    assert!(usable_local_ipv4(ip(192, 168, 0, 2)));
    assert!(!usable_local_ipv4(ip(127, 0, 0, 1)));
    assert!(!usable_local_ipv4(ip(169, 254, 3, 4)));
    assert!(usable_local_ipv4(ip(169, 253, 3, 4)));
}

#[test]
fn mouse_input_is_held_back_from_a_minimized_window() {
    assert!(!delivers_input(InputKind::MouseMove, true));
    assert!(!delivers_input(InputKind::MouseButton, true));
    assert!(!delivers_input(InputKind::MouseScroll, true));
    assert!(delivers_input(InputKind::KeyPress, true));
    assert!(delivers_input(InputKind::MouseMove, false));
    assert!(delivers_input(InputKind::KeyPress, false));
}
