use beacon_pulse::addr::parse_ipv4;
use beacon_pulse::ipc::DiscoveredHost;
use beacon_pulse::player::{
    distinct_hosts, parse_player_args, select_host, typed_pairing_code, window_input,
    HostSelection, PlayerArgError, PlayerFlag, SelectionError, WindowInput, WM_KEYDOWN,
    WM_KEYUP, WM_LBUTTONDOWN, WM_MBUTTONUP, WM_MOUSEMOVE, WM_MOUSEWHEEL, WM_RBUTTONUP,
    WM_SYSKEYDOWN,
};

fn args(list: &[&str]) -> Vec<String> {
    list.iter().map(|s| s.to_string()).collect()
}

// Which arguments are IP addresses: dotted quads, and the IPv6 loopback
// used below.
fn ip_flags(a: &[String]) -> Vec<bool> {
    a.iter().map(|s| parse_ipv4(s).is_some() || s == "::1").collect()
}

fn parse(list: &[&str]) -> Result<beacon_pulse::player::PlayerArgs, PlayerArgError> {
    let a = args(list);
    let ok = ip_flags(&a);
    parse_player_args(&a, &ok)
}

#[test]
fn player_options_are_read() {
    let p = parse(&["pulse", "play", "--host", "192.168.1.4", "-p", "45101", "-rp", "46000", "-c", "123456"]).unwrap();
    assert_eq!(p.host.as_deref(), Some("192.168.1.4"));
    assert_eq!(p.port, Some(45101));
    assert_eq!(p.recv_port, Some(46000));
    assert_eq!(p.code.as_deref(), Some("123456"));
    let none = parse(&["pulse", "play"]).unwrap();
    assert!(none.host.is_none() && none.port.is_none() && none.code.is_none() && none.recv_port.is_none());
    let v6 = parse(&["pulse", "play", "-h", "::1"]).unwrap();
    assert_eq!(v6.host.as_deref(), Some("::1"));
}

#[test]
fn player_option_errors() {
    assert_eq!(parse(&["pulse", "play", "--host"]).unwrap_err(), PlayerArgError::MissingValue(PlayerFlag::Host));
    assert_eq!(parse(&["pulse", "play", "--host", "nowhere"]).unwrap_err(), PlayerArgError::InvalidHost);
    assert_eq!(parse(&["pulse", "play", "--port", "70000"]).unwrap_err(), PlayerArgError::InvalidPort);
    assert_eq!(parse(&["pulse", "play", "--recv-port", "x"]).unwrap_err(), PlayerArgError::InvalidRecvPort);
    assert_eq!(
        parse(&["pulse", "play", "--fast"]).unwrap_err(),
        PlayerArgError::UnknownArgument("--fast".to_string())
    );
    assert_eq!(parse(&["pulse", "play", "--host", "bad", "--fast"]).unwrap_err(), PlayerArgError::InvalidHost);
    assert_eq!(PlayerArgError::MissingValue(PlayerFlag::RecvPort).message(), "Missing value for --recv-port");
    assert_eq!(PlayerArgError::InvalidHost.message(), "Invalid host IP address");
    assert_eq!(PlayerArgError::InvalidRecvPort.message(), "Invalid receive port number");
    assert_eq!(PlayerArgError::UnknownArgument("-x".to_string()).message(), "Unknown argument: -x");
}

fn host(name: &str, address: &str, port: u16) -> DiscoveredHost {
    DiscoveredHost {
        name: name.to_string(),
        address: address.to_string(),
        port,
        version: None,
        mac: None,
        tls: None,
    }
}

#[test]
fn discovered_hosts_are_offered_once_per_address() {
    let hosts = distinct_hosts(vec![
        host("a", "10.0.0.2", 45101),
        host("b", "10.0.0.3", 45101),
        host("a-bcast", "10.0.0.2", 45200),
    ]);
    let names: Vec<&str> = hosts.iter().map(|h| h.name.as_str()).collect();
    assert_eq!(names, vec!["a", "b"]);
    assert!(distinct_hosts(Vec::new()).is_empty());
}

#[test]
fn host_pick_is_read() {
    assert_eq!(select_host("m\r\n", 3), Ok(HostSelection::Manual));
    assert_eq!(select_host("  M ", 0), Ok(HostSelection::Manual));
    assert_eq!(select_host("2\n", 3), Ok(HostSelection::Listed(1)));
    assert_eq!(select_host("1", 1), Ok(HostSelection::Listed(0)));
    assert_eq!(select_host("0", 3), Err(SelectionError::OutOfRange));
    assert_eq!(select_host("4", 3), Err(SelectionError::OutOfRange));
    assert_eq!(select_host("two", 3), Err(SelectionError::Invalid));
    assert_eq!(select_host("", 3), Err(SelectionError::Invalid));
    assert_eq!(SelectionError::OutOfRange.message(), "Selection out of range");
    assert_eq!(SelectionError::Invalid.message(), "Invalid selection");
}

#[test]
fn typed_code_is_trimmed() {
    assert_eq!(typed_pairing_code("  123456 \r\n"), Some("123456".to_string()));
    assert_eq!(typed_pairing_code("\n"), None);
    assert_eq!(typed_pairing_code(""), None);
}

#[test]
fn window_messages_become_input() {
    let lparam: isize = (((-5i32 as u16 as isize) << 16) | 300) as isize;
    assert_eq!(window_input(WM_MOUSEMOVE, 0, lparam), Some(WindowInput::MouseMove { x: 300, y: -5 }));
    assert_eq!(
        window_input(WM_LBUTTONDOWN, 0, (20 << 16) | 10),
        Some(WindowInput::MouseButton { button: 0, pressed: true, x: 10, y: 20 })
    );
    assert_eq!(
        window_input(WM_RBUTTONUP, 0, 0),
        Some(WindowInput::MouseButton { button: 1, pressed: false, x: 0, y: 0 })
    );
    assert_eq!(
        window_input(WM_MBUTTONUP, 0, 0),
        Some(WindowInput::MouseButton { button: 2, pressed: false, x: 0, y: 0 })
    );
    assert_eq!(window_input(WM_MOUSEWHEEL, (0xFF88usize) << 16, 0), Some(WindowInput::Wheel { delta: -120 }));
    assert_eq!(
        window_input(WM_KEYDOWN, 0x41, 0x001E_0001),
        Some(WindowInput::Key { vk_code: 0x41, scan_code: 0x1E, pressed: true })
    );
    assert_eq!(
        window_input(WM_SYSKEYDOWN, 0x12, 0x2038_0001),
        Some(WindowInput::Key { vk_code: 0x12, scan_code: 0x38, pressed: true })
    );
    assert_eq!(
        window_input(WM_KEYUP, 0x41, 0xC01E_0001u32 as isize),
        Some(WindowInput::Key { vk_code: 0x41, scan_code: 0x1E, pressed: false })
    );
    assert_eq!(window_input(0x000F, 0, 0), None);
    // Alt+F4 goes to the default window procedure; F4 alone is forwarded.
    assert_eq!(window_input(WM_SYSKEYDOWN, 0x73, 0x203E_0001), None);
    assert_eq!(
        window_input(WM_KEYDOWN, 0x73, 0x003E_0001),
        Some(WindowInput::Key { vk_code: 0x73, scan_code: 0x3E, pressed: true })
    );
}
