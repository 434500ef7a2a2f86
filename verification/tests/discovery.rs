use beacon_pulse::capture::CaptureBackend;
use beacon_pulse::ipc::{backend_switch_report, merge_hosts, scanned_host, DiscoveredHost, Ipv4};
use beacon_pulse::ipc::{
    classify_push, join_pairing_code, ok_response_head, relayed_event_name, service_pipe_name, request_target, served_asset, RequestTarget,
    METHOD_NOT_ALLOWED_RESPONSE, NOT_FOUND_RESPONSE,
};

fn host(name: &str, address: &str, port: u16) -> DiscoveredHost {
    DiscoveredHost {
        name: name.to_string(),
        address: address.to_string(),
        port,
        version: None,
        mac: None,
        tls: None,
    }
}

#[test]
fn merge_keeps_first_finding_of_each_endpoint() {
    let mut hosts = vec![host("desk", "192.168.1.5", 45101)];
    merge_hosts(
        &mut hosts,
        vec![
            host("desk-bcast", "192.168.1.5", 45101),
            host("laptop", "192.168.1.9", 45101),
            host("desk-alt-port", "192.168.1.5", 45200),
            host("laptop-again", "192.168.1.9", 45101),
        ],
    );
    let names: Vec<&str> = hosts.iter().map(|h| h.name.as_str()).collect();
    assert_eq!(names, vec!["desk", "laptop", "desk-alt-port"]);
}

#[test]
fn merge_into_empty_list_dedups_the_findings() {
    let mut hosts = Vec::new();
    merge_hosts(&mut hosts, vec![host("a", "10.0.0.2", 1), host("b", "10.0.0.2", 1)]);
    assert_eq!(hosts.len(), 1);
    assert_eq!(hosts[0].name, "a");
    merge_hosts(&mut hosts, Vec::new());
    assert_eq!(hosts.len(), 1);
}

#[test]
fn scanned_host_is_named_after_its_address() {
    let h = scanned_host(Ipv4 { a: 192, b: 168, c: 0, d: 42 }, 45101);
    assert_eq!(h.name, "Beacon@192.168.0.42");
    assert_eq!(h.address, "192.168.0.42");
    assert_eq!(h.port, 45101);
    assert!(h.version.is_none() && h.mac.is_none() && h.tls.is_none());
}

#[test]
fn backend_names_read_back() {
    for b in [
        CaptureBackend::WGC,
        CaptureBackend::DDA,
        CaptureBackend::DXShared,
        CaptureBackend::PrintWindow,
    ] {
        assert_eq!(CaptureBackend::from_name(b.name()), b);
        assert_eq!(b.name(), format!("{:?}", b));
    }
    assert_eq!(CaptureBackend::from_name("Vulkan"), CaptureBackend::PrintWindow);
}

#[test]
fn backend_switch_is_reported_with_a_reason() {
    let r = backend_switch_report("WGC", "DDA");
    assert_eq!(r.from, CaptureBackend::WGC);
    assert_eq!(r.to, CaptureBackend::DDA);
    assert_eq!(r.reason, "Switched from WGC to DDA");
    let u = backend_switch_report("Mystery", "DXShared");
    assert_eq!(u.from, CaptureBackend::PrintWindow);
    assert_eq!(u.to, CaptureBackend::DXShared);
    assert_eq!(u.reason, "Switched from Mystery to DXShared");
}

#[test]
fn tagged_messages_are_classified_by_their_tag() {
    assert!(classify_push(Some("event"), Some("share_started")));
    assert!(!classify_push(Some("response"), Some("stats")));
    assert!(!classify_push(Some("Event"), None));
}

#[test]
fn untagged_messages_are_classified_by_event_name() {
    for name in [
        "stats",
        "capture_backend_switched",
        "render_suspended",
        "render_resumed",
        "capture_lost",
        "capture_recovered",
        "client_connected",
        "client_disconnected",
        "recv_stats",
        "video_chunk",
        "pairing_code",
        "encoder_ready",
    ] {
        assert!(classify_push(None, Some(name)), "{}", name);
    }
    assert!(!classify_push(None, Some("share_started")));
    assert!(!classify_push(None, Some("share_stopped")));
    assert!(!classify_push(None, Some("window_list")));
    assert!(!classify_push(None, None));
}

fn target(req: &str) -> String {
    match request_target(req) {
        RequestTarget::Ignore => "ignore".to_string(),
        RequestTarget::MethodNotAllowed => "405".to_string(),
        RequestTarget::Asset(p) => p,
    }
}

#[test]
fn web_requests_are_routed_by_their_first_line() {
    assert_eq!(target("GET / HTTP/1.1\r\nHost: x\r\n\r\n"), "index.html");
    assert_eq!(target("GET /assets/app.js?v=3 HTTP/1.1\r\n\r\n"), "assets/app.js");
    assert_eq!(target("GET //style.css HTTP/1.1\r\n"), "style.css");
    assert_eq!(target("GET   /x.png\tHTTP/1.1"), "x.png");
    assert_eq!(target("POST /api HTTP/1.1\r\n\r\n"), "405");
    assert_eq!(target("get / HTTP/1.1\r\n"), "405");
    assert_eq!(target("GET\r\n/ HTTP/1.1"), "ignore");
    assert_eq!(target(""), "ignore");
    assert_eq!(target("\n"), "ignore");
}

#[test]
fn missing_assets_fall_back_to_the_index() {
    assert_eq!(served_asset("app.js", true, true), Some("app.js".to_string()));
    assert_eq!(served_asset("route/x", false, true), Some("index.html".to_string()));
    assert_eq!(served_asset("app.js", false, false), None);
}

#[test]
fn response_heads() {
    assert_eq!(
        ok_response_head("text/html", 512),
        "HTTP/1.1 200 OK\r\nContent-Type: text/html\r\nContent-Length: 512\r\nAccess-Control-Allow-Origin: *\r\n\r\n"
    );
    assert_eq!(METHOD_NOT_ALLOWED_RESPONSE, "HTTP/1.1 405 Method Not Allowed\r\nContent-Length: 0\r\n\r\n");
    assert_eq!(NOT_FOUND_RESPONSE, "HTTP/1.1 404 Not Found\r\nContent-Length: 0\r\n\r\n");
}

#[test]
fn interface_bridge_details() {
    assert_eq!(join_pairing_code(String::new()), None);
    assert_eq!(join_pairing_code("123456".to_string()), Some("123456".to_string()));
    assert_eq!(relayed_event_name(Some("stats")), "stats");
    assert_eq!(relayed_event_name(None), "service-event");
    assert_eq!(service_pipe_name(true), r"\\.\pipe\Pulse");
    assert_eq!(service_pipe_name(false), r"\\.\pipe\Beacon");
}

#[test]
fn bitrate_in_kbps_becomes_bps() {
    assert_eq!(beacon_pulse::ipc::bitrate_bps_of_kbps(8000), 8_000_000);
    assert_eq!(beacon_pulse::ipc::bitrate_bps_of_kbps(0), 0);
}
