use beacon_pulse::auth::pairing::PairingManager;
use beacon_pulse::bridge::{
    dispatch_step, forward_outcome, invalid_address_reply, join_outcome, joined_at, share_outcome, wan_outcome, BridgeAction, BridgeState,
    ServiceReply, UiCommand, STREAM_PORT, WAN_PROXY_PORT,
};
use beacon_pulse::ipc::Ipv4;
use beacon_pulse::CaptureTarget;

fn state() -> BridgeState {
    BridgeState {
        active_target: None,
        hosting: false,
        joined: false,
        pairing: PairingManager::new(),
        unattended: false,
        unattended_pin: None,
        gpu_path_active: true,
    }
}

#[test]
fn permission_change_is_refused() {
    let mut s = state();
    let (r, a) = dispatch_step(
        &mut s,
        UiCommand::SetPermission { client_id: "c".into(), perm: "input".into(), value: true },
    );
    assert!(matches!(r, ServiceReply::Error { message } if message == "SetPermission: not yet implemented"));
    assert!(a.is_empty());
}

#[test]
fn share_start_and_stop() {
    let mut s = state();
    let (r, a) = dispatch_step(&mut s, UiCommand::StartShare { target: CaptureTarget::Window(42) });
    assert!(matches!(r, ServiceReply::Pending));
    assert!(matches!(a.as_slice(), [BridgeAction::StartHostSession { port }] if *port == STREAM_PORT));
    assert_eq!(s.active_target, Some(CaptureTarget::Window(42)));
    let (replies, actions) = share_outcome(&mut s, Ok(()), 2);
    assert!(s.hosting);
    assert_eq!(replies.len(), 3);
    match &replies[0] {
        ServiceReply::PairingCode { code, expires_in } => {
            assert_eq!(code.len(), 6);
            assert_eq!(*expires_in, 120);
            assert!(matches!(actions.as_slice(), [BridgeAction::Advertise { code: Some(c) }] if c == code));
        }
        _ => panic!("pairing code first"),
    }
    assert!(matches!(replies[1], ServiceReply::EncoderReady { encoder_id: 2 }));
    assert!(matches!(replies[2], ServiceReply::ShareStarted { stream_port: 45100 }));
    // With a host session, a bitrate change reaches the encoder.
    let (r, a) = dispatch_step(&mut s, UiCommand::SetBitrate { kbps: 8000 });
    assert!(matches!(r, ServiceReply::HostStats { bitrate_kbps: 8000, gpu_path_active: true }));
    assert!(matches!(a.as_slice(), [BridgeAction::SetBitrate { bps: 8_000_000 }]));
    let (r, a) = dispatch_step(&mut s, UiCommand::StopShare);
    assert!(matches!(r, ServiceReply::ShareStopped { reason } if reason == "User stopped"));
    assert!(matches!(a.as_slice(), [BridgeAction::StopHostSession]));
    assert!(!s.hosting);
    assert_eq!(s.active_target, None);
    // Without one, nothing is changed.
    let (_, a) = dispatch_step(&mut s, UiCommand::SetBitrate { kbps: 1 });
    assert!(a.is_empty());
    // Without a host session no bitrate is computed, however large.
    let (r, a) = dispatch_step(&mut s, UiCommand::SetBitrate { kbps: u32::MAX });
    assert!(matches!(r, ServiceReply::HostStats { bitrate_kbps: u32::MAX, .. }));
    assert!(a.is_empty());
}

#[test]
fn failed_share_reports_its_error() {
    let mut s = state();
    let (replies, actions) = share_outcome(&mut s, Err("no capture".into()), 0);
    assert!(!s.hosting);
    assert!(actions.is_empty());
    assert!(matches!(&replies[..], [ServiceReply::Error { message }] if message == "no capture"));
}

#[test]
fn unattended_pairing_codes() {
    let mut s = state();
    s.unattended = true;
    s.unattended_pin = Some("4321".into());
    let (r, _) = dispatch_step(&mut s, UiCommand::GeneratePairingCode);
    assert!(matches!(r, ServiceReply::PairingCode { code, expires_in: 999_999 } if code == "********"));
    s.unattended_pin = Some(String::new());
    let (r, _) = dispatch_step(&mut s, UiCommand::GeneratePairingCode);
    assert!(matches!(r, ServiceReply::PairingCode { code, expires_in: 0 } if code == "None (Unsecured)"));
}

#[test]
fn join_requests() {
    let mut s = state();
    let join = |host: &str| UiCommand::JoinStream {
        host_ip: host.into(),
        stream_port: 45101,
        recv_port: 45102,
        pairing_code: Some("123456".into()),
        tls: None,
    };
    let (r, a) = dispatch_step(&mut s, join("[::1]"));
    assert!(matches!(r, ServiceReply::Pending));
    assert!(matches!(a.as_slice(), [BridgeAction::ConnectByAddress { address, port: 45101, recv_port: 45102, .. }] if address == "[::1]"));
    assert!(matches!(invalid_address_reply(), ServiceReply::Error { message } if message == "Invalid host address"));
    let mut t = state();
    let r = joined_at(&mut t, "[::1]:45101".into(), 45102, Ok(()));
    assert!(matches!(r, ServiceReply::StreamConnected { host_addr, recv_port: 45102 } if host_addr == "[::1]:45101"));
    assert!(t.joined);
    let (_, a) = dispatch_step(&mut s, join("192.168.1.20"));
    assert!(matches!(a.as_slice(), [BridgeAction::StartClientSession { host, port: 45101, recv_port: 45102, tls: false, .. }]
        if *host == Ipv4 { a: 192, b: 168, c: 1, d: 20 }));
    let (_, a) = dispatch_step(&mut s, join("654321"));
    assert!(matches!(a.as_slice(), [BridgeAction::ResolveWanCode { code, recv_port: 45102, .. }] if code == "654321"));
    let (r, a) = wan_outcome(Ok(()), 45102, None, false);
    assert!(matches!(r, ServiceReply::Pending));
    assert!(matches!(a.as_slice(), [BridgeAction::StartClientSession { port, .. }] if *port == WAN_PROXY_PORT));
    let (r, _) = wan_outcome(Err("timeout".into()), 45102, None, false);
    assert!(matches!(r, ServiceReply::Error { message } if message == "WAN Traversal failed: timeout"));
    let r = join_outcome(&mut s, Ipv4 { a: 10, b: 0, c: 0, d: 7 }, 45101, 45102, Ok(()));
    assert!(matches!(r, ServiceReply::StreamConnected { host_addr, recv_port: 45102 } if host_addr == "10.0.0.7:45101"));
    assert!(s.joined);
    assert!(matches!(forward_outcome(Err("closed".into())), ServiceReply::Error { message } if message == "closed"));
    let (r, a) = dispatch_step(&mut s, UiCommand::LeaveStream);
    assert!(matches!(r, ServiceReply::StreamDisconnected { reason } if reason == "User left"));
    assert!(matches!(a.as_slice(), [BridgeAction::StopClientSession]));
    let (r, a) = dispatch_step(&mut s, UiCommand::ForwardToHost);
    assert!(matches!(r, ServiceReply::RecvStats));
    assert!(a.is_empty());
}
