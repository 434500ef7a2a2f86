use beacon_pulse::auth::handshake::{
    recv_port_retry, session_end_reason, ClientHandshake, HandshakePhase, HandshakeStep, HostReply,
    JoinError, JoinedMessage, DEFAULT_RECV_PORT,
};
use beacon_pulse::auth::pairing::PairingManager;

#[test]
fn auto_accepted_join() {
    let mut h = ClientHandshake::new();
    assert!(matches!(h.on_reply(HostReply::JoinAccepted, None), HandshakeStep::Joined));
    assert_eq!(h.phase, HandshakePhase::Finished);
}

#[test]
fn rejected_join() {
    let mut h = ClientHandshake::new();
    match h.on_reply(HostReply::JoinRejected { reason: "busy".to_string() }, Some("1")) {
        HandshakeStep::Fail(e) => {
            assert_eq!(e, JoinError::ConnectionRejected("busy".to_string()));
            assert_eq!(e.message(), "Connection rejected by host: busy");
        }
        _ => panic!("expected a rejection"),
    }
}

#[test]
fn unexpected_first_reply() {
    let mut h = ClientHandshake::new();
    match h.on_reply(HostReply::Other, None) {
        HandshakeStep::Fail(e) => {
            assert_eq!(e, JoinError::UnexpectedHandshake);
            assert_eq!(e.message(), "Unexpected handshake message from host");
        }
        _ => panic!("expected a failure"),
    }
}

#[test]
fn pairing_with_the_right_code_joins() {
    let mut host = PairingManager::new();
    host.set_code("246810".to_string());
    let challenge = host.generate_challenge().unwrap();
    let mut h = ClientHandshake::new();
    let hmac = match h.on_reply(HostReply::PairingRequired { challenge }, Some("246810")) {
        HandshakeStep::SendPairingCode { hmac } => hmac,
        _ => panic!("expected a pairing answer"),
    };
    assert_eq!(h.phase, HandshakePhase::AwaitingVerdict);
    assert!(host.verify_hmac(&hmac));
    assert!(matches!(h.on_reply(HostReply::JoinAccepted, None), HandshakeStep::Joined));
}

#[test]
fn pairing_without_a_code_uses_the_empty_code() {
    let mut h = ClientHandshake::new();
    let challenge = "VGhlIHF1aWNrIGJyb3duIGZveCBqdW1wcyBvdmVyIHRoZSBsYXp5IGRvZw==".to_string();
    match h.on_reply(HostReply::PairingRequired { challenge: challenge.clone() }, None) {
        HandshakeStep::SendPairingCode { hmac } => {
            assert_eq!(hmac, beacon_pulse::auth::pairing::compute_hmac_response("", &challenge).unwrap());
        }
        _ => panic!("expected a pairing answer"),
    }
    match h.on_reply(HostReply::JoinRejected { reason: "wrong code".to_string() }, None) {
        HandshakeStep::Fail(e) => assert_eq!(e.message(), "Pairing rejected: wrong code"),
        _ => panic!("expected a rejection"),
    }
}

#[test]
fn bad_challenge_and_unexpected_verdict() {
    let mut h = ClientHandshake::new();
    match h.on_reply(HostReply::PairingRequired { challenge: "***".to_string() }, Some("1")) {
        HandshakeStep::Fail(e) => {
            assert_eq!(e, JoinError::InvalidChallenge);
            assert_eq!(e.message(), "Invalid base64 challenge from host");
        }
        _ => panic!("expected a failure"),
    }
    let mut h2 = ClientHandshake::new();
    let _ = h2.on_reply(HostReply::PairingRequired { challenge: "AAAA".to_string() }, Some("1"));
    match h2.on_reply(HostReply::Other, None) {
        HandshakeStep::Fail(e) => assert_eq!(e.message(), "Unexpected message after HMAC"),
        _ => panic!("expected a failure"),
    }
}

#[test]
fn joined_session_ends_on_stop_disconnect_or_close() {
    assert_eq!(
        session_end_reason(JoinedMessage::StreamStopped { reason: "User stopped".to_string() }),
        Some("User stopped".to_string())
    );
    assert_eq!(
        session_end_reason(JoinedMessage::Disconnect { reason: "Kicked".to_string() }),
        Some("Kicked".to_string())
    );
    assert_eq!(session_end_reason(JoinedMessage::Closed), Some("TCP closed by host".to_string()));
    assert_eq!(session_end_reason(JoinedMessage::Other), None);
}

#[test]
fn only_the_default_receive_port_falls_back() {
    assert_eq!(recv_port_retry(DEFAULT_RECV_PORT), Some(0));
    assert_eq!(recv_port_retry(45103), None);
    assert_eq!(recv_port_retry(0), None);
}
