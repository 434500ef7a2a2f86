//! The player's side of the join handshake with a host:
//!
//! 1. The player sends its join request.
//! 2. The host accepts, rejects, or asks for pairing with a challenge.
//! 3. Asked for pairing, the player answers with the HMAC of the challenge
//!    under its pairing code (the empty code when it has none), and the host
//!    then accepts or rejects.

use vstd::prelude::*;

use crate::auth::crypto::hmac_data_limit;
use crate::auth::pairing::{client_response, compute_hmac_response};
use crate::text::opt_chars;
use vstd::string::StringSliceAdditionalSpecFns;
use vstd::utf8::encode_utf8;

verus! {

/// What the host said during the handshake.
pub enum HostReply {
    PairingRequired { challenge: String },
    JoinAccepted,
    JoinRejected { reason: String },
    /// Any other control message.
    Other,
}

/// Why the player could not join.
#[derive(Debug, Clone, PartialEq, Eq)]
pub enum JoinError {
    /// The challenge is not valid base64.
    InvalidChallenge,
    /// The host turned the join request down.
    ConnectionRejected(String),
    /// The host turned the pairing answer down.
    PairingRejected(String),
    /// The host answered the join request with something else.
    UnexpectedHandshake,
    /// The host answered the pairing code with something else.
    UnexpectedAfterPairing,
}

/// What the player does next.
pub enum HandshakeStep {
    /// Send this pairing answer and wait for the verdict.
    SendPairingCode { hmac: String },
    /// Joined: start receiving.
    Joined,
    /// Give up with this error.
    Fail(JoinError),
}

/// Where the handshake stands.
#[derive(Debug, Clone, Copy, PartialEq, Eq, Structural)]
pub enum HandshakePhase {
    /// The join request is out; waiting for the host's first answer.
    AwaitingReply,
    /// The pairing answer is out; waiting for the verdict.
    AwaitingVerdict,
    /// Joined, or given up.
    Finished,
}

/// The messages of a join error: the host's reason is passed on.
impl JoinError {
    pub fn message(&self) -> (m: String)
        ensures
            *self == JoinError::InvalidChallenge ==> m@ == "Invalid base64 challenge from host"@,
            (*self matches JoinError::ConnectionRejected(r)) ==> m@ == "Connection rejected by host: "@
                + self->ConnectionRejected_0@,
            (*self matches JoinError::PairingRejected(r)) ==> m@ == "Pairing rejected: "@
                + self->PairingRejected_0@,
            *self == JoinError::UnexpectedHandshake ==> m@ == "Unexpected handshake message from host"@,
            *self == JoinError::UnexpectedAfterPairing ==> m@ == "Unexpected message after HMAC"@,
    {
        match self {
            JoinError::InvalidChallenge => String::from_str("Invalid base64 challenge from host"),
            JoinError::ConnectionRejected(r) => {
                let mut m = String::from_str("Connection rejected by host: ");
                m.append(r.as_str());
                m
            },
            JoinError::PairingRejected(r) => {
                let mut m = String::from_str("Pairing rejected: ");
                m.append(r.as_str());
                m
            },
            JoinError::UnexpectedHandshake => String::from_str("Unexpected handshake message from host"),
            JoinError::UnexpectedAfterPairing => String::from_str("Unexpected message after HMAC"),
        }
    }
}

/// The pairing code the player answers with: its own, or the empty code.
pub open spec fn answer_code(code: Option<Seq<char>>) -> Seq<char> {
    match code {
        Some(c) => c,
        None => Seq::empty(),
    }
}

/// The player's handshake.
pub struct ClientHandshake {
    pub phase: HandshakePhase,
}

impl ClientHandshake {
    /// The join request has been sent.
    pub fn new() -> (h: Self)
        ensures
            h.phase == HandshakePhase::AwaitingReply,
    {
        ClientHandshake { phase: HandshakePhase::AwaitingReply }
    }

    /// Handles the host's next message.
    pub fn on_reply(&mut self, reply: HostReply, pairing_code: Option<&str>) -> (step: HandshakeStep)
        requires
            old(self).phase != HandshakePhase::Finished,
            reply matches HostReply::PairingRequired { challenge } ==> encode_utf8(challenge@).len()
                < hmac_data_limit(),
        ensures
            old(self).phase == HandshakePhase::AwaitingReply ==> match reply {
                HostReply::PairingRequired { challenge } => match client_response(
                    answer_code(opt_chars(pairing_code)),
                    challenge@,
                ) {
                    Some(resp) => step matches HandshakeStep::SendPairingCode { hmac }
                        && hmac@ == resp && final(self).phase == HandshakePhase::AwaitingVerdict,
                    None => step matches HandshakeStep::Fail(e) && e == JoinError::InvalidChallenge
                        && final(self).phase == HandshakePhase::Finished,
                },
                HostReply::JoinAccepted => step is Joined && final(self).phase
                    == HandshakePhase::Finished,
                HostReply::JoinRejected { reason } => step matches HandshakeStep::Fail(e)
                    && e == JoinError::ConnectionRejected(reason) && final(self).phase
                    == HandshakePhase::Finished,
                HostReply::Other => step matches HandshakeStep::Fail(e) && e
                    == JoinError::UnexpectedHandshake && final(self).phase
                    == HandshakePhase::Finished,
            },
            old(self).phase == HandshakePhase::AwaitingVerdict ==> final(self).phase
                == HandshakePhase::Finished && match reply {
                HostReply::JoinAccepted => step is Joined,
                HostReply::JoinRejected { reason } => step matches HandshakeStep::Fail(e) && e
                    == JoinError::PairingRejected(reason),
                _ => step matches HandshakeStep::Fail(e) && e == JoinError::UnexpectedAfterPairing,
            },
    {
        if self.phase == HandshakePhase::AwaitingReply {
            match reply {
                HostReply::PairingRequired { challenge } => {
                    let code = match pairing_code {
                        Some(c) => c,
                        None => "",
                    };
                    proof {
                        reveal_strlit("");
                    }
                    let text = challenge.as_str();
                    assert(text.spec_bytes() == encode_utf8(challenge@));
                    match compute_hmac_response(code, text) {
                        Ok(hmac) => {
                            self.phase = HandshakePhase::AwaitingVerdict;
                            HandshakeStep::SendPairingCode { hmac }
                        },
                        Err(_) => {
                            self.phase = HandshakePhase::Finished;
                            HandshakeStep::Fail(JoinError::InvalidChallenge)
                        },
                    }
                },
                HostReply::JoinAccepted => {
                    self.phase = HandshakePhase::Finished;
                    HandshakeStep::Joined
                },
                HostReply::JoinRejected { reason } => {
                    self.phase = HandshakePhase::Finished;
                    HandshakeStep::Fail(JoinError::ConnectionRejected(reason))
                },
                HostReply::Other => {
                    self.phase = HandshakePhase::Finished;
                    HandshakeStep::Fail(JoinError::UnexpectedHandshake)
                },
            }
        } else {
            self.phase = HandshakePhase::Finished;
            match reply {
                HostReply::JoinAccepted => HandshakeStep::Joined,
                HostReply::JoinRejected { reason } => HandshakeStep::Fail(
                    JoinError::PairingRejected(reason),
                ),
                _ => HandshakeStep::Fail(JoinError::UnexpectedAfterPairing),
            }
        }
    }
}

/// What the host sends on the control channel once the player has joined.
pub enum JoinedMessage {
    StreamStopped { reason: String },
    Disconnect { reason: String },
    /// The channel closed, or reading it failed.
    Closed,
    /// Any other control message.
    Other,
}

/// Why the joined session ends on a host message, or `None` when it goes
/// on: the host's reason when it stops the stream or disconnects the
/// player, a fixed reason when the channel closes.
pub fn session_end_reason(msg: JoinedMessage) -> (r: Option<String>)
    ensures
        match msg {
            JoinedMessage::StreamStopped { reason } => r matches Some(s) && s@ == reason@,
            JoinedMessage::Disconnect { reason } => r matches Some(s) && s@ == reason@,
            JoinedMessage::Closed => r matches Some(s) && s@ == "TCP closed by host"@,
            JoinedMessage::Other => r is None,
        },
{
    match msg {
        JoinedMessage::StreamStopped { reason } => Some(reason),
        JoinedMessage::Disconnect { reason } => Some(reason),
        JoinedMessage::Closed => Some(String::from_str("TCP closed by host")),
        JoinedMessage::Other => None,
    }
}

/// The player's default UDP receive port.
pub const DEFAULT_RECV_PORT: u16 = 45102;

/// The port to try when binding the receive port failed: any free port
/// (0) when the default port was asked for, else none (the join fails).
pub fn recv_port_retry(requested: u16) -> (r: Option<u16>)
    ensures
        r == (if requested == DEFAULT_RECV_PORT {
            Some(0u16)
        } else {
            None::<u16>
        }),
{
    if requested == DEFAULT_RECV_PORT {
        Some(0)
    } else {
        None
    }
}

} // verus!
