//! The service side of the desktop and web UI bridge: what each UI command
//! is answered with, what the service does for it and how its state
//! changes. The service runs the actions (window lists, sessions, the
//! registry, the network) and hands their outcomes back to the functions
//! here that turn them into answers.

use vstd::prelude::*;

use crate::addr::{ipv4_text, ipv4_to_text, ipv4_of_text, parse_ipv4};
use crate::auth::pairing::{
    custom_code_state, generated_code_state, is_generated_code, no_code_state, pin_usable,
    PairingManager, CODE_EXPIRY_SECS, UNATTENDED_PIN_EXPIRES_IN,
};
use crate::ipc::{is_wan_code, Ipv4};
use crate::text::{all_digits, decimal, decimal_string};
use crate::CaptureTarget;

verus! {

/// UDP port a share streams on.
pub const STREAM_PORT: u16 = 45100;

/// Local port of the proxy that a WAN join connects through.
pub const WAN_PROXY_PORT: u16 = 45105;

/// Commands of the UI.
pub enum UiCommand {
    ListWindows,
    ListMonitors,
    StartShare { target: CaptureTarget },
    StopShare,
    JoinStream {
        host_ip: String,
        stream_port: u16,
        recv_port: u16,
        pairing_code: Option<String>,
        tls: Option<bool>,
    },
    LeaveStream,
    GeneratePairingCode,
    SetPermission { client_id: String, perm: String, value: bool },
    KickClient { client_id: String },
    GetActiveClients,
    DiscoverHosts,
    RequestKeyframe,
    /// A new bitrate in kbit/s.
    SetBitrate { kbps: u32 },
    Shutdown,
    /// A player request passed on to the host as it is: input, file
    /// transfer, host processes and directories, stream settings.
    ForwardToHost,
}

/// What the service does for a command.
pub enum BridgeAction {
    ListWindows,
    ListMonitors,
    /// Runs the host discovery scans and merges their findings.
    DiscoverHosts,
    ListActiveClients,
    /// Records the active target in the registry for the watchdog and
    /// starts a host session on it.
    StartHostSession { port: u16 },
    /// Stops the host session and the broadcast advertiser and clears the
    /// recorded target in the registry.
    StopHostSession,
    RemoveClient { client_id: String },
    RequestKeyframe,
    /// Sets the encoder bitrate, in bits per second.
    SetBitrate { bps: u32 },
    /// Resolves a WAN pairing code through the signalling server, then
    /// joins with the rest of the request.
    ResolveWanCode { code: String, recv_port: u16, pairing_code: Option<String>, tls: bool },
    StartClientSession {
        host: Ipv4,
        port: u16,
        recv_port: u16,
        pairing_code: Option<String>,
        tls: bool,
    },
    /// The host text is not a dotted quad: it is read together with the
    /// port as a socket address (an IPv6 address in brackets). Where it
    /// reads, the client session starts there and `joined_at` answers;
    /// where it does not, `invalid_address_reply` answers.
    ConnectByAddress {
        address: String,
        port: u16,
        recv_port: u16,
        pairing_code: Option<String>,
        tls: bool,
    },
    StopClientSession,
    /// Passes the player request on to the host.
    ForwardToHost,
    /// Advertises the host on the LAN and, with a code, through the
    /// signalling server.
    Advertise { code: Option<String> },
    SignalShutdown,
}

/// An answer to the UI.
pub enum ServiceReply {
    /// The window list the action gives.
    WindowList,
    /// The monitor list the action gives.
    MonitorList,
    /// The hosts the discovery finds.
    HostList,
    /// The clients the action lists (none without a host session).
    ActiveClients,
    /// Answered once the action's outcome is known.
    Pending,
    /// The active target is being shared on this port.
    ShareStarted { stream_port: u16 },
    ShareStopped { reason: String },
    StreamConnected { host_addr: String, recv_port: u16 },
    StreamDisconnected { reason: String },
    ClientDisconnected { client_id: String },
    PairingCode { code: String, expires_in: u32 },
    /// The encoder in use, by its metrics number.
    EncoderReady { encoder_id: u32 },
    /// Host statistics with no measurement yet: only the bitrate and
    /// whether the GPU path is active are set.
    HostStats { bitrate_kbps: u32, gpu_path_active: bool },
    /// Player statistics with no measurement yet.
    RecvStats,
    Error { message: String },
}

/// `ServiceReply` with texts as character sequences.
pub enum ReplyView {
    WindowList,
    MonitorList,
    HostList,
    ActiveClients,
    Pending,
    ShareStarted(u16),
    ShareStopped(Seq<char>),
    StreamConnected(Seq<char>, u16),
    StreamDisconnected(Seq<char>),
    ClientDisconnected(Seq<char>),
    PairingCode(Seq<char>, u32),
    EncoderReady(u32),
    HostStats(u32, bool),
    RecvStats,
    Error(Seq<char>),
}

impl View for ServiceReply {
    type V = ReplyView;

    open spec fn view(&self) -> ReplyView {
        match self {
            ServiceReply::WindowList => ReplyView::WindowList,
            ServiceReply::MonitorList => ReplyView::MonitorList,
            ServiceReply::HostList => ReplyView::HostList,
            ServiceReply::ActiveClients => ReplyView::ActiveClients,
            ServiceReply::Pending => ReplyView::Pending,
            ServiceReply::ShareStarted { stream_port } => ReplyView::ShareStarted(*stream_port),
            ServiceReply::ShareStopped { reason } => ReplyView::ShareStopped(reason@),
            ServiceReply::StreamConnected { host_addr, recv_port } => ReplyView::StreamConnected(
                host_addr@,
                *recv_port,
            ),
            ServiceReply::StreamDisconnected { reason } => ReplyView::StreamDisconnected(reason@),
            ServiceReply::ClientDisconnected { client_id } => ReplyView::ClientDisconnected(
                client_id@,
            ),
            ServiceReply::PairingCode { code, expires_in } => ReplyView::PairingCode(
                code@,
                *expires_in,
            ),
            ServiceReply::EncoderReady { encoder_id } => ReplyView::EncoderReady(*encoder_id),
            ServiceReply::HostStats { bitrate_kbps, gpu_path_active } => ReplyView::HostStats(
                *bitrate_kbps,
                *gpu_path_active,
            ),
            ServiceReply::RecvStats => ReplyView::RecvStats,
            ServiceReply::Error { message } => ReplyView::Error(message@),
        }
    }
}

/// What the service keeps between commands.
pub struct BridgeState {
    /// The target being shared, set as soon as a share is asked for.
    pub active_target: Option<CaptureTarget>,
    /// Whether a host session runs.
    pub hosting: bool,
    /// Whether a client session runs.
    pub joined: bool,
    pub pairing: PairingManager,
    /// The unattended setting and stored PIN, as the registry held them
    /// when the command came.
    pub unattended: bool,
    pub unattended_pin: Option<String>,
    /// Whether the zero-copy GPU path is active, as the metrics held it when
    /// the command came.
    pub gpu_path_active: bool,
}

/// How the pairing code is announced: in unattended mode the stored PIN,
/// masked, or "None (Unsecured)" without one; else a fresh code with its
/// 120 s.
pub open spec fn announced(unattended: bool, pin: Option<String>, shown: Seq<char>, expires_in: u32, before: crate::auth::pairing::PairingState, after: crate::auth::pairing::PairingState) -> bool {
    &&& unattended && pin_usable(pin) ==> {
        &&& after == custom_code_state(pin->0@)
        &&& shown == "********"@
        &&& expires_in == UNATTENDED_PIN_EXPIRES_IN
    }
    &&& unattended && !pin_usable(pin) ==> {
        &&& after == no_code_state()
        &&& shown == "None (Unsecured)"@
        &&& expires_in == 0
    }
    &&& !unattended ==> {
        &&& is_generated_code(shown)
        &&& after == generated_code_state(shown)
        &&& expires_in == CODE_EXPIRY_SECS
    }
}

/// The state apart from the pairing manager is unchanged.
pub open spec fn same_sessions(a: BridgeState, b: BridgeState) -> bool {
    &&& a.active_target == b.active_target
    &&& a.hosting == b.hosting
    &&& a.joined == b.joined
    &&& a.unattended == b.unattended
    &&& a.unattended_pin == b.unattended_pin
    &&& a.gpu_path_active == b.gpu_path_active
}

/// Everything is unchanged.
pub open spec fn unchanged(a: BridgeState, b: BridgeState) -> bool {
    same_sessions(a, b) && a.pairing@ == b.pairing@
}

/// The address text of a host and port, as a socket address prints it.
pub open spec fn socket_text(host: Ipv4, port: u16) -> Seq<char> {
    ipv4_text(host) + seq![':'] + decimal(port as nat)
}

/// The loopback address.
pub open spec fn loopback() -> Ipv4 {
    Ipv4 { a: 127, b: 0, c: 0, d: 1 }
}

/// The characters of an optional text.
pub open spec fn text_of(t: Option<String>) -> Option<Seq<char>> {
    match t {
        Some(s) => Some(s@),
        None => None,
    }
}

fn copy_text(t: &Option<String>) -> (r: Option<String>)
    ensures
        r == *t,
{
    match t {
        Some(s) => Some(s.clone()),
        None => None,
    }
}

/// Decides the answer to a UI command, the actions the service carries out
/// for it and the new state.
pub fn dispatch_step(state: &mut BridgeState, cmd: UiCommand) -> (r: (ServiceReply, Vec<BridgeAction>))
    requires
        old(state).hosting ==> (cmd matches UiCommand::SetBitrate { kbps } ==> kbps * 1000 <= u32::MAX),
    ensures
        match cmd {
            UiCommand::ListWindows => r.0@ == ReplyView::WindowList && r.1@ == seq![BridgeAction::ListWindows]
                && unchanged(*old(state), *final(state)),
            UiCommand::ListMonitors => r.0@ == ReplyView::MonitorList && r.1@ == seq![BridgeAction::ListMonitors]
                && unchanged(*old(state), *final(state)),
            UiCommand::DiscoverHosts => r.0@ == ReplyView::HostList && r.1@ == seq![BridgeAction::DiscoverHosts]
                && unchanged(*old(state), *final(state)),
            UiCommand::GetActiveClients => {
                &&& r.0@ == ReplyView::ActiveClients
                &&& r.1@ == if old(state).hosting { seq![BridgeAction::ListActiveClients] } else { seq![] }
                &&& unchanged(*old(state), *final(state))
            },
            UiCommand::StartShare { target } => {
                &&& r.0@ == ReplyView::Pending
                &&& r.1@ == seq![BridgeAction::StartHostSession { port: STREAM_PORT }]
                &&& final(state).active_target == Some(target)
                &&& final(state).hosting == old(state).hosting
                &&& final(state).joined == old(state).joined
                &&& final(state).pairing@ == old(state).pairing@
            },
            UiCommand::StopShare => {
                &&& r.0@ == ReplyView::ShareStopped("User stopped"@)
                &&& r.1@ == seq![BridgeAction::StopHostSession]
                &&& final(state).active_target is None
                &&& !final(state).hosting
                &&& final(state).joined == old(state).joined
                &&& final(state).pairing@ == old(state).pairing@
            },
            UiCommand::JoinStream { host_ip, stream_port, recv_port, pairing_code, tls } => {
                &&& unchanged(*old(state), *final(state))
                &&& if host_ip@.len() == 6 && all_digits(host_ip@) {
                    r.0@ == ReplyView::Pending && r.1@ == seq![BridgeAction::ResolveWanCode {
                        code: host_ip,
                        recv_port,
                        pairing_code,
                        tls: tls == Some(true),
                    }]
                } else {
                    match ipv4_of_text(host_ip@) {
                        Some(ip) => r.0@ == ReplyView::Pending && r.1@ == seq![BridgeAction::StartClientSession {
                            host: ip,
                            port: stream_port,
                            recv_port,
                            pairing_code,
                            tls: tls == Some(true),
                        }],
                        None => r.0@ == ReplyView::Pending && r.1@ == seq![BridgeAction::ConnectByAddress {
                            address: host_ip,
                            port: stream_port,
                            recv_port,
                            pairing_code,
                            tls: tls == Some(true),
                        }],
                    }
                }
            },
            UiCommand::LeaveStream => {
                &&& r.0@ == ReplyView::StreamDisconnected("User left"@)
                &&& r.1@ == if old(state).joined { seq![BridgeAction::StopClientSession] } else { seq![] }
                &&& !final(state).joined
                &&& final(state).active_target == old(state).active_target
                &&& final(state).hosting == old(state).hosting
                &&& final(state).pairing@ == old(state).pairing@
            },
            UiCommand::GeneratePairingCode => {
                &&& r.0@ matches ReplyView::PairingCode(shown, expires_in) && announced(
                    old(state).unattended,
                    old(state).unattended_pin,
                    shown,
                    expires_in,
                    old(state).pairing@,
                    final(state).pairing@,
                )
                &&& r.1@ == Seq::<BridgeAction>::empty()
                &&& same_sessions(*old(state), *final(state))
            },
            UiCommand::SetPermission { .. } => {
                &&& r.0@ == ReplyView::Error("SetPermission: not yet implemented"@)
                &&& r.1@ == Seq::<BridgeAction>::empty()
                &&& unchanged(*old(state), *final(state))
            },
            UiCommand::KickClient { client_id } => {
                &&& r.0@ == ReplyView::ClientDisconnected(client_id@)
                &&& r.1@ == if old(state).hosting { seq![BridgeAction::RemoveClient { client_id }] } else { seq![] }
                &&& unchanged(*old(state), *final(state))
            },
            UiCommand::RequestKeyframe => {
                &&& r.0@ == ReplyView::HostStats(0, old(state).gpu_path_active)
                &&& r.1@ == if old(state).hosting { seq![BridgeAction::RequestKeyframe] } else { seq![] }
                &&& unchanged(*old(state), *final(state))
            },
            UiCommand::SetBitrate { kbps } => {
                &&& r.0@ == ReplyView::HostStats(kbps, old(state).gpu_path_active)
                &&& r.1@ == if old(state).hosting {
                    seq![BridgeAction::SetBitrate { bps: (kbps * 1000) as u32 }]
                } else {
                    seq![]
                }
                &&& unchanged(*old(state), *final(state))
            },
            UiCommand::Shutdown => {
                &&& r.0@ == ReplyView::StreamDisconnected("Service shutting down"@)
                &&& r.1@ == seq![BridgeAction::SignalShutdown]
                &&& unchanged(*old(state), *final(state))
            },
            UiCommand::ForwardToHost => {
                &&& r.0@ == if old(state).joined { ReplyView::Pending } else { ReplyView::RecvStats }
                &&& r.1@ == if old(state).joined { seq![BridgeAction::ForwardToHost] } else { seq![] }
                &&& unchanged(*old(state), *final(state))
            },
        },
{
    let mut actions: Vec<BridgeAction> = Vec::new();
    match cmd {
        UiCommand::ListWindows => {
            actions.push(BridgeAction::ListWindows);
            (ServiceReply::WindowList, actions)
        },
        UiCommand::ListMonitors => {
            actions.push(BridgeAction::ListMonitors);
            (ServiceReply::MonitorList, actions)
        },
        UiCommand::DiscoverHosts => {
            actions.push(BridgeAction::DiscoverHosts);
            (ServiceReply::HostList, actions)
        },
        UiCommand::GetActiveClients => {
            if state.hosting {
                actions.push(BridgeAction::ListActiveClients);
            }
            (ServiceReply::ActiveClients, actions)
        },
        UiCommand::StartShare { target } => {
            state.active_target = Some(target);
            actions.push(BridgeAction::StartHostSession { port: STREAM_PORT });
            (ServiceReply::Pending, actions)
        },
        UiCommand::StopShare => {
            state.active_target = None;
            state.hosting = false;
            actions.push(BridgeAction::StopHostSession);
            (ServiceReply::ShareStopped { reason: String::from_str("User stopped") }, actions)
        },
        UiCommand::JoinStream { host_ip, stream_port, recv_port, pairing_code, tls } => {
            let use_tls = match tls {
                Some(t) => t,
                None => false,
            };
            if is_wan_code(host_ip.as_str()) {
                actions.push(
                    BridgeAction::ResolveWanCode { code: host_ip, recv_port, pairing_code, tls: use_tls },
                );
                (ServiceReply::Pending, actions)
            } else {
                match parse_ipv4(host_ip.as_str()) {
                    Some(ip) => {
                        actions.push(
                            BridgeAction::StartClientSession {
                                host: ip,
                                port: stream_port,
                                recv_port,
                                pairing_code,
                                tls: use_tls,
                            },
                        );
                        (ServiceReply::Pending, actions)
                    },
                    None => {
                        actions.push(
                            BridgeAction::ConnectByAddress {
                                address: host_ip,
                                port: stream_port,
                                recv_port,
                                pairing_code,
                                tls: use_tls,
                            },
                        );
                        (ServiceReply::Pending, actions)
                    },
                }
            }
        },
        UiCommand::LeaveStream => {
            if state.joined {
                actions.push(BridgeAction::StopClientSession);
            }
            state.joined = false;
            (ServiceReply::StreamDisconnected { reason: String::from_str("User left") }, actions)
        },
        UiCommand::GeneratePairingCode => {
            let pin = copy_text(&state.unattended_pin);
            let a = state.pairing.announce_code(state.unattended, pin);
            (ServiceReply::PairingCode { code: a.code, expires_in: a.expires_in }, actions)
        },
        UiCommand::SetPermission { .. } => (
            ServiceReply::Error { message: String::from_str("SetPermission: not yet implemented") },
            actions,
        ),
        UiCommand::KickClient { client_id } => {
            let shown = client_id.clone();
            if state.hosting {
                actions.push(BridgeAction::RemoveClient { client_id });
            }
            (ServiceReply::ClientDisconnected { client_id: shown }, actions)
        },
        UiCommand::RequestKeyframe => {
            if state.hosting {
                actions.push(BridgeAction::RequestKeyframe);
            }
            (ServiceReply::HostStats { bitrate_kbps: 0, gpu_path_active: state.gpu_path_active }, actions)
        },
        UiCommand::SetBitrate { kbps } => {
            if state.hosting {
                actions.push(BridgeAction::SetBitrate { bps: kbps * 1000 });
            }
            (ServiceReply::HostStats { bitrate_kbps: kbps, gpu_path_active: state.gpu_path_active }, actions)
        },
        UiCommand::Shutdown => {
            actions.push(BridgeAction::SignalShutdown);
            (
                ServiceReply::StreamDisconnected { reason: String::from_str("Service shutting down") },
                actions,
            )
        },
        UiCommand::ForwardToHost => {
            if state.joined {
                actions.push(BridgeAction::ForwardToHost);
                (ServiceReply::Pending, actions)
            } else {
                (ServiceReply::RecvStats, actions)
            }
        },
    }
}

/// What follows a host session start: once it runs, the pairing code is
/// chosen and announced, the host is advertised (through the signalling
/// server too where there is a code), the encoder in use is reported and
/// the share is confirmed; a failed start is answered with its error.
pub fn share_outcome(state: &mut BridgeState, started: Result<(), String>, encoder_id: u32) -> (r: (
    Vec<ServiceReply>,
    Vec<BridgeAction>,
))
    ensures
        match started {
            Ok(_) => {
                &&& r.0.len() == 3
                &&& r.0@[0]@ matches ReplyView::PairingCode(shown, expires_in) && announced(
                    old(state).unattended,
                    old(state).unattended_pin,
                    shown,
                    expires_in,
                    old(state).pairing@,
                    final(state).pairing@,
                )
                &&& r.0@[1]@ == ReplyView::EncoderReady(encoder_id)
                &&& r.0@[2]@ == ReplyView::ShareStarted(STREAM_PORT)
                &&& r.1@.len() == 1
                &&& r.1@[0] matches BridgeAction::Advertise { code } && text_of(code)
                    == final(state).pairing@.code
                &&& final(state).hosting
                &&& final(state).active_target == old(state).active_target
                &&& final(state).joined == old(state).joined
                &&& final(state).unattended == old(state).unattended
                &&& final(state).unattended_pin == old(state).unattended_pin
            },
            Err(e) => {
                &&& r.0@.len() == 1
                &&& r.0@[0]@ == ReplyView::Error(e@)
                &&& r.1@ == Seq::<BridgeAction>::empty()
                &&& unchanged(*old(state), *final(state))
            },
        },
{
    let mut replies: Vec<ServiceReply> = Vec::new();
    let mut actions: Vec<BridgeAction> = Vec::new();
    match started {
        Ok(_) => {
            state.hosting = true;
            let pin = copy_text(&state.unattended_pin);
            let a = state.pairing.announce_code(state.unattended, pin);
            let code = if state.unattended {
                match &state.unattended_pin {
                    Some(p) => if p.as_str().is_empty() {
                        None
                    } else {
                        Some(p.clone())
                    },
                    None => None,
                }
            } else {
                Some(a.code.clone())
            };
            replies.push(ServiceReply::PairingCode { code: a.code, expires_in: a.expires_in });
            replies.push(ServiceReply::EncoderReady { encoder_id });
            replies.push(ServiceReply::ShareStarted { stream_port: STREAM_PORT });
            actions.push(BridgeAction::Advertise { code });
            (replies, actions)
        },
        Err(e) => {
            replies.push(ServiceReply::Error { message: e });
            (replies, actions)
        },
    }
}

/// What follows the resolution of a WAN pairing code: on success the join
/// goes through the local proxy at 127.0.0.1:45105; a failure is answered
/// with its error.
pub fn wan_outcome(
    resolved: Result<(), String>,
    recv_port: u16,
    pairing_code: Option<String>,
    tls: bool,
) -> (r: (ServiceReply, Vec<BridgeAction>))
    ensures
        match resolved {
            Ok(_) => r.0@ == ReplyView::Pending && r.1@ == seq![
                BridgeAction::StartClientSession {
                    host: loopback(),
                    port: WAN_PROXY_PORT,
                    recv_port,
                    pairing_code,
                    tls,
                },
            ],
            Err(e) => r.0@ == ReplyView::Error("WAN Traversal failed: "@ + e@) && r.1@ == Seq::<
                BridgeAction,
            >::empty(),
        },
{
    let mut actions: Vec<BridgeAction> = Vec::new();
    match resolved {
        Ok(_) => {
            actions.push(
                BridgeAction::StartClientSession {
                    host: Ipv4 { a: 127, b: 0, c: 0, d: 1 },
                    port: WAN_PROXY_PORT,
                    recv_port,
                    pairing_code,
                    tls,
                },
            );
            (ServiceReply::Pending, actions)
        },
        Err(e) => {
            let mut m = String::from_str("WAN Traversal failed: ");
            m.append(e.as_str());
            (ServiceReply::Error { message: m }, actions)
        },
    }
}

/// What follows a client session start: once connected the stream is
/// reported with the host's socket address; a failure is answered with its
/// error.
pub fn join_outcome(
    state: &mut BridgeState,
    host: Ipv4,
    port: u16,
    recv_port: u16,
    started: Result<(), String>,
) -> (r: ServiceReply)
    ensures
        match started {
            Ok(_) => {
                &&& r@ == ReplyView::StreamConnected(socket_text(host, port), recv_port)
                &&& final(state).joined
                &&& final(state).active_target == old(state).active_target
                &&& final(state).hosting == old(state).hosting
                &&& final(state).pairing@ == old(state).pairing@
            },
            Err(e) => r@ == ReplyView::Error(e@) && unchanged(*old(state), *final(state)),
        },
{
    match started {
        Ok(_) => {
            state.joined = true;
            proof {
                reveal_strlit(":");
            }
            let mut t = ipv4_to_text(host);
            t.append(":");
            let p = decimal_string(port as u32);
            t.append(p.as_str());
            assert(t@ =~= socket_text(host, port));
            ServiceReply::StreamConnected { host_addr: t, recv_port }
        },
        Err(e) => ServiceReply::Error { message: e },
    }
}

/// The answer to a join whose host text does not read as a socket address.
pub fn invalid_address_reply() -> (r: ServiceReply)
    ensures
        r@ == ReplyView::Error("Invalid host address"@),
{
    ServiceReply::Error { message: String::from_str("Invalid host address") }
}

/// What follows a client session start at a socket address written
/// `host_addr`: once connected the stream is reported with that address; a
/// failure is answered with its error.
pub fn joined_at(state: &mut BridgeState, host_addr: String, recv_port: u16, started: Result<(), String>) -> (r:
    ServiceReply)
    ensures
        match started {
            Ok(_) => {
                &&& r@ == ReplyView::StreamConnected(host_addr@, recv_port)
                &&& final(state).joined
                &&& final(state).active_target == old(state).active_target
                &&& final(state).hosting == old(state).hosting
                &&& final(state).pairing@ == old(state).pairing@
            },
            Err(e) => r@ == ReplyView::Error(e@) && unchanged(*old(state), *final(state)),
        },
{
    match started {
        Ok(_) => {
            state.joined = true;
            ServiceReply::StreamConnected { host_addr, recv_port }
        },
        Err(e) => ServiceReply::Error { message: e },
    }
}

/// What follows passing a player request on to the host: an error is
/// reported, else empty player statistics.
pub fn forward_outcome(sent: Result<(), String>) -> (r: ServiceReply)
    ensures
        match sent {
            Ok(_) => r@ == ReplyView::RecvStats,
            Err(e) => r@ == ReplyView::Error(e@),
        },
{
    match sent {
        Ok(_) => ServiceReply::RecvStats,
        Err(e) => ServiceReply::Error { message: e },
    }
}

} // verus!
