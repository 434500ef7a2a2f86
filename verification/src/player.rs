//! The standalone player: its command line, the choice of a discovered
//! host, the pairing code it is given, and the window input it forwards.

use vstd::prelude::*;

use crate::cli::{opt_text, texts};
use crate::ipc::DiscoveredHost;
use crate::text::{
    lowercase, parse_unsigned, parse_unsigned_spec, same_text, to_lowercase, trim_of, trim_text,
};

verus! {

/// Options of the player command line.
#[derive(Debug, Clone)]
pub struct PlayerArgs {
    /// Host address, as given (it parses as an IP address).
    pub host: Option<String>,
    /// TCP control port of the host.
    pub port: Option<u16>,
    /// Pairing code.
    pub code: Option<String>,
    /// Local UDP port for the stream.
    pub recv_port: Option<u16>,
}

/// `PlayerArgs` with texts as character sequences.
pub struct PlayerArgsView {
    pub host: Option<Seq<char>>,
    pub port: Option<u16>,
    pub code: Option<Seq<char>>,
    pub recv_port: Option<u16>,
}

impl View for PlayerArgs {
    type V = PlayerArgsView;

    open spec fn view(&self) -> PlayerArgsView {
        PlayerArgsView {
            host: opt_text(self.host),
            port: self.port,
            code: opt_text(self.code),
            recv_port: self.recv_port,
        }
    }
}

/// No option given.
pub open spec fn no_player_args() -> PlayerArgsView {
    PlayerArgsView { host: None, port: None, code: None, recv_port: None }
}

/// An option of the player command line; each takes a value.
#[derive(Debug, Clone, Copy, PartialEq, Eq, Structural)]
pub enum PlayerFlag {
    Host,
    Port,
    RecvPort,
    Code,
}

/// Why the player command line was refused.
#[derive(Debug, Clone, PartialEq, Eq)]
pub enum PlayerArgError {
    /// The option is the last argument.
    MissingValue(PlayerFlag),
    /// The `--host` value is not an IP address.
    InvalidHost,
    /// The `--port` value is not a port number.
    InvalidPort,
    /// The `--recv-port` value is not a port number.
    InvalidRecvPort,
    /// Not an option of the player.
    UnknownArgument(String),
}

/// `PlayerArgError` with the argument text as a character sequence.
pub enum PlayerArgErrorView {
    MissingValue(PlayerFlag),
    InvalidHost,
    InvalidPort,
    InvalidRecvPort,
    UnknownArgument(Seq<char>),
}

impl View for PlayerArgError {
    type V = PlayerArgErrorView;

    open spec fn view(&self) -> PlayerArgErrorView {
        match self {
            PlayerArgError::MissingValue(f) => PlayerArgErrorView::MissingValue(*f),
            PlayerArgError::InvalidHost => PlayerArgErrorView::InvalidHost,
            PlayerArgError::InvalidPort => PlayerArgErrorView::InvalidPort,
            PlayerArgError::InvalidRecvPort => PlayerArgErrorView::InvalidRecvPort,
            PlayerArgError::UnknownArgument(a) => PlayerArgErrorView::UnknownArgument(a@),
        }
    }
}

/// The long name of a player option.
pub open spec fn player_flag_name_of(f: PlayerFlag) -> Seq<char> {
    match f {
        PlayerFlag::Host => "--host"@,
        PlayerFlag::Port => "--port"@,
        PlayerFlag::RecvPort => "--recv-port"@,
        PlayerFlag::Code => "--code"@,
    }
}

fn player_flag_name(f: PlayerFlag) -> (s: &'static str)
    ensures
        s@ == player_flag_name_of(f),
{
    match f {
        PlayerFlag::Host => "--host",
        PlayerFlag::Port => "--port",
        PlayerFlag::RecvPort => "--recv-port",
        PlayerFlag::Code => "--code",
    }
}

/// The message of a player argument error, as the player prints it.
pub open spec fn player_arg_error_message(e: PlayerArgErrorView) -> Seq<char> {
    match e {
        PlayerArgErrorView::MissingValue(f) => "Missing value for "@ + player_flag_name_of(f),
        PlayerArgErrorView::InvalidHost => "Invalid host IP address"@,
        PlayerArgErrorView::InvalidPort => "Invalid port number"@,
        PlayerArgErrorView::InvalidRecvPort => "Invalid receive port number"@,
        PlayerArgErrorView::UnknownArgument(a) => "Unknown argument: "@ + a,
    }
}

impl PlayerArgError {
    /// The message the player prints for this error.
    pub fn message(&self) -> (m: String)
        ensures
            m@ == player_arg_error_message(self@),
    {
        match self {
            PlayerArgError::MissingValue(f) => {
                let mut m = String::from_str("Missing value for ");
                m.append(player_flag_name(*f));
                m
            },
            PlayerArgError::InvalidHost => String::from_str("Invalid host IP address"),
            PlayerArgError::InvalidPort => String::from_str("Invalid port number"),
            PlayerArgError::InvalidRecvPort => String::from_str("Invalid receive port number"),
            PlayerArgError::UnknownArgument(a) => {
                let mut m = String::from_str("Unknown argument: ");
                m.append(a.as_str());
                m
            },
        }
    }
}

/// The option an argument names: `--host`/`-h`, `--port`/`-p`,
/// `--recv-port`/`-rp`, `--code`/`-c`.
pub open spec fn player_flag_of(a: Seq<char>) -> Option<PlayerFlag> {
    if a == "--host"@ || a == "-h"@ {
        Some(PlayerFlag::Host)
    } else if a == "--port"@ || a == "-p"@ {
        Some(PlayerFlag::Port)
    } else if a == "--recv-port"@ || a == "-rp"@ {
        Some(PlayerFlag::RecvPort)
    } else if a == "--code"@ || a == "-c"@ {
        Some(PlayerFlag::Code)
    } else {
        None
    }
}

fn player_flag_named(a: &str) -> (f: Option<PlayerFlag>)
    ensures
        f == player_flag_of(a@),
{
    if same_text(a, "--host") || same_text(a, "-h") {
        Some(PlayerFlag::Host)
    } else if same_text(a, "--port") || same_text(a, "-p") {
        Some(PlayerFlag::Port)
    } else if same_text(a, "--recv-port") || same_text(a, "-rp") {
        Some(PlayerFlag::RecvPort)
    } else if same_text(a, "--code") || same_text(a, "-c") {
        Some(PlayerFlag::Code)
    } else {
        None
    }
}

/// The options given by `args[i..]` on top of `acc`, or the first error;
/// `is_ip[k]` says whether `args[k]` parses as an IP address.
pub open spec fn parse_player_from(
    args: Seq<Seq<char>>,
    is_ip: Seq<bool>,
    i: int,
    acc: PlayerArgsView,
) -> Result<PlayerArgsView, PlayerArgErrorView>
    decreases args.len() - i,
{
    if i < 0 || i >= args.len() {
        Ok(acc)
    } else {
        match player_flag_of(args[i]) {
            None => Err(PlayerArgErrorView::UnknownArgument(args[i])),
            Some(f) => if i + 1 >= args.len() {
                Err(PlayerArgErrorView::MissingValue(f))
            } else {
                let v = args[i + 1];
                match f {
                    PlayerFlag::Host => if is_ip[i + 1] {
                        parse_player_from(args, is_ip, i + 2, PlayerArgsView { host: Some(v), ..acc })
                    } else {
                        Err(PlayerArgErrorView::InvalidHost)
                    },
                    PlayerFlag::Code => parse_player_from(
                        args,
                        is_ip,
                        i + 2,
                        PlayerArgsView { code: Some(v), ..acc },
                    ),
                    PlayerFlag::Port => match parse_unsigned_spec(v, 0xffff) {
                        Some(n) => parse_player_from(
                            args,
                            is_ip,
                            i + 2,
                            PlayerArgsView { port: Some(n as u16), ..acc },
                        ),
                        None => Err(PlayerArgErrorView::InvalidPort),
                    },
                    PlayerFlag::RecvPort => match parse_unsigned_spec(v, 0xffff) {
                        Some(n) => parse_player_from(
                            args,
                            is_ip,
                            i + 2,
                            PlayerArgsView { recv_port: Some(n as u16), ..acc },
                        ),
                        None => Err(PlayerArgErrorView::InvalidRecvPort),
                    },
                }
            },
        }
    }
}

/// Parses a player command line (`args[0]` the program, `args[1]` the
/// subcommand): the options from `args[2]` on, each followed by its value.
/// `is_ip[k]` tells whether `args[k]` parses as an IP address, which a
/// `--host` value must.
pub fn parse_player_args(args: &Vec<String>, is_ip: &Vec<bool>) -> (r: Result<
    PlayerArgs,
    PlayerArgError,
>)
    requires
        is_ip.len() == args.len(),
    ensures
        match r {
            Ok(p) => parse_player_from(texts(args@), is_ip@, 2, no_player_args()) == Ok::<
                PlayerArgsView,
                PlayerArgErrorView,
            >(p@),
            Err(e) => parse_player_from(texts(args@), is_ip@, 2, no_player_args()) == Err::<
                PlayerArgsView,
                PlayerArgErrorView,
            >(e@),
        },
{
    let ghost all = texts(args@);
    let mut acc = PlayerArgs { host: None, port: None, code: None, recv_port: None };
    let n = args.len();
    let mut i: usize = 2;
    while i < n
        invariant
            n == args.len(),
            is_ip.len() == n,
            all == texts(args@),
            2 <= i,
            parse_player_from(all, is_ip@, 2, no_player_args()) == parse_player_from(
                all,
                is_ip@,
                i as int,
                acc@,
            ),
        decreases n - i,
    {
        let a = args[i].as_str();
        assert(all[i as int] == a@);
        let f = match player_flag_named(a) {
            Some(f) => f,
            None => {
                return Err(PlayerArgError::UnknownArgument(args[i].clone()));
            },
        };
        if i + 1 >= n {
            return Err(PlayerArgError::MissingValue(f));
        }
        let v = args[i + 1].as_str();
        assert(all[i + 1] == v@);
        match f {
            PlayerFlag::Host => {
                if !is_ip[i + 1] {
                    return Err(PlayerArgError::InvalidHost);
                }
                acc.host = Some(args[i + 1].clone());
            },
            PlayerFlag::Code => {
                acc.code = Some(args[i + 1].clone());
            },
            PlayerFlag::Port => {
                match parse_unsigned(v, 0xffff) {
                    Some(p) => {
                        acc.port = Some(p as u16);
                    },
                    None => {
                        return Err(PlayerArgError::InvalidPort);
                    },
                }
            },
            PlayerFlag::RecvPort => {
                match parse_unsigned(v, 0xffff) {
                    Some(p) => {
                        acc.recv_port = Some(p as u16);
                    },
                    None => {
                        return Err(PlayerArgError::InvalidRecvPort);
                    },
                }
            },
        }
        i = i + 2;
    }
    Ok(acc)
}

/// Whether `hosts` already lists a host at the address of `h`.
pub open spec fn lists_address(hosts: Seq<DiscoveredHost>, h: DiscoveredHost) -> bool {
    exists|i: int| 0 <= i < hosts.len() && (#[trigger] hosts[i]).address@ == h.address@
}

/// The first finding at each address, in order.
pub open spec fn unique_by_address(found: Seq<DiscoveredHost>) -> Seq<DiscoveredHost>
    decreases found.len(),
{
    if found.len() == 0 {
        Seq::empty()
    } else {
        let prev = unique_by_address(found.drop_last());
        if lists_address(prev, found.last()) {
            prev
        } else {
            prev.push(found.last())
        }
    }
}

fn lists_address_exec(hosts: &Vec<DiscoveredHost>, h: &DiscoveredHost) -> (r: bool)
    ensures
        r == lists_address(hosts@, *h),
{
    let mut i: usize = 0;
    while i < hosts.len()
        invariant
            i <= hosts.len(),
            forall|j: int| 0 <= j < i ==> (#[trigger] hosts@[j]).address@ != h.address@,
        decreases hosts.len() - i,
    {
        if same_text(hosts[i].address.as_str(), h.address.as_str()) {
            return true;
        }
        i = i + 1;
    }
    false
}

/// The hosts the player offers: the findings of all discovery methods, one
/// per address (the first found).
pub fn distinct_hosts(found: Vec<DiscoveredHost>) -> (r: Vec<DiscoveredHost>)
    ensures
        r@ == unique_by_address(found@),
{
    let ghost all = found@;
    let mut rest = found;
    let mut r: Vec<DiscoveredHost> = Vec::new();
    let mut k: usize = 0;
    assert(all.len() == rest.len());
    assert(all.take(0) =~= Seq::<DiscoveredHost>::empty());
    while rest.len() > 0
        invariant
            k + rest@.len() == all.len(),
            all.len() <= usize::MAX,
            rest@ == all.subrange(k as int, all.len() as int),
            r@ == unique_by_address(all.take(k as int)),
        decreases rest.len(),
    {
        let h = rest.remove(0);
        assert(all.take(k + 1).drop_last() =~= all.take(k as int));
        assert(all.take(k + 1).last() == h);
        if !lists_address_exec(&r, &h) {
            r.push(h);
        }
        k = k + 1;
        assert(rest@ =~= all.subrange(k as int, all.len() as int));
    }
    assert(all.take(k as int) =~= all);
    r
}

/// The hosts offered have pairwise different addresses, and every finding's
/// address is among them.
pub proof fn lemma_distinct_hosts_cover_findings(found: Seq<DiscoveredHost>)
    ensures
        forall|i: int, j: int|
            0 <= i < j < unique_by_address(found).len() ==> (#[trigger] unique_by_address(
                found,
            )[i]).address@ != (#[trigger] unique_by_address(found)[j]).address@,
        forall|k: int|
            0 <= k < found.len() ==> lists_address(unique_by_address(found), #[trigger] found[k]),
    decreases found.len(),
{
    if found.len() > 0 {
        let prev_found = found.drop_last();
        lemma_distinct_hosts_cover_findings(prev_found);
        let prev = unique_by_address(prev_found);
        let r = unique_by_address(found);
        assert forall|k: int| 0 <= k < found.len() implies lists_address(r, #[trigger] found[k]) by {
            if k < found.len() - 1 {
                assert(found[k] == prev_found[k]);
                assert(lists_address(prev, prev_found[k]));
                let m = choose|m: int|
                    0 <= m < prev.len() && (#[trigger] prev[m]).address@ == prev_found[k].address@;
                assert(r[m] == prev[m]);
            } else if !lists_address(prev, found.last()) {
                assert(r[prev.len() as int] == found.last());
            }
        }
    }
}

/// What the user picked from the list of discovered hosts.
#[derive(Debug, Clone, Copy, PartialEq, Eq, Structural)]
pub enum HostSelection {
    /// Type an address instead.
    Manual,
    /// The host at this position of the list (from 0).
    Listed(usize),
}

/// Why a pick was refused.
#[derive(Debug, Clone, Copy, PartialEq, Eq, Structural)]
pub enum SelectionError {
    /// Neither `M` nor a number.
    Invalid,
    /// A number outside 1 to the number of hosts.
    OutOfRange,
}

impl SelectionError {
    /// The message the player prints for this error.
    pub fn message(&self) -> (m: &'static str)
        ensures
            m@ == (match self {
                SelectionError::Invalid => "Invalid selection"@,
                SelectionError::OutOfRange => "Selection out of range"@,
            }),
    {
        match self {
            SelectionError::Invalid => "Invalid selection",
            SelectionError::OutOfRange => "Selection out of range",
        }
    }
}

/// The pick a typed line names among `count` hosts: `M` in either case
/// (its trimmed text lower-cased is `m`) for manual entry, else a number
/// from 1 to `count` for that host.
pub open spec fn host_selection_of(line: Seq<char>, count: nat) -> Result<
    HostSelection,
    SelectionError,
> {
    let t = trim_of(line);
    if lowercase(t) == "m"@ {
        Ok(HostSelection::Manual)
    } else {
        match parse_unsigned_spec(t, usize::MAX as nat) {
            None => Err(SelectionError::Invalid),
            Some(k) => if k == 0 || k > count {
                Err(SelectionError::OutOfRange)
            } else {
                Ok(HostSelection::Listed((k - 1) as usize))
            },
        }
    }
}

/// Reads the user's pick among `count` discovered hosts.
pub fn select_host(line: &str, count: usize) -> (r: Result<HostSelection, SelectionError>)
    ensures
        r == host_selection_of(line@, count as nat),
{
    let t = trim_text(line);
    let lower = to_lowercase(t);
    if same_text(lower.as_str(), "m") {
        return Ok(HostSelection::Manual);
    }
    match parse_unsigned(t, usize::MAX as u64) {
        None => Err(SelectionError::Invalid),
        Some(k) => {
            if k == 0 || k > count as u64 {
                Err(SelectionError::OutOfRange)
            } else {
                Ok(HostSelection::Listed((k - 1) as usize))
            }
        },
    }
}

/// The pairing code typed at the prompt: none for an empty (or blank)
/// line, else the line trimmed.
pub fn typed_pairing_code(line: &str) -> (r: Option<String>)
    ensures
        match r {
            None => trim_of(line@).len() == 0,
            Some(c) => trim_of(line@).len() > 0 && c@ == trim_of(line@),
        },
{
    let t = trim_text(line);
    if t.unicode_len() == 0 {
        None
    } else {
        Some(String::from_str(t))
    }
}

/// `WM_KEYDOWN`.
pub const WM_KEYDOWN: u32 = 0x0100;
/// `WM_KEYUP`.
pub const WM_KEYUP: u32 = 0x0101;
/// `WM_SYSKEYDOWN`.
pub const WM_SYSKEYDOWN: u32 = 0x0104;
/// `WM_SYSKEYUP`.
pub const WM_SYSKEYUP: u32 = 0x0105;
/// `VK_F4`, the F4 key.
pub const VK_F4: usize = 0x73;
/// `WM_MOUSEMOVE`.
pub const WM_MOUSEMOVE: u32 = 0x0200;
/// `WM_LBUTTONDOWN`.
pub const WM_LBUTTONDOWN: u32 = 0x0201;
/// `WM_LBUTTONUP`.
pub const WM_LBUTTONUP: u32 = 0x0202;
/// `WM_RBUTTONDOWN`.
pub const WM_RBUTTONDOWN: u32 = 0x0204;
/// `WM_RBUTTONUP`.
pub const WM_RBUTTONUP: u32 = 0x0205;
/// `WM_MBUTTONDOWN`.
pub const WM_MBUTTONDOWN: u32 = 0x0207;
/// `WM_MBUTTONUP`.
pub const WM_MBUTTONUP: u32 = 0x0208;
/// `WM_MOUSEWHEEL`.
pub const WM_MOUSEWHEEL: u32 = 0x020A;

/// Input the player window forwards to the host, as read from a window
/// message.
#[derive(Debug, Clone, Copy, PartialEq, Eq, Structural)]
pub enum WindowInput {
    /// The pointer moved to client point (`x`, `y`).
    MouseMove { x: i16, y: i16 },
    /// A button (0 left, 1 right, 2 middle) went down or up at (`x`, `y`).
    MouseButton { button: u8, pressed: bool, x: i16, y: i16 },
    /// The wheel turned by `delta` (120 per notch).
    Wheel { delta: i16 },
    /// A key went down or up.
    Key { vk_code: u32, scan_code: u32, pressed: bool },
}

/// The client point packed in a mouse message's `lparam`: the low word is
/// the signed x, the next word the signed y.
pub open spec fn point_of(lparam: isize) -> (i16, i16) {
    ((lparam & 0xFFFF) as i16, ((lparam >> 16) & 0xFFFF) as i16)
}

/// The input a window message carries, or `None` for other messages and
/// for Alt+F4 (`WM_SYSKEYDOWN` with `VK_F4`), which is left to the default
/// window procedure so that the window closes.
pub open spec fn window_input_of(msg: u32, wparam: usize, lparam: isize) -> Option<WindowInput> {
    let (x, y) = point_of(lparam);
    if msg == WM_MOUSEMOVE {
        Some(WindowInput::MouseMove { x, y })
    } else if msg == WM_LBUTTONDOWN || msg == WM_LBUTTONUP {
        Some(WindowInput::MouseButton { button: 0, pressed: msg == WM_LBUTTONDOWN, x, y })
    } else if msg == WM_RBUTTONDOWN || msg == WM_RBUTTONUP {
        Some(WindowInput::MouseButton { button: 1, pressed: msg == WM_RBUTTONDOWN, x, y })
    } else if msg == WM_MBUTTONDOWN || msg == WM_MBUTTONUP {
        Some(WindowInput::MouseButton { button: 2, pressed: msg == WM_MBUTTONDOWN, x, y })
    } else if msg == WM_MOUSEWHEEL {
        Some(WindowInput::Wheel { delta: (wparam >> 16) as i16 })
    } else if msg == WM_SYSKEYDOWN && wparam == VK_F4 {
        None
    } else if msg == WM_KEYDOWN || msg == WM_KEYUP || msg == WM_SYSKEYDOWN || msg == WM_SYSKEYUP {
        Some(
            WindowInput::Key {
                vk_code: wparam as u32,
                scan_code: ((lparam >> 16) & 0xFF) as u32,
                pressed: msg == WM_KEYDOWN || msg == WM_SYSKEYDOWN,
            },
        )
    } else {
        None
    }
}

/// Reads the input a window message of the player window carries.
pub fn window_input(msg: u32, wparam: usize, lparam: isize) -> (r: Option<WindowInput>)
    ensures
        r == window_input_of(msg, wparam, lparam),
{
    let x = (lparam & 0xFFFF) as i16;
    let y = ((lparam >> 16) & 0xFFFF) as i16;
    if msg == WM_MOUSEMOVE {
        Some(WindowInput::MouseMove { x, y })
    } else if msg == WM_LBUTTONDOWN || msg == WM_LBUTTONUP {
        Some(WindowInput::MouseButton { button: 0, pressed: msg == WM_LBUTTONDOWN, x, y })
    } else if msg == WM_RBUTTONDOWN || msg == WM_RBUTTONUP {
        Some(WindowInput::MouseButton { button: 1, pressed: msg == WM_RBUTTONDOWN, x, y })
    } else if msg == WM_MBUTTONDOWN || msg == WM_MBUTTONUP {
        Some(WindowInput::MouseButton { button: 2, pressed: msg == WM_MBUTTONDOWN, x, y })
    } else if msg == WM_MOUSEWHEEL {
        Some(WindowInput::Wheel { delta: (wparam >> 16) as i16 })
    } else if msg == WM_SYSKEYDOWN && wparam == VK_F4 {
        None
    } else if msg == WM_KEYDOWN || msg == WM_KEYUP || msg == WM_SYSKEYDOWN || msg == WM_SYSKEYUP {
        Some(
            WindowInput::Key {
                vk_code: wparam as u32,
                scan_code: ((lparam >> 16) & 0xFF) as u32,
                pressed: msg == WM_KEYDOWN || msg == WM_SYSKEYDOWN,
            },
        )
    } else {
        None
    }
}

/// Key messages are forwarded as key events: the key code is `wparam`, the
/// scan code bits 16..24 of `lparam`, and the event is a press exactly for
/// `WM_KEYDOWN` (0x0100) and `WM_SYSKEYDOWN` (0x0104); `WM_KEYUP` (0x0101)
/// and `WM_SYSKEYUP` (0x0105) are releases. Alt+F4 (`WM_SYSKEYDOWN` with
/// 0x73) alone is not forwarded.
pub proof fn lemma_key_messages(msg: u32, wparam: usize, lparam: isize)
    ensures
        (msg == 0x0100 || msg == 0x0101 || msg == 0x0104 || msg == 0x0105) && !(msg == 0x0104
            && wparam == 0x73) ==> window_input_of(msg, wparam, lparam) == Some(
            WindowInput::Key {
                vk_code: wparam as u32,
                scan_code: ((lparam >> 16) & 0xFF) as u32,
                pressed: msg == 0x0100 || msg == 0x0104,
            },
        ),
        msg == 0x0101 || msg == 0x0105 ==> (window_input_of(msg, wparam, lparam) matches Some(
            WindowInput::Key { pressed, .. },
        ) && !pressed),
        msg == 0x0104 && wparam == 0x73 ==> window_input_of(msg, wparam, lparam) is None,
{
}

/// Mouse button messages are forwarded as button events at the message's
/// point: left (0x0201 down, 0x0202 up) is button 0, right (0x0204,
/// 0x0205) button 1, middle (0x0207, 0x0208) button 2, pressed exactly on
/// the down message; a move (0x0200) is a move to that point.
pub proof fn lemma_mouse_messages(msg: u32, wparam: usize, lparam: isize)
    ensures
        msg == 0x0200 ==> window_input_of(msg, wparam, lparam) == Some(
            WindowInput::MouseMove { x: (lparam & 0xFFFF) as i16, y: ((lparam >> 16) & 0xFFFF) as i16 },
        ),
        msg == 0x0201 || msg == 0x0202 || msg == 0x0204 || msg == 0x0205 || msg == 0x0207 || msg
            == 0x0208 ==> window_input_of(msg, wparam, lparam) == Some(
            WindowInput::MouseButton {
                button: if msg <= 0x0202 {
                    0u8
                } else if msg <= 0x0205 {
                    1u8
                } else {
                    2u8
                },
                pressed: msg == 0x0201 || msg == 0x0204 || msg == 0x0207,
                x: (lparam & 0xFFFF) as i16,
                y: ((lparam >> 16) & 0xFFFF) as i16,
            },
        ),
{
}

} // verus!
