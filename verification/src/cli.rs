//! The command-line host: its arguments, the window it shares, the command
//! line of the background service it spawns, and when its session ends.

use vstd::prelude::*;

use crate::capture::WindowInfo;
use crate::text::{
    contains_text, decimal, decimal_string, lemma_decimal_reads_back, lowercase, parse_unsigned,
    parse_unsigned_spec, same_text, seq_contains, split_bounds, split_on, to_lowercase, trim_of,
    trim_text, chars_of,
};

verus! {

/// Options of the host command line.
pub struct HostArgs {
    /// Title or process-name fragment of the window to share.
    pub window_title: Option<String>,
    /// UDP streaming port.
    pub port: Option<u16>,
    /// Static pairing code.
    pub code: Option<String>,
    /// TCP control port.
    pub control_port: Option<u16>,
    /// Target bitrate in Mbps.
    pub quality: Option<u32>,
    /// Handle of a display to share whole.
    pub display: Option<isize>,
    /// Handles of windows to share in a grid.
    pub multi_window: Option<Vec<isize>>,
    /// Handles of two windows to share side by side.
    pub dual_window: Option<(isize, isize)>,
    /// Target frame rate.
    pub fps: Option<u32>,
    /// Whether to share audio.
    pub audio: Option<bool>,
    /// Whether to synchronise the clipboard.
    pub clipboard: Option<bool>,
}

/// `HostArgs` with texts as character sequences.
pub struct HostArgsView {
    pub window_title: Option<Seq<char>>,
    pub port: Option<u16>,
    pub code: Option<Seq<char>>,
    pub control_port: Option<u16>,
    pub quality: Option<u32>,
    pub display: Option<isize>,
    pub multi_window: Option<Seq<isize>>,
    pub dual_window: Option<(isize, isize)>,
    pub fps: Option<u32>,
    pub audio: Option<bool>,
    pub clipboard: Option<bool>,
}

/// The characters of an optional text.
pub open spec fn opt_text(t: Option<String>) -> Option<Seq<char>> {
    match t {
        Some(s) => Some(s@),
        None => None,
    }
}

impl View for HostArgs {
    type V = HostArgsView;

    open spec fn view(&self) -> HostArgsView {
        HostArgsView {
            window_title: opt_text(self.window_title),
            port: self.port,
            code: opt_text(self.code),
            control_port: self.control_port,
            quality: self.quality,
            display: self.display,
            multi_window: match self.multi_window {
                Some(v) => Some(v@),
                None => None,
            },
            dual_window: self.dual_window,
            fps: self.fps,
            audio: self.audio,
            clipboard: self.clipboard,
        }
    }
}

/// No option given.
pub open spec fn no_host_args() -> HostArgsView {
    HostArgsView {
        window_title: None,
        port: None,
        code: None,
        control_port: None,
        quality: None,
        display: None,
        multi_window: None,
        dual_window: None,
        fps: None,
        audio: None,
        clipboard: None,
    }
}

/// An option of the host command line that takes a value.
#[derive(Debug, Clone, Copy, PartialEq, Eq, Structural)]
pub enum HostFlag {
    Window,
    Port,
    ControlPort,
    Code,
    Quality,
    Display,
    MultiWindow,
    DualWindow,
    Fps,
    Audio,
    Clipboard,
}

/// Why the host command line was refused.
#[derive(Debug, Clone, PartialEq, Eq)]
pub enum ArgError {
    /// The option is the last argument.
    MissingValue(HostFlag),
    /// The value of a numeric option does not parse.
    InvalidNumber(HostFlag),
    /// The value is not one the option takes: `true` or `false` for a
    /// switch, two handles for `--dual-window`.
    InvalidValue(HostFlag),
    /// Not an option of the host.
    UnknownArgument(String),
}

/// `ArgError` with the argument text as a character sequence.
pub enum ArgErrorView {
    MissingValue(HostFlag),
    InvalidNumber(HostFlag),
    InvalidValue(HostFlag),
    UnknownArgument(Seq<char>),
}

impl View for ArgError {
    type V = ArgErrorView;

    open spec fn view(&self) -> ArgErrorView {
        match self {
            ArgError::MissingValue(f) => ArgErrorView::MissingValue(*f),
            ArgError::InvalidNumber(f) => ArgErrorView::InvalidNumber(*f),
            ArgError::InvalidValue(f) => ArgErrorView::InvalidValue(*f),
            ArgError::UnknownArgument(a) => ArgErrorView::UnknownArgument(a@),
        }
    }
}

/// The long name of an option.
pub open spec fn flag_name_of(f: HostFlag) -> Seq<char> {
    match f {
        HostFlag::Window => "--window"@,
        HostFlag::Port => "--port"@,
        HostFlag::ControlPort => "--control-port"@,
        HostFlag::Code => "--code"@,
        HostFlag::Quality => "--quality"@,
        HostFlag::Display => "--display"@,
        HostFlag::MultiWindow => "--multi-window"@,
        HostFlag::DualWindow => "--dual-window"@,
        HostFlag::Fps => "--fps"@,
        HostFlag::Audio => "--audio"@,
        HostFlag::Clipboard => "--clipboard"@,
    }
}

fn flag_name(f: HostFlag) -> (s: &'static str)
    ensures
        s@ == flag_name_of(f),
{
    match f {
        HostFlag::Window => "--window",
        HostFlag::Port => "--port",
        HostFlag::ControlPort => "--control-port",
        HostFlag::Code => "--code",
        HostFlag::Quality => "--quality",
        HostFlag::Display => "--display",
        HostFlag::MultiWindow => "--multi-window",
        HostFlag::DualWindow => "--dual-window",
        HostFlag::Fps => "--fps",
        HostFlag::Audio => "--audio",
        HostFlag::Clipboard => "--clipboard",
    }
}

/// The message of an argument error, as the host prints it.
pub open spec fn arg_error_message(e: ArgErrorView) -> Seq<char> {
    match e {
        ArgErrorView::MissingValue(f) => "Missing value for "@ + flag_name_of(f),
        ArgErrorView::InvalidNumber(HostFlag::Port) => "Invalid port number"@,
        ArgErrorView::InvalidNumber(HostFlag::ControlPort) => "Invalid control port number"@,
        ArgErrorView::InvalidNumber(HostFlag::Quality) => "Invalid quality value (use Mbps, e.g. 20)"@,
        ArgErrorView::InvalidNumber(f) => "Invalid value for "@ + flag_name_of(f),
        ArgErrorView::InvalidValue(HostFlag::DualWindow) => "--dual-window takes two window handles"@,
        ArgErrorView::InvalidValue(f) => "Invalid value for "@ + flag_name_of(f) + " (use true or false)"@,
        ArgErrorView::UnknownArgument(a) => "Unknown argument: "@ + a,
    }
}

impl ArgError {
    /// The message the host prints for this error.
    pub fn message(&self) -> (m: String)
        ensures
            m@ == arg_error_message(self@),
    {
        match self {
            ArgError::MissingValue(f) => {
                let mut m = String::from_str("Missing value for ");
                m.append(flag_name(*f));
                m
            },
            ArgError::InvalidNumber(HostFlag::Port) => String::from_str("Invalid port number"),
            ArgError::InvalidNumber(HostFlag::ControlPort) => String::from_str(
                "Invalid control port number",
            ),
            ArgError::InvalidNumber(HostFlag::Quality) => String::from_str(
                "Invalid quality value (use Mbps, e.g. 20)",
            ),
            ArgError::InvalidNumber(f) => {
                let mut m = String::from_str("Invalid value for ");
                m.append(flag_name(*f));
                m
            },
            ArgError::InvalidValue(HostFlag::DualWindow) => String::from_str(
                "--dual-window takes two window handles",
            ),
            ArgError::InvalidValue(f) => {
                let mut m = String::from_str("Invalid value for ");
                m.append(flag_name(*f));
                m.append(" (use true or false)");
                m
            },
            ArgError::UnknownArgument(a) => {
                let mut m = String::from_str("Unknown argument: ");
                m.append(a.as_str());
                m
            },
        }
    }
}

/// The option an argument names: `--window`/`-w`, `--port`/`-p`,
/// `--control-port`/`-cp`, `--code`/`-c`, `--quality`/`-q`, `--display`/`-d`,
/// `--multi-window`/`-mw`, `--dual-window`/`-dw`, `--fps`/`-f`,
/// `--audio`/`-a`, `--clipboard`/`-cb`.
pub open spec fn flag_of(a: Seq<char>) -> Option<HostFlag> {
    if a == "--window"@ || a == "-w"@ {
        Some(HostFlag::Window)
    } else if a == "--port"@ || a == "-p"@ {
        Some(HostFlag::Port)
    } else if a == "--control-port"@ || a == "-cp"@ {
        Some(HostFlag::ControlPort)
    } else if a == "--code"@ || a == "-c"@ {
        Some(HostFlag::Code)
    } else if a == "--quality"@ || a == "-q"@ {
        Some(HostFlag::Quality)
    } else if a == "--display"@ || a == "-d"@ {
        Some(HostFlag::Display)
    } else if a == "--multi-window"@ || a == "-mw"@ {
        Some(HostFlag::MultiWindow)
    } else if a == "--dual-window"@ || a == "-dw"@ {
        Some(HostFlag::DualWindow)
    } else if a == "--fps"@ || a == "-f"@ {
        Some(HostFlag::Fps)
    } else if a == "--audio"@ || a == "-a"@ {
        Some(HostFlag::Audio)
    } else if a == "--clipboard"@ || a == "-cb"@ {
        Some(HostFlag::Clipboard)
    } else {
        None
    }
}

/// The mode switches, which take no value.
pub open spec fn is_mode_switch(a: Seq<char>) -> bool {
    a == "--startup"@ || a == "--bg-service"@
}

/// The options given by `args[i..]` on top of `acc`, or the first error.
pub open spec fn parse_from(args: Seq<Seq<char>>, i: int, acc: HostArgsView) -> Result<
    HostArgsView,
    ArgErrorView,
>
    decreases args.len() - i,
{
    if i < 0 || i >= args.len() {
        Ok(acc)
    } else if is_mode_switch(args[i]) {
        parse_from(args, i + 1, acc)
    } else {
        match flag_of(args[i]) {
            None => Err(ArgErrorView::UnknownArgument(args[i])),
            Some(f) => if i + 1 >= args.len() {
                Err(ArgErrorView::MissingValue(f))
            } else {
                let v = args[i + 1];
                match f {
                    HostFlag::Window => parse_from(
                        args,
                        i + 2,
                        HostArgsView { window_title: Some(v), ..acc },
                    ),
                    HostFlag::Code => parse_from(args, i + 2, HostArgsView { code: Some(v), ..acc }),
                    HostFlag::Port => match parse_unsigned_spec(v, 0xffff) {
                        Some(n) => parse_from(args, i + 2, HostArgsView { port: Some(n as u16), ..acc }),
                        None => Err(ArgErrorView::InvalidNumber(f)),
                    },
                    HostFlag::ControlPort => match parse_unsigned_spec(v, 0xffff) {
                        Some(n) => parse_from(
                            args,
                            i + 2,
                            HostArgsView { control_port: Some(n as u16), ..acc },
                        ),
                        None => Err(ArgErrorView::InvalidNumber(f)),
                    },
                    HostFlag::Quality => match parse_unsigned_spec(v, 0xffff_ffff) {
                        Some(n) => parse_from(
                            args,
                            i + 2,
                            HostArgsView { quality: Some(n as u32), ..acc },
                        ),
                        None => Err(ArgErrorView::InvalidNumber(f)),
                    },
                    HostFlag::Display => match handle_of(v) {
                        Some(h) => parse_from(args, i + 2, HostArgsView { display: Some(h), ..acc }),
                        None => Err(ArgErrorView::InvalidNumber(f)),
                    },
                    HostFlag::MultiWindow => match handle_list_of(v) {
                        Some(hs) => parse_from(
                            args,
                            i + 2,
                            HostArgsView { multi_window: Some(hs), ..acc },
                        ),
                        None => Err(ArgErrorView::InvalidNumber(f)),
                    },
                    HostFlag::DualWindow => match handle_list_of(v) {
                        Some(hs) => if hs.len() == 2 {
                            parse_from(
                                args,
                                i + 2,
                                HostArgsView { dual_window: Some((hs[0], hs[1])), ..acc },
                            )
                        } else {
                            Err(ArgErrorView::InvalidValue(f))
                        },
                        None => Err(ArgErrorView::InvalidNumber(f)),
                    },
                    HostFlag::Fps => match parse_unsigned_spec(v, 0xffff_ffff) {
                        Some(n) => parse_from(args, i + 2, HostArgsView { fps: Some(n as u32), ..acc }),
                        None => Err(ArgErrorView::InvalidNumber(f)),
                    },
                    HostFlag::Audio => match switch_of(v) {
                        Some(b) => parse_from(args, i + 2, HostArgsView { audio: Some(b), ..acc }),
                        None => Err(ArgErrorView::InvalidValue(f)),
                    },
                    HostFlag::Clipboard => match switch_of(v) {
                        Some(b) => parse_from(args, i + 2, HostArgsView { clipboard: Some(b), ..acc }),
                        None => Err(ArgErrorView::InvalidValue(f)),
                    },
                }
            },
        }
    }
}

/// A window or display handle as the command line gives it: a decimal
/// number (white space around it allowed) no larger than `isize::MAX`.
pub open spec fn handle_of(t: Seq<char>) -> Option<isize> {
    match parse_unsigned_spec(trim_of(t), isize::MAX as nat) {
        Some(n) => Some(n as isize),
        None => None,
    }
}

/// The handles of the pieces, or `None` if one of them is not a handle.
pub open spec fn handles_of(pieces: Seq<Seq<char>>) -> Option<Seq<isize>>
    decreases pieces.len(),
{
    if pieces.len() == 0 {
        Some(Seq::empty())
    } else {
        match (handles_of(pieces.drop_last()), handle_of(pieces.last())) {
            (Some(hs), Some(h)) => Some(hs.push(h)),
            _ => None,
        }
    }
}

/// A comma-separated list of handles.
pub open spec fn handle_list_of(t: Seq<char>) -> Option<Seq<isize>> {
    handles_of(split_on(t, ','))
}

/// The value of an on/off option: `true` or `false`, as `bool::from_str`
/// reads it.
pub open spec fn switch_of(t: Seq<char>) -> Option<bool> {
    if t == "true"@ {
        Some(true)
    } else if t == "false"@ {
        Some(false)
    } else {
        None
    }
}

fn parse_switch(t: &str) -> (r: Option<bool>)
    ensures
        r == switch_of(t@),
{
    if same_text(t, "true") {
        Some(true)
    } else if same_text(t, "false") {
        Some(false)
    } else {
        None
    }
}

fn parse_handle(t: &str) -> (r: Option<isize>)
    ensures
        r == handle_of(t@),
{
    let trimmed = trim_text(t);
    match parse_unsigned(trimmed, isize::MAX as u64) {
        Some(n) => Some(n as isize),
        None => None,
    }
}

proof fn lemma_handles_none_extends(p: Seq<Seq<char>>, k: int)
    requires
        0 <= k <= p.len(),
        handles_of(p.take(k)) is None,
    ensures
        handles_of(p) is None,
    decreases p.len(),
{
    if k < p.len() {
        assert(p.drop_last().take(k) =~= p.take(k));
        lemma_handles_none_extends(p.drop_last(), k);
    } else {
        assert(p.take(k) =~= p);
    }
}

fn parse_handle_list(t: &str) -> (r: Option<Vec<isize>>)
    ensures
        match handle_list_of(t@) {
            Some(hs) => r matches Some(v) && v@ == hs,
            None => r is None,
        },
{
    let cs = chars_of(t);
    assert(cs@.subrange(0, cs.len() as int) =~= t@);
    let bounds = split_bounds(&cs, 0, cs.len(), ',');
    let ghost pieces = split_on(t@, ',');
    let mut out: Vec<isize> = Vec::new();
    let mut k: usize = 0;
    assert(pieces.take(0) =~= Seq::<Seq<char>>::empty());
    while k < bounds.len()
        invariant
            k <= bounds.len(),
            bounds.len() == pieces.len(),
            cs@ == t@,
            pieces == split_on(t@, ','),
            forall|j: int|
                0 <= j < bounds.len() ==> (#[trigger] bounds@[j]).0 <= bounds@[j].1 <= cs.len()
                    && cs@.subrange(bounds@[j].0 as int, bounds@[j].1 as int) == pieces[j],
            handles_of(pieces.take(k as int)) == Some(out@),
        decreases bounds.len() - k,
    {
        let (a, b) = bounds[k];
        let piece = t.substring_char(a, b);
        assert(pieces.take(k + 1).drop_last() =~= pieces.take(k as int));
        assert(pieces.take(k + 1).last() == pieces[k as int]);
        match parse_handle(piece) {
            Some(h) => {
                out.push(h);
            },
            None => {
                proof {
                    lemma_handles_none_extends(pieces, k + 1);
                }
                return None;
            },
        }
        k = k + 1;
    }
    assert(pieces.take(bounds.len() as int) =~= pieces);
    Some(out)
}

/// The characters of each text.
pub open spec fn texts(v: Seq<String>) -> Seq<Seq<char>> {
    v.map_values(|s: String| s@)
}

/// A parsed host command line.
pub struct HostInvocation {
    pub args: HostArgs,
    /// `--startup` was given: launch the background service at logon.
    pub startup: bool,
    /// `--bg-service` was given: run as the background sharing service.
    pub bg_service: bool,
}

fn flag_named(a: &str) -> (f: Option<HostFlag>)
    ensures
        f == flag_of(a@),
{
    if same_text(a, "--window") || same_text(a, "-w") {
        Some(HostFlag::Window)
    } else if same_text(a, "--port") || same_text(a, "-p") {
        Some(HostFlag::Port)
    } else if same_text(a, "--control-port") || same_text(a, "-cp") {
        Some(HostFlag::ControlPort)
    } else if same_text(a, "--code") || same_text(a, "-c") {
        Some(HostFlag::Code)
    } else if same_text(a, "--quality") || same_text(a, "-q") {
        Some(HostFlag::Quality)
    } else if same_text(a, "--display") || same_text(a, "-d") {
        Some(HostFlag::Display)
    } else if same_text(a, "--multi-window") || same_text(a, "-mw") {
        Some(HostFlag::MultiWindow)
    } else if same_text(a, "--dual-window") || same_text(a, "-dw") {
        Some(HostFlag::DualWindow)
    } else if same_text(a, "--fps") || same_text(a, "-f") {
        Some(HostFlag::Fps)
    } else if same_text(a, "--audio") || same_text(a, "-a") {
        Some(HostFlag::Audio)
    } else if same_text(a, "--clipboard") || same_text(a, "-cb") {
        Some(HostFlag::Clipboard)
    } else {
        None
    }
}

fn contains_arg(args: &Vec<String>, lit: &str) -> (r: bool)
    ensures
        r == texts(args@).contains(lit@),
{
    let mut i: usize = 0;
    while i < args.len()
        invariant
            i <= args.len(),
            forall|j: int| 0 <= j < i ==> args@[j]@ != lit@,
        decreases args.len() - i,
    {
        if same_text(args[i].as_str(), lit) {
            assert(texts(args@)[i as int] == lit@);
            return true;
        }
        i = i + 1;
    }
    assert forall|j: int| 0 <= j < texts(args@).len() implies texts(args@)[j] != lit@ by {
        assert(texts(args@)[j] == args@[j]@);
    }
    false
}

/// Parses a host command line (`args[0]` the program, `args[1]` the
/// subcommand): the options from `args[2]` on, each value option followed by
/// its value, and the mode switches anywhere.
pub fn parse_host_args(args: &Vec<String>) -> (r: Result<HostInvocation, ArgError>)
    ensures
        match r {
            Ok(inv) => {
                &&& parse_from(texts(args@), 2, no_host_args()) == Ok::<HostArgsView, ArgErrorView>(inv.args@)
                &&& inv.startup == texts(args@).contains("--startup"@)
                &&& inv.bg_service == texts(args@).contains("--bg-service"@)
            },
            Err(e) => parse_from(texts(args@), 2, no_host_args()) == Err::<HostArgsView, ArgErrorView>(e@),
        },
{
    let ghost all = texts(args@);
    let startup = contains_arg(args, "--startup");
    let bg_service = contains_arg(args, "--bg-service");
    let mut acc = HostArgs {
        window_title: None,
        port: None,
        code: None,
        control_port: None,
        quality: None,
        display: None,
        multi_window: None,
        dual_window: None,
        fps: None,
        audio: None,
        clipboard: None,
    };
    let n = args.len();
    let mut i: usize = 2;
    while i < n
        invariant
            n == args.len(),
            all == texts(args@),
            2 <= i,
            parse_from(all, 2, no_host_args()) == parse_from(all, i as int, acc@),
        decreases n - i,
    {
        let a = args[i].as_str();
        assert(all[i as int] == a@);
        if same_text(a, "--startup") || same_text(a, "--bg-service") {
            i = i + 1;
        } else {
            let f = match flag_named(a) {
                Some(f) => f,
                None => {
                    return Err(ArgError::UnknownArgument(args[i].clone()));
                },
            };
            if i + 1 >= n {
                return Err(ArgError::MissingValue(f));
            }
            let v = args[i + 1].as_str();
            assert(all[i + 1] == v@);
            match f {
                HostFlag::Window => {
                    acc.window_title = Some(args[i + 1].clone());
                },
                HostFlag::Code => {
                    acc.code = Some(args[i + 1].clone());
                },
                HostFlag::Port => {
                    match parse_unsigned(v, 0xffff) {
                        Some(p) => {
                            acc.port = Some(p as u16);
                        },
                        None => {
                            return Err(ArgError::InvalidNumber(f));
                        },
                    }
                },
                HostFlag::ControlPort => {
                    match parse_unsigned(v, 0xffff) {
                        Some(p) => {
                            acc.control_port = Some(p as u16);
                        },
                        None => {
                            return Err(ArgError::InvalidNumber(f));
                        },
                    }
                },
                HostFlag::Quality => {
                    match parse_unsigned(v, 0xffff_ffff) {
                        Some(q) => {
                            acc.quality = Some(q as u32);
                        },
                        None => {
                            return Err(ArgError::InvalidNumber(f));
                        },
                    }
                },
                HostFlag::Display => {
                    match parse_handle(v) {
                        Some(h) => {
                            acc.display = Some(h);
                        },
                        None => {
                            return Err(ArgError::InvalidNumber(f));
                        },
                    }
                },
                HostFlag::MultiWindow => {
                    match parse_handle_list(v) {
                        Some(hs) => {
                            acc.multi_window = Some(hs);
                        },
                        None => {
                            return Err(ArgError::InvalidNumber(f));
                        },
                    }
                },
                HostFlag::DualWindow => {
                    match parse_handle_list(v) {
                        Some(hs) => {
                            if hs.len() == 2 {
                                acc.dual_window = Some((hs[0], hs[1]));
                            } else {
                                return Err(ArgError::InvalidValue(f));
                            }
                        },
                        None => {
                            return Err(ArgError::InvalidNumber(f));
                        },
                    }
                },
                HostFlag::Fps => {
                    match parse_unsigned(v, 0xffff_ffff) {
                        Some(q) => {
                            acc.fps = Some(q as u32);
                        },
                        None => {
                            return Err(ArgError::InvalidNumber(f));
                        },
                    }
                },
                HostFlag::Audio => {
                    match parse_switch(v) {
                        Some(b) => {
                            acc.audio = Some(b);
                        },
                        None => {
                            return Err(ArgError::InvalidValue(f));
                        },
                    }
                },
                HostFlag::Clipboard => {
                    match parse_switch(v) {
                        Some(b) => {
                            acc.clipboard = Some(b);
                        },
                        None => {
                            return Err(ArgError::InvalidValue(f));
                        },
                    }
                },
            }
            i = i + 2;
        }
    }
    Ok(HostInvocation { args: acc, startup, bg_service })
}

/// The bitrate in bits per second a `--quality` in Mbps asks for.
pub fn quality_bitrate_bps(mbps: u32) -> (bps: u32)
    requires
        mbps <= 4294,
    ensures
        bps == mbps * 1_000_000,
{
    mbps * 1_000_000
}

/// The first index of `s` whose element satisfies `pred`.
pub open spec fn first_where(s: Seq<WindowInfo>, pred: spec_fn(WindowInfo) -> bool) -> Option<int>
    decreases s.len(),
{
    if s.len() == 0 {
        None
    } else {
        match first_where(s.drop_last(), pred) {
            Some(i) => Some(i),
            None => if pred(s.last()) {
                Some(s.len() - 1)
            } else {
                None
            },
        }
    }
}

/// A window whose lower-cased title or process name contains the
/// lower-cased `query`.
pub open spec fn query_pred(query: Seq<char>) -> spec_fn(WindowInfo) -> bool {
    |w: WindowInfo|
        seq_contains(lowercase(w.title@), lowercase(query)) || seq_contains(
            lowercase(w.process_name@),
            lowercase(query),
        )
}

/// A window whose process name equals `process`, ignoring case.
pub open spec fn process_pred(process: Seq<char>) -> spec_fn(WindowInfo) -> bool {
    |w: WindowInfo| lowercase(w.process_name@) == lowercase(process)
}

/// A window whose lower-cased title contains the lower-cased `title`.
pub open spec fn title_pred(title: Seq<char>) -> spec_fn(WindowInfo) -> bool {
    |w: WindowInfo| seq_contains(lowercase(w.title@), lowercase(title))
}

/// An index as a mathematical integer.
pub open spec fn opt_int(i: Option<usize>) -> Option<int> {
    match i {
        Some(k) => Some(k as int),
        None => None,
    }
}

proof fn lemma_first_where_extends(s: Seq<WindowInfo>, pred: spec_fn(WindowInfo) -> bool, k: int)
    requires
        0 <= k <= s.len(),
        first_where(s.subrange(0, k), pred) is Some,
    ensures
        first_where(s, pred) == first_where(s.subrange(0, k), pred),
    decreases s.len() - k,
{
    if k < s.len() {
        lemma_first_where_step(s, pred, k);
        lemma_first_where_extends(s, pred, k + 1);
    } else {
        assert(s.subrange(0, k) =~= s);
    }
}

proof fn lemma_first_where_step(s: Seq<WindowInfo>, pred: spec_fn(WindowInfo) -> bool, i: int)
    requires
        0 <= i < s.len(),
    ensures
        first_where(s.subrange(0, i + 1), pred) == match first_where(s.subrange(0, i), pred) {
            Some(k) => Some(k),
            None => if pred(s[i]) {
                Some(i)
            } else {
                None
            },
        },
{
    assert(s.subrange(0, i + 1).drop_last() =~= s.subrange(0, i));
}

/// The first window matching `query` in title or process name, ignoring
/// case, as the host picks the window named by `--window`.
pub fn find_window(wins: &Vec<WindowInfo>, query: &str) -> (r: Option<usize>)
    ensures
        opt_int(r) == first_where(wins@, query_pred(query@)),
{
    let q = to_lowercase(query);
    let mut i: usize = 0;
    while i < wins.len()
        invariant
            i <= wins.len(),
            q@ == lowercase(query@),
            first_where(wins@.subrange(0, i as int), query_pred(query@)) is None,
        decreases wins.len() - i,
    {
        proof {
            lemma_first_where_step(wins@, query_pred(query@), i as int);
        }
        let t = to_lowercase(wins[i].title.as_str());
        let p = to_lowercase(wins[i].process_name.as_str());
        if contains_text(t.as_str(), q.as_str()) || contains_text(p.as_str(), q.as_str()) {
            proof {
                lemma_first_where_extends(wins@, query_pred(query@), i + 1);
            }
            return Some(i);
        }
        i = i + 1;
    }
    assert(wins@.subrange(0, wins.len() as int) =~= wins@);
    None
}

fn find_process(wins: &Vec<WindowInfo>, process: &str) -> (r: Option<usize>)
    ensures
        opt_int(r) == first_where(wins@, process_pred(process@)),
{
    let want = to_lowercase(process);
    let mut i: usize = 0;
    while i < wins.len()
        invariant
            i <= wins.len(),
            want@ == lowercase(process@),
            first_where(wins@.subrange(0, i as int), process_pred(process@)) is None,
        decreases wins.len() - i,
    {
        proof {
            lemma_first_where_step(wins@, process_pred(process@), i as int);
        }
        let p = to_lowercase(wins[i].process_name.as_str());
        if same_text(p.as_str(), want.as_str()) {
            proof {
                lemma_first_where_extends(wins@, process_pred(process@), i + 1);
            }
            return Some(i);
        }
        i = i + 1;
    }
    assert(wins@.subrange(0, wins.len() as int) =~= wins@);
    None
}

fn find_title(wins: &Vec<WindowInfo>, title: &str) -> (r: Option<usize>)
    ensures
        opt_int(r) == first_where(wins@, title_pred(title@)),
{
    let want = to_lowercase(title);
    let mut i: usize = 0;
    while i < wins.len()
        invariant
            i <= wins.len(),
            want@ == lowercase(title@),
            first_where(wins@.subrange(0, i as int), title_pred(title@)) is None,
        decreases wins.len() - i,
    {
        proof {
            lemma_first_where_step(wins@, title_pred(title@), i as int);
        }
        let t = to_lowercase(wins[i].title.as_str());
        if contains_text(t.as_str(), want.as_str()) {
            proof {
                lemma_first_where_extends(wins@, title_pred(title@), i + 1);
            }
            return Some(i);
        }
        i = i + 1;
    }
    assert(wins@.subrange(0, wins.len() as int) =~= wins@);
    None
}

/// The window the host shares at logon: the first whose process is the one
/// shared last time, else the first whose title contains the last title,
/// else (on the last of the attempts) the first window; none when there is
/// no window.
pub open spec fn startup_choice(
    wins: Seq<WindowInfo>,
    last_process: Option<Seq<char>>,
    last_title: Option<Seq<char>>,
    last_attempt: bool,
) -> Option<int> {
    if wins.len() == 0 {
        None
    } else {
        let by_process = match last_process {
            Some(p) => first_where(wins, process_pred(p)),
            None => None,
        };
        let by_title = match last_title {
            Some(t) => first_where(wins, title_pred(t)),
            None => None,
        };
        if by_process is Some {
            by_process
        } else if by_title is Some {
            by_title
        } else if last_attempt {
            Some(0)
        } else {
            None
        }
    }
}

/// One attempt at choosing the window to share at logon.
pub fn choose_startup_window(
    wins: &Vec<WindowInfo>,
    last_process: Option<&str>,
    last_title: Option<&str>,
    last_attempt: bool,
) -> (r: Option<usize>)
    ensures
        opt_int(r) == startup_choice(
            wins@,
            match last_process {
                Some(p) => Some(p@),
                None => None,
            },
            match last_title {
                Some(t) => Some(t@),
                None => None,
            },
            last_attempt,
        ),
{
    if wins.len() == 0 {
        return None;
    }
    if let Some(p) = last_process {
        if let Some(i) = find_process(wins, p) {
            return Some(i);
        }
    }
    if let Some(t) = last_title {
        if let Some(i) = find_title(wins, t) {
            return Some(i);
        }
    }
    if last_attempt {
        Some(0)
    } else {
        None
    }
}

/// The command line of the background sharing service for a window and
/// the options given: the window by process name, the ports and quality
/// where given, and the pairing code unless the host is unattended.
pub open spec fn background_args_of(
    process: Seq<char>,
    a: HostArgsView,
    unattended: bool,
    code: Option<Seq<char>>,
) -> Seq<Seq<char>> {
    seq!["host"@, "--bg-service"@, "--window"@, process] + match a.port {
        Some(p) => seq!["--port"@, decimal(p as nat)],
        None => Seq::empty(),
    } + match a.control_port {
        Some(p) => seq!["--control-port"@, decimal(p as nat)],
        None => Seq::empty(),
    } + match a.quality {
        Some(q) => seq!["--quality"@, decimal(q as nat)],
        None => Seq::empty(),
    } + if !unattended && code is Some {
        seq!["--code"@, code->0]
    } else {
        Seq::empty()
    }
}

fn push_text(v: &mut Vec<String>, t: &str)
    ensures
        texts(final(v)@) == texts(old(v)@).push(t@),
{
    v.push(String::from_str(t));
    assert(texts(v@) =~= texts(old(v)@).push(t@));
}

fn push_string(v: &mut Vec<String>, t: String)
    ensures
        texts(final(v)@) == texts(old(v)@).push(t@),
{
    let ghost tv = t@;
    v.push(t);
    assert(texts(v@) =~= texts(old(v)@).push(tv));
}

/// The arguments of the background sharing service the host spawns (after
/// the program path).
pub fn background_args(process: &str, a: &HostArgs, unattended: bool, code: Option<&str>) -> (r: Vec<
    String,
>)
    ensures
        texts(r@) == background_args_of(
            process@,
            a@,
            unattended,
            match code {
                Some(c) => Some(c@),
                None => None,
            },
        ),
{
    let ghost code_v = match code {
        Some(c) => Some(c@),
        None => None::<Seq<char>>,
    };
    let mut r: Vec<String> = Vec::new();
    push_text(&mut r, "host");
    push_text(&mut r, "--bg-service");
    push_text(&mut r, "--window");
    push_text(&mut r, process);
    let ghost base = seq!["host"@, "--bg-service"@, "--window"@, process@];
    assert(texts(r@) =~= base);
    let ghost port_part = match a.port {
        Some(p) => seq!["--port"@, decimal(p as nat)],
        None => Seq::<Seq<char>>::empty(),
    };
    if let Some(p) = a.port {
        push_text(&mut r, "--port");
        push_string(&mut r, decimal_string(p as u32));
    }
    assert(texts(r@) =~= base + port_part);
    let ghost cp_part = match a.control_port {
        Some(p) => seq!["--control-port"@, decimal(p as nat)],
        None => Seq::<Seq<char>>::empty(),
    };
    if let Some(p) = a.control_port {
        push_text(&mut r, "--control-port");
        push_string(&mut r, decimal_string(p as u32));
    }
    assert(texts(r@) =~= base + port_part + cp_part);
    let ghost q_part = match a.quality {
        Some(q) => seq!["--quality"@, decimal(q as nat)],
        None => Seq::<Seq<char>>::empty(),
    };
    if let Some(q) = a.quality {
        push_text(&mut r, "--quality");
        push_string(&mut r, decimal_string(q));
    }
    assert(texts(r@) =~= base + port_part + cp_part + q_part);
    let ghost code_part = if !unattended && code_v is Some {
        seq!["--code"@, code_v->0]
    } else {
        Seq::<Seq<char>>::empty()
    };
    if !unattended {
        if let Some(c) = code {
            push_text(&mut r, "--code");
            push_text(&mut r, c);
        }
    }
    assert(texts(r@) =~= base + port_part + cp_part + q_part + code_part);
    r
}

/// Shortens a title for display to `max_len` characters: unchanged if it
/// has at most `max_len` characters, else its first `max_len - 1`
/// characters followed by an ellipsis.
pub fn truncate_str(s: &str, max_len: usize) -> (r: String)
    requires
        s@.len() > max_len ==> max_len >= 1,
    ensures
        r@ == if s@.len() <= max_len {
            s@
        } else {
            s@.subrange(0, max_len - 1) + "\u{2026}"@
        },
{
    let n = s.unicode_len();
    if n <= max_len {
        String::from_str(s)
    } else {
        let head = s.substring_char(0, max_len - 1);
        let mut r = String::from_str(head);
        r.append("\u{2026}");
        r
    }
}

proof fn lemma_flag_literals()
    ensures
        flag_of("--window"@) == Some(HostFlag::Window),
        flag_of("--port"@) == Some(HostFlag::Port),
        flag_of("--control-port"@) == Some(HostFlag::ControlPort),
        flag_of("--quality"@) == Some(HostFlag::Quality),
        flag_of("--code"@) == Some(HostFlag::Code),
        !is_mode_switch("--window"@),
        !is_mode_switch("--port"@),
        !is_mode_switch("--control-port"@),
        !is_mode_switch("--quality"@),
        !is_mode_switch("--code"@),
        is_mode_switch("--bg-service"@),
{
    reveal_strlit("--window");
    reveal_strlit("-w");
    reveal_strlit("--port");
    reveal_strlit("-p");
    reveal_strlit("--control-port");
    reveal_strlit("-cp");
    reveal_strlit("--code");
    reveal_strlit("-c");
    reveal_strlit("--quality");
    reveal_strlit("-q");
    reveal_strlit("--startup");
    reveal_strlit("--bg-service");
    assert("--window"@.len() == 8 && "-w"@.len() == 2 && "--port"@.len() == 6 && "-p"@.len() == 2);
    assert("--control-port"@.len() == 14 && "-cp"@.len() == 3 && "--code"@.len() == 6);
    assert("-c"@.len() == 2 && "--quality"@.len() == 9 && "--startup"@.len() == 9);
    assert("--bg-service"@.len() == 12);
    assert("--code"@[2] == 'c' && "--port"@[2] == 'p' && "--quality"@[2] == 'q');
    assert("--startup"@[2] == 's');
    assert("--port"@ != "--window"@ && "--port"@ != "-w"@);
    assert("--control-port"@ != "--window"@ && "--control-port"@ != "-w"@ && "--control-port"@
        != "--port"@ && "--control-port"@ != "-p"@);
    assert("--code"@ != "--window"@ && "--code"@ != "-w"@ && "--code"@ != "--port"@ && "--code"@
        != "-p"@ && "--code"@ != "--control-port"@ && "--code"@ != "-cp"@);
    assert("--quality"@ != "--window"@ && "--quality"@ != "-w"@ && "--quality"@ != "--port"@
        && "--quality"@ != "-p"@ && "--quality"@ != "--control-port"@ && "--quality"@ != "-cp"@
        && "--quality"@ != "--code"@ && "--quality"@ != "-c"@);
    assert("--window"@ != "--startup"@ && "--window"@ != "--bg-service"@);
    assert("--port"@ != "--startup"@ && "--port"@ != "--bg-service"@);
    assert("--control-port"@ != "--startup"@ && "--control-port"@ != "--bg-service"@);
    assert("--quality"@ != "--startup"@ && "--quality"@ != "--bg-service"@);
    assert("--code"@ != "--startup"@ && "--code"@ != "--bg-service"@);
}

/// The options an optional value adds to a parsed command line.
pub open spec fn with_option(acc: HostArgsView, f: HostFlag, v: Seq<char>) -> HostArgsView {
    match f {
        HostFlag::Window => HostArgsView { window_title: Some(v), ..acc },
        HostFlag::Code => HostArgsView { code: Some(v), ..acc },
        HostFlag::Port => HostArgsView { port: Some(parse_unsigned_spec(v, 0xffff)->0 as u16), ..acc },
        HostFlag::ControlPort => HostArgsView {
            control_port: Some(parse_unsigned_spec(v, 0xffff)->0 as u16),
            ..acc
        },
        HostFlag::Quality => HostArgsView {
            quality: Some(parse_unsigned_spec(v, 0xffff_ffff)->0 as u32),
            ..acc
        },
        HostFlag::Display => HostArgsView { display: Some(handle_of(v)->0), ..acc },
        HostFlag::MultiWindow => HostArgsView { multi_window: Some(handle_list_of(v)->0), ..acc },
        HostFlag::DualWindow => HostArgsView {
            dual_window: Some((handle_list_of(v)->0[0], handle_list_of(v)->0[1])),
            ..acc
        },
        HostFlag::Fps => HostArgsView { fps: Some(parse_unsigned_spec(v, 0xffff_ffff)->0 as u32), ..acc },
        HostFlag::Audio => HostArgsView { audio: Some(switch_of(v)->0), ..acc },
        HostFlag::Clipboard => HostArgsView { clipboard: Some(switch_of(v)->0), ..acc },
    }
}

proof fn lemma_parse_pair(args: Seq<Seq<char>>, i: int, acc: HostArgsView, f: HostFlag)
    requires
        0 <= i,
        i + 1 < args.len(),
        flag_of(args[i]) == Some(f),
        !is_mode_switch(args[i]),
        f == HostFlag::Window || f == HostFlag::Code || f == HostFlag::Port || f
            == HostFlag::ControlPort || f == HostFlag::Quality,
        f == HostFlag::Port || f == HostFlag::ControlPort ==> parse_unsigned_spec(args[i + 1], 0xffff)
            is Some,
        f == HostFlag::Quality ==> parse_unsigned_spec(args[i + 1], 0xffff_ffff) is Some,
    ensures
        parse_from(args, i, acc) == parse_from(args, i + 2, with_option(acc, f, args[i + 1])),
{
}

/// The background sharing service reads back the options it is spawned
/// with: the window by its process name, the ports and quality the host
/// was given, and the pairing code unless the host is unattended.
#[verifier::rlimit(80)]
pub proof fn lemma_background_args_round_trip(
    exe: Seq<char>,
    process: Seq<char>,
    a: HostArgsView,
    unattended: bool,
    code: Option<Seq<char>>,
)
    ensures
        parse_from(seq![exe] + background_args_of(process, a, unattended, code), 2, no_host_args())
            == Ok::<HostArgsView, ArgErrorView>(
            HostArgsView {
                window_title: Some(process),
                port: a.port,
                code: if unattended {
                    None
                } else {
                    code
                },
                control_port: a.control_port,
                quality: a.quality,
                ..no_host_args()
            },
        ),
{
    lemma_flag_literals();
    let base = seq![exe, "host"@, "--bg-service"@, "--window"@, process];
    let pp = match a.port {
        Some(p) => seq!["--port"@, decimal(p as nat)],
        None => Seq::empty(),
    };
    let cp = match a.control_port {
        Some(p) => seq!["--control-port"@, decimal(p as nat)],
        None => Seq::empty(),
    };
    let qp = match a.quality {
        Some(q) => seq!["--quality"@, decimal(q as nat)],
        None => Seq::empty(),
    };
    let kp = if !unattended && code is Some {
        seq!["--code"@, code->0]
    } else {
        Seq::empty()
    };
    let args = base + pp + cp + qp + kp;
    assert(seq![exe] + background_args_of(process, a, unattended, code) =~= args);
    // After the mode switch and the window.
    let acc1 = HostArgsView { window_title: Some(process), ..no_host_args() };
    assert(args[2] == "--bg-service"@);
    assert(parse_from(args, 2, no_host_args()) == parse_from(args, 3, no_host_args()));
    assert(args[3] == "--window"@ && args[4] == process);
    lemma_parse_pair(args, 3, no_host_args(), HostFlag::Window);
    // The port.
    let i1: int = 5 + pp.len() as int;
    let acc2 = HostArgsView { port: a.port, ..acc1 };
    if let Some(p) = a.port {
        lemma_decimal_reads_back(p as nat, 0xffff);
        assert(args[5] == "--port"@ && args[6] == decimal(p as nat));
        lemma_parse_pair(args, 5, acc1, HostFlag::Port);
    }
    assert(parse_from(args, 2, no_host_args()) == parse_from(args, i1, acc2));
    // The control port.
    let i2: int = i1 + cp.len();
    let acc3 = HostArgsView { control_port: a.control_port, ..acc2 };
    if let Some(p) = a.control_port {
        lemma_decimal_reads_back(p as nat, 0xffff);
        assert(args[i1] == "--control-port"@ && args[i1 + 1] == decimal(p as nat));
        lemma_parse_pair(args, i1, acc2, HostFlag::ControlPort);
    }
    assert(parse_from(args, 2, no_host_args()) == parse_from(args, i2, acc3));
    // The quality.
    let i3: int = i2 + qp.len();
    let acc4 = HostArgsView { quality: a.quality, ..acc3 };
    if let Some(q) = a.quality {
        lemma_decimal_reads_back(q as nat, 0xffff_ffff);
        assert(args[i2] == "--quality"@ && args[i2 + 1] == decimal(q as nat));
        lemma_parse_pair(args, i2, acc3, HostFlag::Quality);
    }
    assert(parse_from(args, 2, no_host_args()) == parse_from(args, i3, acc4));
    // The code.
    let i4: int = i3 + kp.len();
    let acc5 = HostArgsView {
        code: if unattended {
            None
        } else {
            code
        },
        ..acc4
    };
    if !unattended && code is Some {
        assert(args[i3] == "--code"@ && args[i3 + 1] == code->0);
        lemma_parse_pair(args, i3, acc4, HostFlag::Code);
    }
    assert(i4 == args.len());
    assert(parse_from(args, 2, no_host_args()) == parse_from(args, i4, acc5));
}

/// What the host learns from its session while it runs.
#[derive(Debug, Clone, Copy, PartialEq, Eq, Structural)]
pub enum HostSessionEvent {
    ClientConnected,
    ClientDisconnected,
    StreamStopped,
    /// Ctrl+C or the tray's quit.
    Shutdown,
    /// Anything else the session reports.
    Other,
}

/// What the host does in response.
#[derive(Debug, Clone, Copy, PartialEq, Eq, Structural)]
pub enum HostLoopAction {
    Continue,
    /// Tell the user a player joined, then hide the console.
    AnnounceConnection,
    /// End the session.
    Stop,
}

/// Whether a player is connected to the command-line host.
pub struct HostPresence {
    pub player_connected: bool,
}

/// The host's response to an event and whether a player is connected after
/// it. An interactive host (neither background service, unattended nor
/// started silently) announces the first player; an attended host stops
/// when its player leaves, an unattended one waits for the next.
pub open spec fn host_step(
    connected: bool,
    ev: HostSessionEvent,
    interactive: bool,
    unattended: bool,
) -> (HostLoopAction, bool) {
    match ev {
        HostSessionEvent::ClientConnected => if !connected {
            (
                if interactive {
                    HostLoopAction::AnnounceConnection
                } else {
                    HostLoopAction::Continue
                },
                true,
            )
        } else {
            (HostLoopAction::Continue, true)
        },
        HostSessionEvent::ClientDisconnected => if connected {
            if !unattended {
                (HostLoopAction::Stop, true)
            } else {
                (HostLoopAction::Continue, false)
            }
        } else {
            (HostLoopAction::Continue, false)
        },
        HostSessionEvent::StreamStopped | HostSessionEvent::Shutdown => (
            HostLoopAction::Stop,
            connected,
        ),
        HostSessionEvent::Other => (HostLoopAction::Continue, connected),
    }
}

impl HostPresence {
    /// No player yet.
    pub fn new() -> (p: Self)
        ensures
            !p.player_connected,
    {
        HostPresence { player_connected: false }
    }

    /// Handles one session event.
    pub fn on_event(&mut self, ev: HostSessionEvent, interactive: bool, unattended: bool) -> (a:
        HostLoopAction)
        ensures
            (a, final(self).player_connected) == host_step(
                old(self).player_connected,
                ev,
                interactive,
                unattended,
            ),
    {
        match ev {
            HostSessionEvent::ClientConnected => {
                if !self.player_connected {
                    self.player_connected = true;
                    if interactive {
                        HostLoopAction::AnnounceConnection
                    } else {
                        HostLoopAction::Continue
                    }
                } else {
                    HostLoopAction::Continue
                }
            },
            HostSessionEvent::ClientDisconnected => {
                if self.player_connected {
                    if !unattended {
                        HostLoopAction::Stop
                    } else {
                        self.player_connected = false;
                        HostLoopAction::Continue
                    }
                } else {
                    HostLoopAction::Continue
                }
            },
            HostSessionEvent::StreamStopped | HostSessionEvent::Shutdown => HostLoopAction::Stop,
            HostSessionEvent::Other => HostLoopAction::Continue,
        }
    }
}

/// An attended host ends its session when the connected player leaves; an
/// unattended host never ends on a departure and is ready for the next
/// player, whom it does not announce twice.
pub proof fn lemma_departure_ends_attended_session(interactive: bool)
    ensures
        host_step(true, HostSessionEvent::ClientDisconnected, interactive, false).0
            == HostLoopAction::Stop,
        forall|c: bool| #[trigger]
            host_step(c, HostSessionEvent::ClientDisconnected, interactive, true).0
                != HostLoopAction::Stop,
        !host_step(true, HostSessionEvent::ClientDisconnected, interactive, true).1,
        host_step(true, HostSessionEvent::ClientConnected, interactive, true).0
            == HostLoopAction::Continue,
{
}

/// How an executable was asked to run.
#[derive(Debug, Clone, Copy, PartialEq, Eq, Structural)]
pub enum LaunchMode {
    /// The terminal front end (headless UI, background service or logon
    /// start).
    Terminal,
    /// The encoder benchmark, for this many seconds.
    Benchmark(u64),
    /// Under the Windows service manager.
    Service,
    /// The background service with its web interface.
    Console,
}

/// Seconds the benchmark runs when none are given.
pub const DEFAULT_BENCHMARK_SECS: u64 = 10;

/// The first argument after the program, or `default`.
pub open spec fn mode_arg(args: Seq<Seq<char>>, default: Seq<char>) -> Seq<char> {
    if args.len() > 1 {
        args[1]
    } else {
        default
    }
}

/// Whether the terminal front end is asked for: the headless mode, or the
/// background-service or logon switch anywhere on the command line.
pub open spec fn wants_terminal(args: Seq<Seq<char>>, mode: Seq<char>) -> bool {
    mode == "headless"@ || args.contains("--bg-service"@) || args.contains("--startup"@)
}

/// How the host executable runs, given its arguments and the `UiMode`
/// setting (2 selects the terminal UI): the mode is the first argument,
/// `host` by default.
pub open spec fn host_launch_mode_of(args: Seq<Seq<char>>, ui_mode: u32) -> LaunchMode {
    let mode = mode_arg(args, "host"@);
    if ui_mode == 2 || wants_terminal(args, mode) {
        LaunchMode::Terminal
    } else if mode == "benchmark"@ {
        LaunchMode::Benchmark(
            if args.len() > 2 {
                match parse_unsigned_spec(args[2], u64::MAX as nat) {
                    Some(n) => n as u64,
                    None => DEFAULT_BENCHMARK_SECS,
                }
            } else {
                DEFAULT_BENCHMARK_SECS
            },
        )
    } else if mode == "service"@ {
        LaunchMode::Service
    } else {
        LaunchMode::Console
    }
}

/// How the host executable runs.
pub fn host_launch_mode(args: &Vec<String>, ui_mode: u32) -> (m: LaunchMode)
    ensures
        m == host_launch_mode_of(texts(args@), ui_mode),
{
    let ghost all = texts(args@);
    let mode: &str = if args.len() > 1 {
        args[1].as_str()
    } else {
        "host"
    };
    assert(mode@ == mode_arg(all, "host"@));
    if ui_mode == 2 || same_text(mode, "headless") || contains_arg(args, "--bg-service")
        || contains_arg(args, "--startup") {
        return LaunchMode::Terminal;
    }
    if same_text(mode, "benchmark") {
        let mut secs = DEFAULT_BENCHMARK_SECS;
        if args.len() > 2 {
            assert(all[2] == args@[2]@);
            if let Some(n) = parse_unsigned(args[2].as_str(), u64::MAX) {
                secs = n;
            }
        }
        return LaunchMode::Benchmark(secs);
    }
    if same_text(mode, "service") {
        LaunchMode::Service
    } else {
        LaunchMode::Console
    }
}

/// How the player executable runs: the terminal player when asked for
/// (mode `play` by default), else the background service.
pub fn player_wants_terminal(args: &Vec<String>) -> (r: bool)
    ensures
        r == wants_terminal(texts(args@), mode_arg(texts(args@), "play"@)),
{
    let mode: &str = if args.len() > 1 {
        args[1].as_str()
    } else {
        "play"
    };
    assert(mode@ == mode_arg(texts(args@), "play"@));
    same_text(mode, "headless") || contains_arg(args, "--bg-service") || contains_arg(
        args,
        "--startup",
    )
}

/// The pixel area of a window.
pub open spec fn area(w: WindowInfo) -> int {
    w.width * w.height
}

/// The window the benchmark captures: the largest by area, the last of
/// several equally large ones (as `Iterator::max_by_key` picks).
pub fn benchmark_target(wins: &Vec<WindowInfo>) -> (r: Option<usize>)
    requires
        forall|j: int| 0 <= j < wins.len() ==> #[trigger] area(wins@[j]) <= u32::MAX,
    ensures
        wins.len() == 0 <==> r is None,
        r matches Some(i) ==> i < wins.len() && (forall|j: int|
            0 <= j < wins.len() ==> area(#[trigger] wins@[j]) <= area(wins@[i as int])) && (
        forall|j: int| i < j < wins.len() ==> area(#[trigger] wins@[j]) < area(wins@[i as int])),
{
    if wins.len() == 0 {
        return None;
    }
    let mut best: usize = 0;
    proof {
        assert(area(wins@[0]) <= u32::MAX);
    }
    let mut best_area: u32 = wins[0].width * wins[0].height;
    let mut i: usize = 1;
    while i < wins.len()
        invariant
            1 <= i <= wins.len(),
            best < i,
            best_area == area(wins@[best as int]),
            forall|j: int| 0 <= j < wins.len() ==> #[trigger] area(wins@[j]) <= u32::MAX,
            forall|j: int| 0 <= j < i ==> area(#[trigger] wins@[j]) <= best_area,
            forall|j: int| best < j < i ==> area(#[trigger] wins@[j]) < best_area,
        decreases wins.len() - i,
    {
        proof {
            assert(area(wins@[i as int]) <= u32::MAX);
        }
        let a = wins[i].width * wins[i].height;
        if a >= best_area {
            best = i;
            best_area = a;
        }
        i = i + 1;
    }
    Some(best)
}

/// Every option has its documented short form, which names the same option
/// as the long form: `-w`, `-p`, `-cp`, `-c`, `-q`, `-d`, `-mw`, `-dw`, `-f`,
/// `-a`, `-cb`; none of them is a mode switch.
#[verifier::rlimit(50)]
pub proof fn lemma_short_options_name_long_ones()
    ensures
        flag_of("-w"@) == Some(HostFlag::Window),
        flag_of("--window"@) == Some(HostFlag::Window),
        !is_mode_switch("-w"@) && !is_mode_switch("--window"@),
        flag_of("-p"@) == Some(HostFlag::Port),
        flag_of("--port"@) == Some(HostFlag::Port),
        !is_mode_switch("-p"@) && !is_mode_switch("--port"@),
        flag_of("-cp"@) == Some(HostFlag::ControlPort),
        flag_of("--control-port"@) == Some(HostFlag::ControlPort),
        !is_mode_switch("-cp"@) && !is_mode_switch("--control-port"@),
        flag_of("-c"@) == Some(HostFlag::Code),
        flag_of("--code"@) == Some(HostFlag::Code),
        !is_mode_switch("-c"@) && !is_mode_switch("--code"@),
        flag_of("-q"@) == Some(HostFlag::Quality),
        flag_of("--quality"@) == Some(HostFlag::Quality),
        !is_mode_switch("-q"@) && !is_mode_switch("--quality"@),
        flag_of("-d"@) == Some(HostFlag::Display),
        flag_of("--display"@) == Some(HostFlag::Display),
        !is_mode_switch("-d"@) && !is_mode_switch("--display"@),
        flag_of("-mw"@) == Some(HostFlag::MultiWindow),
        flag_of("--multi-window"@) == Some(HostFlag::MultiWindow),
        !is_mode_switch("-mw"@) && !is_mode_switch("--multi-window"@),
        flag_of("-dw"@) == Some(HostFlag::DualWindow),
        flag_of("--dual-window"@) == Some(HostFlag::DualWindow),
        !is_mode_switch("-dw"@) && !is_mode_switch("--dual-window"@),
        flag_of("-f"@) == Some(HostFlag::Fps),
        flag_of("--fps"@) == Some(HostFlag::Fps),
        !is_mode_switch("-f"@) && !is_mode_switch("--fps"@),
        flag_of("-a"@) == Some(HostFlag::Audio),
        flag_of("--audio"@) == Some(HostFlag::Audio),
        !is_mode_switch("-a"@) && !is_mode_switch("--audio"@),
        flag_of("-cb"@) == Some(HostFlag::Clipboard),
        flag_of("--clipboard"@) == Some(HostFlag::Clipboard),
        !is_mode_switch("-cb"@) && !is_mode_switch("--clipboard"@),
{
    reveal_strlit("-w");
    reveal_strlit("--window");
    reveal_strlit("-p");
    reveal_strlit("--port");
    reveal_strlit("-cp");
    reveal_strlit("--control-port");
    reveal_strlit("-c");
    reveal_strlit("--code");
    reveal_strlit("-q");
    reveal_strlit("--quality");
    reveal_strlit("-d");
    reveal_strlit("--display");
    reveal_strlit("-mw");
    reveal_strlit("--multi-window");
    reveal_strlit("-dw");
    reveal_strlit("--dual-window");
    reveal_strlit("-f");
    reveal_strlit("--fps");
    reveal_strlit("-a");
    reveal_strlit("--audio");
    reveal_strlit("-cb");
    reveal_strlit("--clipboard");
    reveal_strlit("--startup");
    reveal_strlit("--bg-service");
    reveal_strlit("true");
    reveal_strlit("false");
    assert("--audio"@.len() != "--bg-service"@.len());
    assert("--audio"@ != "--bg-service"@);
    assert("--audio"@.len() != "--code"@.len());
    assert("--audio"@ != "--code"@);
    assert("--audio"@.len() != "--control-port"@.len());
    assert("--audio"@ != "--control-port"@);
    assert("--audio"@.len() != "--display"@.len());
    assert("--audio"@ != "--display"@);
    assert("--audio"@.len() != "--dual-window"@.len());
    assert("--audio"@ != "--dual-window"@);
    assert("--audio"@.len() != "--fps"@.len());
    assert("--audio"@ != "--fps"@);
    assert("--audio"@.len() != "--multi-window"@.len());
    assert("--audio"@ != "--multi-window"@);
    assert("--audio"@.len() != "--port"@.len());
    assert("--audio"@ != "--port"@);
    assert("--audio"@.len() != "--quality"@.len());
    assert("--audio"@ != "--quality"@);
    assert("--audio"@.len() != "--startup"@.len());
    assert("--audio"@ != "--startup"@);
    assert("--audio"@.len() != "--window"@.len());
    assert("--audio"@ != "--window"@);
    assert("--audio"@.len() != "-c"@.len());
    assert("--audio"@ != "-c"@);
    assert("--audio"@.len() != "-cp"@.len());
    assert("--audio"@ != "-cp"@);
    assert("--audio"@.len() != "-d"@.len());
    assert("--audio"@ != "-d"@);
    assert("--audio"@.len() != "-dw"@.len());
    assert("--audio"@ != "-dw"@);
    assert("--audio"@.len() != "-f"@.len());
    assert("--audio"@ != "-f"@);
    assert("--audio"@.len() != "-mw"@.len());
    assert("--audio"@ != "-mw"@);
    assert("--audio"@.len() != "-p"@.len());
    assert("--audio"@ != "-p"@);
    assert("--audio"@.len() != "-q"@.len());
    assert("--audio"@ != "-q"@);
    assert("--audio"@.len() != "-w"@.len());
    assert("--audio"@ != "-w"@);
    assert("--clipboard"@.len() != "--audio"@.len());
    assert("--clipboard"@ != "--audio"@);
    assert("--clipboard"@.len() != "--bg-service"@.len());
    assert("--clipboard"@ != "--bg-service"@);
    assert("--clipboard"@.len() != "--code"@.len());
    assert("--clipboard"@ != "--code"@);
    assert("--clipboard"@.len() != "--control-port"@.len());
    assert("--clipboard"@ != "--control-port"@);
    assert("--clipboard"@.len() != "--display"@.len());
    assert("--clipboard"@ != "--display"@);
    assert("--clipboard"@.len() != "--dual-window"@.len());
    assert("--clipboard"@ != "--dual-window"@);
    assert("--clipboard"@.len() != "--fps"@.len());
    assert("--clipboard"@ != "--fps"@);
    assert("--clipboard"@.len() != "--multi-window"@.len());
    assert("--clipboard"@ != "--multi-window"@);
    assert("--clipboard"@.len() != "--port"@.len());
    assert("--clipboard"@ != "--port"@);
    assert("--clipboard"@.len() != "--quality"@.len());
    assert("--clipboard"@ != "--quality"@);
    assert("--clipboard"@.len() != "--startup"@.len());
    assert("--clipboard"@ != "--startup"@);
    assert("--clipboard"@.len() != "--window"@.len());
    assert("--clipboard"@ != "--window"@);
    assert("--clipboard"@.len() != "-a"@.len());
    assert("--clipboard"@ != "-a"@);
    assert("--clipboard"@.len() != "-c"@.len());
    assert("--clipboard"@ != "-c"@);
    assert("--clipboard"@.len() != "-cp"@.len());
    assert("--clipboard"@ != "-cp"@);
    assert("--clipboard"@.len() != "-d"@.len());
    assert("--clipboard"@ != "-d"@);
    assert("--clipboard"@.len() != "-dw"@.len());
    assert("--clipboard"@ != "-dw"@);
    assert("--clipboard"@.len() != "-f"@.len());
    assert("--clipboard"@ != "-f"@);
    assert("--clipboard"@.len() != "-mw"@.len());
    assert("--clipboard"@ != "-mw"@);
    assert("--clipboard"@.len() != "-p"@.len());
    assert("--clipboard"@ != "-p"@);
    assert("--clipboard"@.len() != "-q"@.len());
    assert("--clipboard"@ != "-q"@);
    assert("--clipboard"@.len() != "-w"@.len());
    assert("--clipboard"@ != "-w"@);
    assert("--code"@.len() != "--bg-service"@.len());
    assert("--code"@ != "--bg-service"@);
    assert("--code"@.len() != "--control-port"@.len());
    assert("--code"@ != "--control-port"@);
    assert("--code"@[2] != "--port"@[2]);
    assert("--code"@ != "--port"@);
    assert("--code"@.len() != "--startup"@.len());
    assert("--code"@ != "--startup"@);
    assert("--code"@.len() != "--window"@.len());
    assert("--code"@ != "--window"@);
    assert("--code"@.len() != "-cp"@.len());
    assert("--code"@ != "-cp"@);
    assert("--code"@.len() != "-p"@.len());
    assert("--code"@ != "-p"@);
    assert("--code"@.len() != "-w"@.len());
    assert("--code"@ != "-w"@);
    assert("--control-port"@.len() != "--bg-service"@.len());
    assert("--control-port"@ != "--bg-service"@);
    assert("--control-port"@.len() != "--port"@.len());
    assert("--control-port"@ != "--port"@);
    assert("--control-port"@.len() != "--startup"@.len());
    assert("--control-port"@ != "--startup"@);
    assert("--control-port"@.len() != "--window"@.len());
    assert("--control-port"@ != "--window"@);
    assert("--control-port"@.len() != "-p"@.len());
    assert("--control-port"@ != "-p"@);
    assert("--control-port"@.len() != "-w"@.len());
    assert("--control-port"@ != "-w"@);
    assert("--display"@.len() != "--bg-service"@.len());
    assert("--display"@ != "--bg-service"@);
    assert("--display"@.len() != "--code"@.len());
    assert("--display"@ != "--code"@);
    assert("--display"@.len() != "--control-port"@.len());
    assert("--display"@ != "--control-port"@);
    assert("--display"@.len() != "--port"@.len());
    assert("--display"@ != "--port"@);
    assert("--display"@[2] != "--quality"@[2]);
    assert("--display"@ != "--quality"@);
    assert("--display"@[2] != "--startup"@[2]);
    assert("--display"@ != "--startup"@);
    assert("--display"@.len() != "--window"@.len());
    assert("--display"@ != "--window"@);
    assert("--display"@.len() != "-c"@.len());
    assert("--display"@ != "-c"@);
    assert("--display"@.len() != "-cp"@.len());
    assert("--display"@ != "-cp"@);
    assert("--display"@.len() != "-p"@.len());
    assert("--display"@ != "-p"@);
    assert("--display"@.len() != "-q"@.len());
    assert("--display"@ != "-q"@);
    assert("--display"@.len() != "-w"@.len());
    assert("--display"@ != "-w"@);
    assert("--dual-window"@.len() != "--bg-service"@.len());
    assert("--dual-window"@ != "--bg-service"@);
    assert("--dual-window"@.len() != "--code"@.len());
    assert("--dual-window"@ != "--code"@);
    assert("--dual-window"@.len() != "--control-port"@.len());
    assert("--dual-window"@ != "--control-port"@);
    assert("--dual-window"@.len() != "--display"@.len());
    assert("--dual-window"@ != "--display"@);
    assert("--dual-window"@.len() != "--multi-window"@.len());
    assert("--dual-window"@ != "--multi-window"@);
    assert("--dual-window"@.len() != "--port"@.len());
    assert("--dual-window"@ != "--port"@);
    assert("--dual-window"@.len() != "--quality"@.len());
    assert("--dual-window"@ != "--quality"@);
    assert("--dual-window"@.len() != "--startup"@.len());
    assert("--dual-window"@ != "--startup"@);
    assert("--dual-window"@.len() != "--window"@.len());
    assert("--dual-window"@ != "--window"@);
    assert("--dual-window"@.len() != "-c"@.len());
    assert("--dual-window"@ != "-c"@);
    assert("--dual-window"@.len() != "-cp"@.len());
    assert("--dual-window"@ != "-cp"@);
    assert("--dual-window"@.len() != "-d"@.len());
    assert("--dual-window"@ != "-d"@);
    assert("--dual-window"@.len() != "-mw"@.len());
    assert("--dual-window"@ != "-mw"@);
    assert("--dual-window"@.len() != "-p"@.len());
    assert("--dual-window"@ != "-p"@);
    assert("--dual-window"@.len() != "-q"@.len());
    assert("--dual-window"@ != "-q"@);
    assert("--dual-window"@.len() != "-w"@.len());
    assert("--dual-window"@ != "-w"@);
    assert("--fps"@.len() != "--bg-service"@.len());
    assert("--fps"@ != "--bg-service"@);
    assert("--fps"@.len() != "--code"@.len());
    assert("--fps"@ != "--code"@);
    assert("--fps"@.len() != "--control-port"@.len());
    assert("--fps"@ != "--control-port"@);
    assert("--fps"@.len() != "--display"@.len());
    assert("--fps"@ != "--display"@);
    assert("--fps"@.len() != "--dual-window"@.len());
    assert("--fps"@ != "--dual-window"@);
    assert("--fps"@.len() != "--multi-window"@.len());
    assert("--fps"@ != "--multi-window"@);
    assert("--fps"@.len() != "--port"@.len());
    assert("--fps"@ != "--port"@);
    assert("--fps"@.len() != "--quality"@.len());
    assert("--fps"@ != "--quality"@);
    assert("--fps"@.len() != "--startup"@.len());
    assert("--fps"@ != "--startup"@);
    assert("--fps"@.len() != "--window"@.len());
    assert("--fps"@ != "--window"@);
    assert("--fps"@.len() != "-c"@.len());
    assert("--fps"@ != "-c"@);
    assert("--fps"@.len() != "-cp"@.len());
    assert("--fps"@ != "-cp"@);
    assert("--fps"@.len() != "-d"@.len());
    assert("--fps"@ != "-d"@);
    assert("--fps"@.len() != "-dw"@.len());
    assert("--fps"@ != "-dw"@);
    assert("--fps"@.len() != "-mw"@.len());
    assert("--fps"@ != "-mw"@);
    assert("--fps"@.len() != "-p"@.len());
    assert("--fps"@ != "-p"@);
    assert("--fps"@.len() != "-q"@.len());
    assert("--fps"@ != "-q"@);
    assert("--fps"@.len() != "-w"@.len());
    assert("--fps"@ != "-w"@);
    assert("--multi-window"@.len() != "--bg-service"@.len());
    assert("--multi-window"@ != "--bg-service"@);
    assert("--multi-window"@.len() != "--code"@.len());
    assert("--multi-window"@ != "--code"@);
    assert("--multi-window"@[2] != "--control-port"@[2]);
    assert("--multi-window"@ != "--control-port"@);
    assert("--multi-window"@.len() != "--display"@.len());
    assert("--multi-window"@ != "--display"@);
    assert("--multi-window"@.len() != "--port"@.len());
    assert("--multi-window"@ != "--port"@);
    assert("--multi-window"@.len() != "--quality"@.len());
    assert("--multi-window"@ != "--quality"@);
    assert("--multi-window"@.len() != "--startup"@.len());
    assert("--multi-window"@ != "--startup"@);
    assert("--multi-window"@.len() != "--window"@.len());
    assert("--multi-window"@ != "--window"@);
    assert("--multi-window"@.len() != "-c"@.len());
    assert("--multi-window"@ != "-c"@);
    assert("--multi-window"@.len() != "-cp"@.len());
    assert("--multi-window"@ != "-cp"@);
    assert("--multi-window"@.len() != "-d"@.len());
    assert("--multi-window"@ != "-d"@);
    assert("--multi-window"@.len() != "-p"@.len());
    assert("--multi-window"@ != "-p"@);
    assert("--multi-window"@.len() != "-q"@.len());
    assert("--multi-window"@ != "-q"@);
    assert("--multi-window"@.len() != "-w"@.len());
    assert("--multi-window"@ != "-w"@);
    assert("--port"@.len() != "--bg-service"@.len());
    assert("--port"@ != "--bg-service"@);
    assert("--port"@.len() != "--startup"@.len());
    assert("--port"@ != "--startup"@);
    assert("--port"@.len() != "--window"@.len());
    assert("--port"@ != "--window"@);
    assert("--port"@.len() != "-w"@.len());
    assert("--port"@ != "-w"@);
    assert("--quality"@.len() != "--bg-service"@.len());
    assert("--quality"@ != "--bg-service"@);
    assert("--quality"@.len() != "--code"@.len());
    assert("--quality"@ != "--code"@);
    assert("--quality"@.len() != "--control-port"@.len());
    assert("--quality"@ != "--control-port"@);
    assert("--quality"@.len() != "--port"@.len());
    assert("--quality"@ != "--port"@);
    assert("--quality"@[2] != "--startup"@[2]);
    assert("--quality"@ != "--startup"@);
    assert("--quality"@.len() != "--window"@.len());
    assert("--quality"@ != "--window"@);
    assert("--quality"@.len() != "-c"@.len());
    assert("--quality"@ != "-c"@);
    assert("--quality"@.len() != "-cp"@.len());
    assert("--quality"@ != "-cp"@);
    assert("--quality"@.len() != "-p"@.len());
    assert("--quality"@ != "-p"@);
    assert("--quality"@.len() != "-w"@.len());
    assert("--quality"@ != "-w"@);
    assert("--window"@.len() != "--bg-service"@.len());
    assert("--window"@ != "--bg-service"@);
    assert("--window"@.len() != "--startup"@.len());
    assert("--window"@ != "--startup"@);
    assert("-a"@.len() != "--audio"@.len());
    assert("-a"@ != "--audio"@);
    assert("-a"@.len() != "--bg-service"@.len());
    assert("-a"@ != "--bg-service"@);
    assert("-a"@.len() != "--code"@.len());
    assert("-a"@ != "--code"@);
    assert("-a"@.len() != "--control-port"@.len());
    assert("-a"@ != "--control-port"@);
    assert("-a"@.len() != "--display"@.len());
    assert("-a"@ != "--display"@);
    assert("-a"@.len() != "--dual-window"@.len());
    assert("-a"@ != "--dual-window"@);
    assert("-a"@.len() != "--fps"@.len());
    assert("-a"@ != "--fps"@);
    assert("-a"@.len() != "--multi-window"@.len());
    assert("-a"@ != "--multi-window"@);
    assert("-a"@.len() != "--port"@.len());
    assert("-a"@ != "--port"@);
    assert("-a"@.len() != "--quality"@.len());
    assert("-a"@ != "--quality"@);
    assert("-a"@.len() != "--startup"@.len());
    assert("-a"@ != "--startup"@);
    assert("-a"@.len() != "--window"@.len());
    assert("-a"@ != "--window"@);
    assert("-a"@[1] != "-c"@[1]);
    assert("-a"@ != "-c"@);
    assert("-a"@.len() != "-cp"@.len());
    assert("-a"@ != "-cp"@);
    assert("-a"@[1] != "-d"@[1]);
    assert("-a"@ != "-d"@);
    assert("-a"@.len() != "-dw"@.len());
    assert("-a"@ != "-dw"@);
    assert("-a"@[1] != "-f"@[1]);
    assert("-a"@ != "-f"@);
    assert("-a"@.len() != "-mw"@.len());
    assert("-a"@ != "-mw"@);
    assert("-a"@[1] != "-p"@[1]);
    assert("-a"@ != "-p"@);
    assert("-a"@[1] != "-q"@[1]);
    assert("-a"@ != "-q"@);
    assert("-a"@[1] != "-w"@[1]);
    assert("-a"@ != "-w"@);
    assert("-c"@.len() != "--bg-service"@.len());
    assert("-c"@ != "--bg-service"@);
    assert("-c"@.len() != "--code"@.len());
    assert("-c"@ != "--code"@);
    assert("-c"@.len() != "--control-port"@.len());
    assert("-c"@ != "--control-port"@);
    assert("-c"@.len() != "--port"@.len());
    assert("-c"@ != "--port"@);
    assert("-c"@.len() != "--startup"@.len());
    assert("-c"@ != "--startup"@);
    assert("-c"@.len() != "--window"@.len());
    assert("-c"@ != "--window"@);
    assert("-c"@.len() != "-cp"@.len());
    assert("-c"@ != "-cp"@);
    assert("-c"@[1] != "-p"@[1]);
    assert("-c"@ != "-p"@);
    assert("-c"@[1] != "-w"@[1]);
    assert("-c"@ != "-w"@);
    assert("-cb"@.len() != "--audio"@.len());
    assert("-cb"@ != "--audio"@);
    assert("-cb"@.len() != "--bg-service"@.len());
    assert("-cb"@ != "--bg-service"@);
    assert("-cb"@.len() != "--clipboard"@.len());
    assert("-cb"@ != "--clipboard"@);
    assert("-cb"@.len() != "--code"@.len());
    assert("-cb"@ != "--code"@);
    assert("-cb"@.len() != "--control-port"@.len());
    assert("-cb"@ != "--control-port"@);
    assert("-cb"@.len() != "--display"@.len());
    assert("-cb"@ != "--display"@);
    assert("-cb"@.len() != "--dual-window"@.len());
    assert("-cb"@ != "--dual-window"@);
    assert("-cb"@.len() != "--fps"@.len());
    assert("-cb"@ != "--fps"@);
    assert("-cb"@.len() != "--multi-window"@.len());
    assert("-cb"@ != "--multi-window"@);
    assert("-cb"@.len() != "--port"@.len());
    assert("-cb"@ != "--port"@);
    assert("-cb"@.len() != "--quality"@.len());
    assert("-cb"@ != "--quality"@);
    assert("-cb"@.len() != "--startup"@.len());
    assert("-cb"@ != "--startup"@);
    assert("-cb"@.len() != "--window"@.len());
    assert("-cb"@ != "--window"@);
    assert("-cb"@.len() != "-a"@.len());
    assert("-cb"@ != "-a"@);
    assert("-cb"@.len() != "-c"@.len());
    assert("-cb"@ != "-c"@);
    assert("-cb"@[2] != "-cp"@[2]);
    assert("-cb"@ != "-cp"@);
    assert("-cb"@.len() != "-d"@.len());
    assert("-cb"@ != "-d"@);
    assert("-cb"@[1] != "-dw"@[1]);
    assert("-cb"@ != "-dw"@);
    assert("-cb"@.len() != "-f"@.len());
    assert("-cb"@ != "-f"@);
    assert("-cb"@[1] != "-mw"@[1]);
    assert("-cb"@ != "-mw"@);
    assert("-cb"@.len() != "-p"@.len());
    assert("-cb"@ != "-p"@);
    assert("-cb"@.len() != "-q"@.len());
    assert("-cb"@ != "-q"@);
    assert("-cb"@.len() != "-w"@.len());
    assert("-cb"@ != "-w"@);
    assert("-cp"@.len() != "--bg-service"@.len());
    assert("-cp"@ != "--bg-service"@);
    assert("-cp"@.len() != "--control-port"@.len());
    assert("-cp"@ != "--control-port"@);
    assert("-cp"@.len() != "--port"@.len());
    assert("-cp"@ != "--port"@);
    assert("-cp"@.len() != "--startup"@.len());
    assert("-cp"@ != "--startup"@);
    assert("-cp"@.len() != "--window"@.len());
    assert("-cp"@ != "--window"@);
    assert("-cp"@.len() != "-p"@.len());
    assert("-cp"@ != "-p"@);
    assert("-cp"@.len() != "-w"@.len());
    assert("-cp"@ != "-w"@);
    assert("-d"@.len() != "--bg-service"@.len());
    assert("-d"@ != "--bg-service"@);
    assert("-d"@.len() != "--code"@.len());
    assert("-d"@ != "--code"@);
    assert("-d"@.len() != "--control-port"@.len());
    assert("-d"@ != "--control-port"@);
    assert("-d"@.len() != "--display"@.len());
    assert("-d"@ != "--display"@);
    assert("-d"@.len() != "--port"@.len());
    assert("-d"@ != "--port"@);
    assert("-d"@.len() != "--quality"@.len());
    assert("-d"@ != "--quality"@);
    assert("-d"@.len() != "--startup"@.len());
    assert("-d"@ != "--startup"@);
    assert("-d"@.len() != "--window"@.len());
    assert("-d"@ != "--window"@);
    assert("-d"@[1] != "-c"@[1]);
    assert("-d"@ != "-c"@);
    assert("-d"@.len() != "-cp"@.len());
    assert("-d"@ != "-cp"@);
    assert("-d"@[1] != "-p"@[1]);
    assert("-d"@ != "-p"@);
    assert("-d"@[1] != "-q"@[1]);
    assert("-d"@ != "-q"@);
    assert("-d"@[1] != "-w"@[1]);
    assert("-d"@ != "-w"@);
    assert("-dw"@.len() != "--bg-service"@.len());
    assert("-dw"@ != "--bg-service"@);
    assert("-dw"@.len() != "--code"@.len());
    assert("-dw"@ != "--code"@);
    assert("-dw"@.len() != "--control-port"@.len());
    assert("-dw"@ != "--control-port"@);
    assert("-dw"@.len() != "--display"@.len());
    assert("-dw"@ != "--display"@);
    assert("-dw"@.len() != "--dual-window"@.len());
    assert("-dw"@ != "--dual-window"@);
    assert("-dw"@.len() != "--multi-window"@.len());
    assert("-dw"@ != "--multi-window"@);
    assert("-dw"@.len() != "--port"@.len());
    assert("-dw"@ != "--port"@);
    assert("-dw"@.len() != "--quality"@.len());
    assert("-dw"@ != "--quality"@);
    assert("-dw"@.len() != "--startup"@.len());
    assert("-dw"@ != "--startup"@);
    assert("-dw"@.len() != "--window"@.len());
    assert("-dw"@ != "--window"@);
    assert("-dw"@.len() != "-c"@.len());
    assert("-dw"@ != "-c"@);
    assert("-dw"@[1] != "-cp"@[1]);
    assert("-dw"@ != "-cp"@);
    assert("-dw"@.len() != "-d"@.len());
    assert("-dw"@ != "-d"@);
    assert("-dw"@[1] != "-mw"@[1]);
    assert("-dw"@ != "-mw"@);
    assert("-dw"@.len() != "-p"@.len());
    assert("-dw"@ != "-p"@);
    assert("-dw"@.len() != "-q"@.len());
    assert("-dw"@ != "-q"@);
    assert("-dw"@.len() != "-w"@.len());
    assert("-dw"@ != "-w"@);
    assert("-f"@.len() != "--bg-service"@.len());
    assert("-f"@ != "--bg-service"@);
    assert("-f"@.len() != "--code"@.len());
    assert("-f"@ != "--code"@);
    assert("-f"@.len() != "--control-port"@.len());
    assert("-f"@ != "--control-port"@);
    assert("-f"@.len() != "--display"@.len());
    assert("-f"@ != "--display"@);
    assert("-f"@.len() != "--dual-window"@.len());
    assert("-f"@ != "--dual-window"@);
    assert("-f"@.len() != "--fps"@.len());
    assert("-f"@ != "--fps"@);
    assert("-f"@.len() != "--multi-window"@.len());
    assert("-f"@ != "--multi-window"@);
    assert("-f"@.len() != "--port"@.len());
    assert("-f"@ != "--port"@);
    assert("-f"@.len() != "--quality"@.len());
    assert("-f"@ != "--quality"@);
    assert("-f"@.len() != "--startup"@.len());
    assert("-f"@ != "--startup"@);
    assert("-f"@.len() != "--window"@.len());
    assert("-f"@ != "--window"@);
    assert("-f"@[1] != "-c"@[1]);
    assert("-f"@ != "-c"@);
    assert("-f"@.len() != "-cp"@.len());
    assert("-f"@ != "-cp"@);
    assert("-f"@[1] != "-d"@[1]);
    assert("-f"@ != "-d"@);
    assert("-f"@.len() != "-dw"@.len());
    assert("-f"@ != "-dw"@);
    assert("-f"@.len() != "-mw"@.len());
    assert("-f"@ != "-mw"@);
    assert("-f"@[1] != "-p"@[1]);
    assert("-f"@ != "-p"@);
    assert("-f"@[1] != "-q"@[1]);
    assert("-f"@ != "-q"@);
    assert("-f"@[1] != "-w"@[1]);
    assert("-f"@ != "-w"@);
    assert("-mw"@.len() != "--bg-service"@.len());
    assert("-mw"@ != "--bg-service"@);
    assert("-mw"@.len() != "--code"@.len());
    assert("-mw"@ != "--code"@);
    assert("-mw"@.len() != "--control-port"@.len());
    assert("-mw"@ != "--control-port"@);
    assert("-mw"@.len() != "--display"@.len());
    assert("-mw"@ != "--display"@);
    assert("-mw"@.len() != "--multi-window"@.len());
    assert("-mw"@ != "--multi-window"@);
    assert("-mw"@.len() != "--port"@.len());
    assert("-mw"@ != "--port"@);
    assert("-mw"@.len() != "--quality"@.len());
    assert("-mw"@ != "--quality"@);
    assert("-mw"@.len() != "--startup"@.len());
    assert("-mw"@ != "--startup"@);
    assert("-mw"@.len() != "--window"@.len());
    assert("-mw"@ != "--window"@);
    assert("-mw"@.len() != "-c"@.len());
    assert("-mw"@ != "-c"@);
    assert("-mw"@[1] != "-cp"@[1]);
    assert("-mw"@ != "-cp"@);
    assert("-mw"@.len() != "-d"@.len());
    assert("-mw"@ != "-d"@);
    assert("-mw"@.len() != "-p"@.len());
    assert("-mw"@ != "-p"@);
    assert("-mw"@.len() != "-q"@.len());
    assert("-mw"@ != "-q"@);
    assert("-mw"@.len() != "-w"@.len());
    assert("-mw"@ != "-w"@);
    assert("-p"@.len() != "--bg-service"@.len());
    assert("-p"@ != "--bg-service"@);
    assert("-p"@.len() != "--port"@.len());
    assert("-p"@ != "--port"@);
    assert("-p"@.len() != "--startup"@.len());
    assert("-p"@ != "--startup"@);
    assert("-p"@.len() != "--window"@.len());
    assert("-p"@ != "--window"@);
    assert("-p"@[1] != "-w"@[1]);
    assert("-p"@ != "-w"@);
    assert("-q"@.len() != "--bg-service"@.len());
    assert("-q"@ != "--bg-service"@);
    assert("-q"@.len() != "--code"@.len());
    assert("-q"@ != "--code"@);
    assert("-q"@.len() != "--control-port"@.len());
    assert("-q"@ != "--control-port"@);
    assert("-q"@.len() != "--port"@.len());
    assert("-q"@ != "--port"@);
    assert("-q"@.len() != "--quality"@.len());
    assert("-q"@ != "--quality"@);
    assert("-q"@.len() != "--startup"@.len());
    assert("-q"@ != "--startup"@);
    assert("-q"@.len() != "--window"@.len());
    assert("-q"@ != "--window"@);
    assert("-q"@[1] != "-c"@[1]);
    assert("-q"@ != "-c"@);
    assert("-q"@.len() != "-cp"@.len());
    assert("-q"@ != "-cp"@);
    assert("-q"@[1] != "-p"@[1]);
    assert("-q"@ != "-p"@);
    assert("-q"@[1] != "-w"@[1]);
    assert("-q"@ != "-w"@);
    assert("-w"@.len() != "--bg-service"@.len());
    assert("-w"@ != "--bg-service"@);
    assert("-w"@.len() != "--startup"@.len());
    assert("-w"@ != "--startup"@);
    assert("-w"@.len() != "--window"@.len());
    assert("-w"@ != "--window"@);
}

/// A short option parses exactly as its long form: `-c v` sets the code and
/// `-w v` the window to `v`, whatever `v` is, like `--code v` and
/// `--window v`.
pub proof fn lemma_short_options_parse_like_long(p: Seq<char>, sub: Seq<char>, v: Seq<char>, acc: HostArgsView)
    ensures
        parse_from(seq![p, sub, "-c"@, v], 2, acc) == Ok::<HostArgsView, ArgErrorView>(
            HostArgsView { code: Some(v), ..acc },
        ),
        parse_from(seq![p, sub, "-c"@, v], 2, acc) == parse_from(seq![p, sub, "--code"@, v], 2, acc),
        parse_from(seq![p, sub, "-w"@, v], 2, acc) == Ok::<HostArgsView, ArgErrorView>(
            HostArgsView { window_title: Some(v), ..acc },
        ),
        parse_from(seq![p, sub, "-w"@, v], 2, acc) == parse_from(seq![p, sub, "--window"@, v], 2, acc),
{
    lemma_short_options_name_long_ones();
    let a = seq![p, sub, "-c"@, v];
    let b = seq![p, sub, "--code"@, v];
    let c = seq![p, sub, "-w"@, v];
    let d = seq![p, sub, "--window"@, v];
    assert(a[2] == "-c"@ && a[3] == v && b[2] == "--code"@ && b[3] == v);
    assert(c[2] == "-w"@ && c[3] == v && d[2] == "--window"@ && d[3] == v);
    assert(parse_from(a, 4, HostArgsView { code: Some(v), ..acc }) == Ok::<HostArgsView, ArgErrorView>(HostArgsView { code: Some(v), ..acc }));
    assert(parse_from(b, 4, HostArgsView { code: Some(v), ..acc }) == Ok::<HostArgsView, ArgErrorView>(HostArgsView { code: Some(v), ..acc }));
    assert(parse_from(c, 4, HostArgsView { window_title: Some(v), ..acc }) == Ok::<HostArgsView, ArgErrorView>(HostArgsView { window_title: Some(v), ..acc }));
    assert(parse_from(d, 4, HostArgsView { window_title: Some(v), ..acc }) == Ok::<HostArgsView, ArgErrorView>(HostArgsView { window_title: Some(v), ..acc }));
}

} // verus!
