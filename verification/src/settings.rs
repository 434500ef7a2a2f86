//! The service's registry values: those that mirror the interface's saved
//! settings, and the shared target recorded for the watchdog.

use vstd::prelude::*;

use crate::capture::WindowInfo;
use crate::text::{isize_string, signed_decimal};
use crate::CaptureTarget;

verus! {

/// The settings document the interface saves, each entry as read from it:
/// `None` where the key is missing or holds a value of another type.
pub struct SavedSettings {
    pub bitrate_kbps: Option<u64>,
    pub fps: Option<u64>,
    pub audio_enabled: Option<bool>,
    pub clipboard_enabled: Option<bool>,
    pub allow_input_control: Option<bool>,
    pub unattended_mode: Option<bool>,
    pub unattended_pin: Option<String>,
    pub tls_enabled: Option<bool>,
    pub adaptive_bitrate_enabled: Option<bool>,
    pub use_static_code: Option<bool>,
    pub static_code: Option<String>,
    pub start_with_windows: Option<bool>,
}

/// A value under the service's registry key.
#[derive(Debug, Clone, Copy, PartialEq, Eq, Structural)]
pub enum RegistryValue {
    Quality,
    Fps,
    Audio,
    Clipboard,
    ControlEnabled,
    Unattended,
    UnattendedPin,
    TlsEnabled,
    AdaptiveBitrate,
    PairingCode,
    StartupEnabled,
    SetupCompleted,
    LastWindowProcess,
    LastWindowTitle,
    LastTargetType,
    LastTargetDisplay,
}

/// The registry name of a value.
pub open spec fn registry_name(v: RegistryValue) -> Seq<char> {
    match v {
        RegistryValue::Quality => "Quality"@,
        RegistryValue::Fps => "Fps"@,
        RegistryValue::Audio => "Audio"@,
        RegistryValue::Clipboard => "Clipboard"@,
        RegistryValue::ControlEnabled => "ControlEnabled"@,
        RegistryValue::Unattended => "Unattended"@,
        RegistryValue::UnattendedPin => "UnattendedPin"@,
        RegistryValue::TlsEnabled => "TlsEnabled"@,
        RegistryValue::AdaptiveBitrate => "AdaptiveBitrate"@,
        RegistryValue::PairingCode => "PairingCode"@,
        RegistryValue::StartupEnabled => "StartupEnabled"@,
        RegistryValue::SetupCompleted => "SetupCompleted"@,
        RegistryValue::LastWindowProcess => "LastWindowProcess"@,
        RegistryValue::LastWindowTitle => "LastWindowTitle"@,
        RegistryValue::LastTargetType => "LastTargetType"@,
        RegistryValue::LastTargetDisplay => "LastTargetDisplay"@,
    }
}

impl RegistryValue {
    /// The registry name of this value.
    pub fn name(&self) -> (n: &'static str)
        ensures
            n@ == registry_name(*self),
    {
        match self {
            RegistryValue::Quality => "Quality",
            RegistryValue::Fps => "Fps",
            RegistryValue::Audio => "Audio",
            RegistryValue::Clipboard => "Clipboard",
            RegistryValue::ControlEnabled => "ControlEnabled",
            RegistryValue::Unattended => "Unattended",
            RegistryValue::UnattendedPin => "UnattendedPin",
            RegistryValue::TlsEnabled => "TlsEnabled",
            RegistryValue::AdaptiveBitrate => "AdaptiveBitrate",
            RegistryValue::PairingCode => "PairingCode",
            RegistryValue::StartupEnabled => "StartupEnabled",
            RegistryValue::SetupCompleted => "SetupCompleted",
            RegistryValue::LastWindowProcess => "LastWindowProcess",
            RegistryValue::LastWindowTitle => "LastWindowTitle",
            RegistryValue::LastTargetType => "LastTargetType",
            RegistryValue::LastTargetDisplay => "LastTargetDisplay",
        }
    }
}

/// One change to the registry.
pub enum RegistryWrite {
    /// Store a number.
    Dword(RegistryValue, u32),
    /// Store a text.
    Text(RegistryValue, String),
    /// Remove a value.
    Delete(RegistryValue),
    /// Register the service to start with Windows; when that succeeds,
    /// `StartupEnabled` becomes 1.
    AddStartup,
    /// Remove the start-with-Windows registration.
    RemoveStartup,
}

/// A registry change, with texts by their characters.
pub enum RegistryWriteView {
    Dword(RegistryValue, u32),
    Text(RegistryValue, Seq<char>),
    Delete(RegistryValue),
    AddStartup,
    RemoveStartup,
}

impl View for RegistryWrite {
    type V = RegistryWriteView;

    open spec fn view(&self) -> RegistryWriteView {
        match self {
            RegistryWrite::Dword(k, v) => RegistryWriteView::Dword(*k, *v),
            RegistryWrite::Text(k, t) => RegistryWriteView::Text(*k, t@),
            RegistryWrite::Delete(k) => RegistryWriteView::Delete(*k),
            RegistryWrite::AddStartup => RegistryWriteView::AddStartup,
            RegistryWrite::RemoveStartup => RegistryWriteView::RemoveStartup,
        }
    }
}

/// The registry number of a switch.
pub open spec fn flag_value(b: bool) -> u32 {
    if b {
        1
    } else {
        0
    }
}

/// The write of a switch, when the setting is present.
pub open spec fn flag_write(v: RegistryValue, b: Option<bool>) -> Seq<RegistryWriteView> {
    match b {
        Some(b) => seq![RegistryWriteView::Dword(v, flag_value(b))],
        None => Seq::empty(),
    }
}

/// The registry changes in `w`, by value.
pub open spec fn writes_view(w: Seq<RegistryWrite>) -> Seq<RegistryWriteView> {
    w.map_values(|x: RegistryWrite| x@)
}

/// The quality write: Mbit/s, the bitrate in kbit/s divided by 1000 and cut
/// to 32 bits.
pub open spec fn quality_write(s: SavedSettings) -> Seq<RegistryWriteView> {
    match s.bitrate_kbps {
        Some(k) => seq![RegistryWriteView::Dword(RegistryValue::Quality, (k / 1000) as u32)],
        None => Seq::empty(),
    }
}

/// The frame-rate write, cut to 32 bits.
pub open spec fn fps_write(s: SavedSettings) -> Seq<RegistryWriteView> {
    match s.fps {
        Some(f) => seq![RegistryWriteView::Dword(RegistryValue::Fps, f as u32)],
        None => Seq::empty(),
    }
}

/// The unattended PIN write.
pub open spec fn pin_write(s: SavedSettings) -> Seq<RegistryWriteView> {
    match s.unattended_pin {
        Some(p) => seq![RegistryWriteView::Text(RegistryValue::UnattendedPin, p@)],
        None => Seq::empty(),
    }
}

/// The static pairing code: stored when it is in use and given, removed
/// when it is not in use.
pub open spec fn code_write(s: SavedSettings) -> Seq<RegistryWriteView> {
    if s.use_static_code == Some(true) {
        match s.static_code {
            Some(c) => seq![RegistryWriteView::Text(RegistryValue::PairingCode, c@)],
            None => Seq::empty(),
        }
    } else {
        seq![RegistryWriteView::Delete(RegistryValue::PairingCode)]
    }
}

/// The start-with-Windows registration: added, or removed with
/// `StartupEnabled` set to 0.
pub open spec fn startup_write(s: SavedSettings) -> Seq<RegistryWriteView> {
    match s.start_with_windows {
        Some(true) => seq![RegistryWriteView::AddStartup],
        Some(false) => seq![
            RegistryWriteView::RemoveStartup,
            RegistryWriteView::Dword(RegistryValue::StartupEnabled, 0),
        ],
        None => Seq::empty(),
    }
}

/// The registry changes that saving `s` makes, in order: quality, frame
/// rate, the audio, clipboard, input-control and unattended switches, the
/// unattended PIN, the TLS and adaptive-bitrate switches, the static pairing
/// code and the start-with-Windows registration.
pub open spec fn settings_writes(s: SavedSettings) -> Seq<RegistryWriteView> {
    quality_write(s) + fps_write(s) + flag_write(RegistryValue::Audio, s.audio_enabled)
        + flag_write(RegistryValue::Clipboard, s.clipboard_enabled) + flag_write(
        RegistryValue::ControlEnabled,
        s.allow_input_control,
    ) + flag_write(RegistryValue::Unattended, s.unattended_mode) + pin_write(s) + flag_write(
        RegistryValue::TlsEnabled,
        s.tls_enabled,
    ) + flag_write(RegistryValue::AdaptiveBitrate, s.adaptive_bitrate_enabled) + code_write(s)
        + startup_write(s)
}

fn push_flag(w: &mut Vec<RegistryWrite>, v: RegistryValue, b: Option<bool>)
    ensures
        writes_view(final(w)@) == writes_view(old(w)@) + flag_write(v, b),
{
    match b {
        Some(b) => {
            w.push(RegistryWrite::Dword(v, if b { 1 } else { 0 }));
        },
        None => {},
    }
    assert(writes_view(final(w)@) =~= writes_view(old(w)@) + flag_write(v, b));
}

/// The registry changes that mirror a saved settings document.
pub fn settings_registry_writes(s: SavedSettings) -> (w: Vec<RegistryWrite>)
    ensures
        writes_view(w@) == settings_writes(s),
{
    let ghost g = s;
    let mut w: Vec<RegistryWrite> = Vec::new();
    match s.bitrate_kbps {
        Some(k) => {
            w.push(RegistryWrite::Dword(RegistryValue::Quality, (k / 1000) as u32));
        },
        None => {},
    }
    assert(writes_view(w@) =~= quality_write(g));
    let ghost w1 = writes_view(w@);
    match s.fps {
        Some(f) => {
            w.push(RegistryWrite::Dword(RegistryValue::Fps, f as u32));
        },
        None => {},
    }
    assert(writes_view(w@) =~= w1 + fps_write(g));
    push_flag(&mut w, RegistryValue::Audio, s.audio_enabled);
    push_flag(&mut w, RegistryValue::Clipboard, s.clipboard_enabled);
    push_flag(&mut w, RegistryValue::ControlEnabled, s.allow_input_control);
    push_flag(&mut w, RegistryValue::Unattended, s.unattended_mode);
    let ghost w2 = writes_view(w@);
    match s.unattended_pin {
        Some(p) => {
            w.push(RegistryWrite::Text(RegistryValue::UnattendedPin, p));
        },
        None => {},
    }
    assert(writes_view(w@) =~= w2 + pin_write(g));
    push_flag(&mut w, RegistryValue::TlsEnabled, s.tls_enabled);
    push_flag(&mut w, RegistryValue::AdaptiveBitrate, s.adaptive_bitrate_enabled);
    let ghost w3 = writes_view(w@);
    let use_static = match s.use_static_code {
        Some(b) => b,
        None => false,
    };
    if use_static {
        match s.static_code {
            Some(c) => {
                w.push(RegistryWrite::Text(RegistryValue::PairingCode, c));
            },
            None => {},
        }
    } else {
        w.push(RegistryWrite::Delete(RegistryValue::PairingCode));
    }
    assert(writes_view(w@) =~= w3 + code_write(g));
    let ghost w4 = writes_view(w@);
    match s.start_with_windows {
        Some(true) => {
            w.push(RegistryWrite::AddStartup);
        },
        Some(false) => {
            w.push(RegistryWrite::RemoveStartup);
            w.push(RegistryWrite::Dword(RegistryValue::StartupEnabled, 0));
        },
        None => {},
    }
    assert(writes_view(w@) =~= w4 + startup_write(g));
    w
}

/// What sharing a target records for the watchdog, which restarts the
/// share after a crash: for a window found in the window list, its process
/// and title; for a display, the target type and the display's handle;
/// nothing otherwise.
pub open spec fn share_writes_of(target: CaptureTarget, window: Option<WindowInfo>) -> Seq<
    RegistryWriteView,
> {
    match target {
        CaptureTarget::Window(_) => match window {
            Some(w) => seq![
                RegistryWriteView::Text(RegistryValue::LastWindowProcess, w.process_name@),
                RegistryWriteView::Text(RegistryValue::LastWindowTitle, w.title@),
            ],
            None => Seq::empty(),
        },
        CaptureTarget::Display(h) => seq![
            RegistryWriteView::Text(RegistryValue::LastTargetType, "Display"@),
            RegistryWriteView::Text(RegistryValue::LastTargetDisplay, signed_decimal(h as int)),
        ],
        _ => Seq::empty(),
    }
}

/// The registry changes of starting to share `target`; `window` is its
/// entry in the window list, when it is a window that was found there.
pub fn share_registry_writes(target: &CaptureTarget, window: Option<&WindowInfo>) -> (w: Vec<
    RegistryWrite,
>)
    ensures
        writes_view(w@) == share_writes_of(
            *target,
            match window {
                Some(x) => Some(*x),
                None => None,
            },
        ),
{
    let mut w: Vec<RegistryWrite> = Vec::new();
    match target {
        CaptureTarget::Window(_) => {
            if let Some(info) = window {
                w.push(RegistryWrite::Text(RegistryValue::LastWindowProcess, info.process_name.clone()));
                w.push(RegistryWrite::Text(RegistryValue::LastWindowTitle, info.title.clone()));
            }
        },
        CaptureTarget::Display(h) => {
            w.push(RegistryWrite::Text(RegistryValue::LastTargetType, String::from_str("Display")));
            w.push(RegistryWrite::Text(RegistryValue::LastTargetDisplay, isize_string(*h)));
        },
        _ => {},
    }
    assert(writes_view(w@) =~= share_writes_of(
        *target,
        match window {
            Some(x) => Some(*x),
            None => None,
        },
    ));
    w
}

/// The registry changes of stopping a share: the recorded target is
/// cleared, so the watchdog starts idle.
pub fn stop_share_registry_writes() -> (w: Vec<RegistryWrite>)
    ensures
        writes_view(w@) == seq![
            RegistryWriteView::Text(RegistryValue::LastWindowProcess, Seq::empty()),
            RegistryWriteView::Text(RegistryValue::LastWindowTitle, Seq::empty()),
            RegistryWriteView::Text(RegistryValue::LastTargetType, Seq::empty()),
            RegistryWriteView::Text(RegistryValue::LastTargetDisplay, Seq::empty()),
        ],
{
    let mut w: Vec<RegistryWrite> = Vec::new();
    w.push(RegistryWrite::Text(RegistryValue::LastWindowProcess, String::new()));
    w.push(RegistryWrite::Text(RegistryValue::LastWindowTitle, String::new()));
    w.push(RegistryWrite::Text(RegistryValue::LastTargetType, String::new()));
    w.push(RegistryWrite::Text(RegistryValue::LastTargetDisplay, String::new()));
    assert(writes_view(w@) =~= seq![
        RegistryWriteView::Text(RegistryValue::LastWindowProcess, Seq::empty()),
        RegistryWriteView::Text(RegistryValue::LastWindowTitle, Seq::empty()),
        RegistryWriteView::Text(RegistryValue::LastTargetType, Seq::empty()),
        RegistryWriteView::Text(RegistryValue::LastTargetDisplay, Seq::empty()),
    ]);
    w
}

} // verus!
