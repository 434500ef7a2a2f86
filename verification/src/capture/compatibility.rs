//! Classifies windows by their rendering subsystem, which decides the
//! capture backend and whether the app suspends rendering when minimised.

use vstd::prelude::*;

use super::{AppKind, CaptureBackend, WindowInfo};
use crate::text::{contains_text, lowercase, seq_contains, to_lowercase};

verus! {

/// Name fragments of Chromium-based applications (Chrome, Edge, Electron
/// apps such as VS Code, Slack, Discord, Teams, Notion, Figma).
pub open spec fn chromium_hint(proc: Seq<char>) -> bool {
    ||| seq_contains(proc, "chrome"@)
    ||| seq_contains(proc, "msedge"@)
    ||| seq_contains(proc, "electron"@)
    ||| seq_contains(proc, "code"@)
    ||| seq_contains(proc, "slack"@)
    ||| seq_contains(proc, "discord"@)
    ||| seq_contains(proc, "teams"@)
    ||| seq_contains(proc, "notion"@)
    ||| seq_contains(proc, "figma"@)
}

/// Fragments that suggest a game or a 3D application.
pub open spec fn game_hint(text: Seq<char>) -> bool {
    ||| seq_contains(text, "unity"@)
    ||| seq_contains(text, "unreal"@)
    ||| seq_contains(text, "dx11"@)
    ||| seq_contains(text, "dx12"@)
    ||| seq_contains(text, "d3d"@)
    ||| seq_contains(text, "opengl"@)
    ||| seq_contains(text, "vulkan"@)
    ||| seq_contains(text, "steam"@)
    ||| seq_contains(text, "epic"@)
    ||| seq_contains(text, "game"@)
}

/// The kind of a window, from its lower-cased process name and title and
/// whether it has the UWP extended window style. Earlier rules win.
pub open spec fn app_kind_of(proc: Seq<char>, title: Seq<char>, uwp_style: bool) -> AppKind {
    if seq_contains(proc, "mstsc"@) || seq_contains(proc, "msrdc"@) || seq_contains(
        title,
        "remote desktop"@,
    ) {
        AppKind::RDP
    } else if chromium_hint(proc) {
        AppKind::Chromium
    } else if uwp_style {
        AppKind::UWP
    } else if game_hint(proc) || game_hint(title) {
        AppKind::DirectX
    } else {
        AppKind::Win32
    }
}

fn any_game_hint(text: &str) -> (r: bool)
    ensures
        r == game_hint(text@),
{
    contains_text(text, "unity") || contains_text(text, "unreal") || contains_text(text, "dx11")
        || contains_text(text, "dx12") || contains_text(text, "d3d") || contains_text(
        text,
        "opengl",
    ) || contains_text(text, "vulkan") || contains_text(text, "steam") || contains_text(
        text,
        "epic",
    ) || contains_text(text, "game")
}

/// Classifies a window from its lower-cased process name and title and
/// whether it carries the UWP extended style: RDP clients, then Chromium
/// family, then UWP, then games and 3D apps, else plain Win32.
pub fn classify_app_kind(proc_lower: &str, title_lower: &str, uwp_style: bool) -> (k: AppKind)
    ensures
        k == app_kind_of(proc_lower@, title_lower@, uwp_style),
{
    if contains_text(proc_lower, "mstsc") || contains_text(proc_lower, "msrdc") || contains_text(
        title_lower,
        "remote desktop",
    ) {
        return AppKind::RDP;
    }
    if contains_text(proc_lower, "chrome") || contains_text(proc_lower, "msedge") || contains_text(
        proc_lower,
        "electron",
    ) || contains_text(proc_lower, "code") || contains_text(proc_lower, "slack") || contains_text(
        proc_lower,
        "discord",
    ) || contains_text(proc_lower, "teams") || contains_text(proc_lower, "notion")
        || contains_text(proc_lower, "figma") {
        return AppKind::Chromium;
    }
    if uwp_style {
        return AppKind::UWP;
    }
    if any_game_hint(proc_lower) || any_game_hint(title_lower) {
        return AppKind::DirectX;
    }
    AppKind::Win32
}

/// Classifies a window's rendering subsystem from its process name and title,
/// compared case-insensitively. The UWP window-style probe exists only on
/// Windows, so here no window is taken for a UWP one.
pub fn detect_app_kind(info: &WindowInfo) -> (k: AppKind)
    ensures
        k == app_kind_of(lowercase(info.process_name@), lowercase(info.title@), false),
{
    let proc = to_lowercase(info.process_name.as_str());
    let title = to_lowercase(info.title.as_str());
    classify_app_kind(proc.as_str(), title.as_str(), false)
}

/// Whether apps of this kind are known to stop rendering while minimised:
/// Chromium pauses its compositor, many DirectX and Vulkan games pause their
/// render loop, and the OS suspends background UWP apps.
pub fn suspends_render_when_minimized(kind: &AppKind) -> (r: bool)
    ensures
        r == (*kind == AppKind::Chromium || *kind == AppKind::DirectX || *kind == AppKind::UWP
            || *kind == AppKind::Vulkan),
{
    match kind {
        AppKind::Chromium | AppKind::DirectX | AppKind::UWP | AppKind::Vulkan => true,
        _ => false,
    }
}

/// The backend `preferred_backend` picks.
pub open spec fn preferred_backend_of(kind: AppKind, is_minimized: bool) -> CaptureBackend {
    match kind {
        AppKind::UWP | AppKind::DirectX | AppKind::OpenGL | AppKind::Vulkan | AppKind::RDP => CaptureBackend::WGC,
        _ => if is_minimized {
            CaptureBackend::PrintWindow
        } else {
            CaptureBackend::WGC
        },
    }
}

/// Best capture backend for a kind of app and window state: Windows
/// Graphics Capture, except PrintWindow for minimised Chromium, Win32 and
/// unclassified windows (their compositor is paused).
pub fn preferred_backend(kind: &AppKind, is_minimized: bool) -> (b: CaptureBackend)
    ensures
        b == preferred_backend_of(*kind, is_minimized),
{
    match kind {
        AppKind::UWP => CaptureBackend::WGC,
        AppKind::Chromium => if is_minimized {
            CaptureBackend::PrintWindow
        } else {
            CaptureBackend::WGC
        },
        AppKind::DirectX | AppKind::OpenGL | AppKind::Vulkan => CaptureBackend::WGC,
        AppKind::RDP => CaptureBackend::WGC,
        _ => if is_minimized {
            CaptureBackend::PrintWindow
        } else {
            CaptureBackend::WGC
        },
    }
}

/// The classification rules by their fragments: a window whose process
/// name or title marks a Remote Desktop client is RDP; otherwise a process
/// name holding chrome, msedge, electron, code, slack, discord, teams,
/// notion or figma is Chromium, whatever the title and the window style;
/// otherwise a UWP-styled window is UWP.
pub proof fn lemma_app_kind_rules(proc: Seq<char>, title: Seq<char>, uwp_style: bool)
    ensures
        seq_contains(proc, "mstsc"@) || seq_contains(proc, "msrdc"@) || seq_contains(
            title,
            "remote desktop"@,
        ) ==> app_kind_of(proc, title, uwp_style) == AppKind::RDP,
        !seq_contains(proc, "mstsc"@) && !seq_contains(proc, "msrdc"@) && !seq_contains(
            title,
            "remote desktop"@,
        ) && (seq_contains(proc, "chrome"@) || seq_contains(proc, "msedge"@) || seq_contains(
            proc,
            "electron"@,
        ) || seq_contains(proc, "code"@) || seq_contains(proc, "slack"@) || seq_contains(
            proc,
            "discord"@,
        ) || seq_contains(proc, "teams"@) || seq_contains(proc, "notion"@) || seq_contains(
            proc,
            "figma"@,
        )) ==> app_kind_of(proc, title, uwp_style) == AppKind::Chromium,
        !seq_contains(proc, "mstsc"@) && !seq_contains(proc, "msrdc"@) && !seq_contains(
            title,
            "remote desktop"@,
        ) && !seq_contains(proc, "chrome"@) && !seq_contains(proc, "msedge"@) && !seq_contains(
            proc,
            "electron"@,
        ) && !seq_contains(proc, "code"@) && !seq_contains(proc, "slack"@) && !seq_contains(
            proc,
            "discord"@,
        ) && !seq_contains(proc, "teams"@) && !seq_contains(proc, "notion"@) && !seq_contains(
            proc,
            "figma"@,
        ) && uwp_style ==> app_kind_of(proc, title, uwp_style) == AppKind::UWP,
{
}

} // verus!
