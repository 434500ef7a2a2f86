//! Window and display capture: the data the capture layer reports and the
//! rules that choose a capture backend.

pub mod audio;
pub mod compatibility;
pub mod compose;
pub mod health;
pub mod policy;
pub mod window_list;

use vstd::prelude::*;

use crate::text::same_text;

verus! {

/// A capturable application window.
#[derive(Debug, Clone)]
pub struct WindowInfo {
    pub hwnd: isize,
    pub title: String,
    pub process_name: String,
    pub process_id: u32,
    pub width: u32,
    pub height: u32,
    pub is_minimized: bool,
    pub app_kind: AppKind,
    pub suspends_render_when_minimized: bool,
}

/// Rendering category of an application; it decides the capture backend.
#[derive(Debug, Clone, Copy, PartialEq, Eq, Structural)]
#[allow(clippy::upper_case_acronyms)]
pub enum AppKind {
    Win32,
    UWP,
    /// Chrome, Edge, Electron and the like.
    Chromium,
    DirectX,
    OpenGL,
    Vulkan,
    RDP,
    Unknown,
}

/// Available capture backends, in priority order.
#[derive(Debug, Clone, Copy, PartialEq, Eq, Structural)]
#[allow(clippy::upper_case_acronyms)]
pub enum CaptureBackend {
    /// Windows Graphics Capture: composited, occlusion-aware.
    WGC,
    /// Desktop Duplication: fast, needs the window on a monitor.
    DDA,
    /// DirectX shared surface of applications that expose one.
    DXShared,
    /// GDI PrintWindow: universal fallback, works for minimised windows.
    PrintWindow,
}

/// The name a backend is reported under, as its `Debug` form writes it.
pub open spec fn backend_name_of(b: CaptureBackend) -> Seq<char> {
    match b {
        CaptureBackend::WGC => "WGC"@,
        CaptureBackend::DDA => "DDA"@,
        CaptureBackend::DXShared => "DXShared"@,
        CaptureBackend::PrintWindow => "PrintWindow"@,
    }
}

/// The backend a reported name stands for; an unknown name falls back to
/// the universal `PrintWindow`.
pub open spec fn backend_named(name: Seq<char>) -> CaptureBackend {
    if name == "WGC"@ {
        CaptureBackend::WGC
    } else if name == "DDA"@ {
        CaptureBackend::DDA
    } else if name == "DXShared"@ {
        CaptureBackend::DXShared
    } else {
        CaptureBackend::PrintWindow
    }
}

impl CaptureBackend {
    /// The name this backend is reported under.
    pub fn name(&self) -> (s: &'static str)
        ensures
            s@ == backend_name_of(*self),
    {
        match self {
            CaptureBackend::WGC => "WGC",
            CaptureBackend::DDA => "DDA",
            CaptureBackend::DXShared => "DXShared",
            CaptureBackend::PrintWindow => "PrintWindow",
        }
    }

    /// The backend a reported name stands for (`PrintWindow` when the name
    /// is unknown).
    pub fn from_name(name: &str) -> (b: CaptureBackend)
        ensures
            b == backend_named(name@),
    {
        if same_text(name, "WGC") {
            CaptureBackend::WGC
        } else if same_text(name, "DDA") {
            CaptureBackend::DDA
        } else if same_text(name, "DXShared") {
            CaptureBackend::DXShared
        } else {
            CaptureBackend::PrintWindow
        }
    }
}

/// Reading back the name a backend is reported under gives that backend.
pub proof fn lemma_backend_name_round_trip(b: CaptureBackend)
    ensures
        backend_named(backend_name_of(b)) == b,
{
    reveal_strlit("WGC");
    reveal_strlit("DDA");
    reveal_strlit("DXShared");
    reveal_strlit("PrintWindow");
    let w = "WGC"@;
    let d = "DDA"@;
    let x = "DXShared"@;
    let p = "PrintWindow"@;
    assert(d[0] != w[0]);
    assert(x[0] != w[0] && x.len() != d.len());
    assert(p[0] != w[0] && p[0] != d[0] && p[0] != x[0]);
}

/// Notifications about the capture state.
#[derive(Debug, Clone)]
pub enum CaptureEvent {
    BackendSwitched { from: CaptureBackend, to: CaptureBackend, reason: String },
    WindowMinimized { hwnd: isize },
    WindowRestored { hwnd: isize },
    WindowMoved { hwnd: isize, monitor: u32 },
    RenderSuspended { hwnd: isize, app_kind: AppKind },
    RenderResumed { hwnd: isize },
    CaptureLost { hwnd: isize, reason: String },
    CaptureRecovered { hwnd: isize, backend: CaptureBackend },
}

/// A monitor that can be shared as a whole.
#[derive(Debug, Clone)]
pub struct MonitorInfo {
    pub handle: isize,
    pub name: String,
    pub width: u32,
    pub height: u32,
    pub is_primary: bool,
}

/// Persistent capture mode configuration.
#[derive(Debug, Clone, Copy)]
pub struct PersistentCaptureConfig {
    /// Enable background rendering preservation tricks.
    pub persistent_mode: bool,
    /// Send the last known frame instead of black while the app is suspended.
    pub preserve_last_frame: bool,
    /// Try to keep the app from suspending its rendering (fake paint message).
    pub prevent_render_suspend: bool,
    /// How long stale frames are served before a render-suspended event.
    pub stale_frame_notify_ms: u64,
}

impl Default for PersistentCaptureConfig {
    /// Persistent mode on, last frame preserved, no render poking, 1 s
    /// before a suspension is reported.
    fn default() -> (c: Self)
        ensures
            c.persistent_mode,
            c.preserve_last_frame,
            !c.prevent_render_suspend,
            c.stale_frame_notify_ms == 1000,
    {
        PersistentCaptureConfig {
            persistent_mode: true,
            preserve_last_frame: true,
            prevent_render_suspend: false,
            stale_frame_notify_ms: 1000,
        }
    }
}

} // verus!
