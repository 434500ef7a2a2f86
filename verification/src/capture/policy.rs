//! Which capture backend to try, and in what order: at start, when a window
//! is minimised, and when the running backend fails.

use vstd::prelude::*;

use super::compatibility::{preferred_backend, preferred_backend_of};
use super::{AppKind, CaptureBackend};

verus! {

/// The fallback chain, best first: WGC, DDA, DirectX shared surface,
/// PrintWindow.
pub open spec fn fallback_chain() -> Seq<CaptureBackend> {
    seq![
        CaptureBackend::WGC,
        CaptureBackend::DDA,
        CaptureBackend::DXShared,
        CaptureBackend::PrintWindow,
    ]
}

/// Position of a backend in the fallback chain.
pub open spec fn chain_position(b: CaptureBackend) -> int {
    match b {
        CaptureBackend::WGC => 0,
        CaptureBackend::DDA => 1,
        CaptureBackend::DXShared => 2,
        CaptureBackend::PrintWindow => 3,
    }
}

/// The backends to try, in order, after `failed` has failed: those after it
/// in the fallback chain.
pub fn fallbacks_after(failed: CaptureBackend) -> (r: Vec<CaptureBackend>)
    ensures
        r@ == fallback_chain().subrange(chain_position(failed) + 1, 4),
{
    let mut r: Vec<CaptureBackend> = Vec::new();
    match failed {
        CaptureBackend::WGC => {
            r.push(CaptureBackend::DDA);
            r.push(CaptureBackend::DXShared);
            r.push(CaptureBackend::PrintWindow);
        },
        CaptureBackend::DDA => {
            r.push(CaptureBackend::DXShared);
            r.push(CaptureBackend::PrintWindow);
        },
        CaptureBackend::DXShared => {
            r.push(CaptureBackend::PrintWindow);
        },
        CaptureBackend::PrintWindow => {},
    }
    assert(r@ =~= fallback_chain().subrange(chain_position(failed) + 1, 4));
    r
}

/// The backends tried, in order, when a capture starts: the preferred one
/// for the window, then WGC, DDA and PrintWindow.
pub fn startup_backends(kind: &AppKind, is_minimized: bool) -> (r: Vec<CaptureBackend>)
    ensures
        r@ == seq![
            preferred_backend_of(*kind, is_minimized),
            CaptureBackend::WGC,
            CaptureBackend::DDA,
            CaptureBackend::PrintWindow,
        ],
{
    let mut r: Vec<CaptureBackend> = Vec::new();
    r.push(preferred_backend(kind, is_minimized));
    r.push(CaptureBackend::WGC);
    r.push(CaptureBackend::DDA);
    r.push(CaptureBackend::PrintWindow);
    assert(r@ =~= seq![
        preferred_backend_of(*kind, is_minimized),
        CaptureBackend::WGC,
        CaptureBackend::DDA,
        CaptureBackend::PrintWindow,
    ]);
    r
}

/// The backend a window is moved to when it is minimised: none for UWP and
/// Chromium apps (WGC keeps working for them), PrintWindow for all others.
pub open spec fn minimized_backend_of(kind: AppKind) -> Option<CaptureBackend> {
    match kind {
        AppKind::UWP | AppKind::Chromium => None,
        _ => Some(CaptureBackend::PrintWindow),
    }
}

/// The backend to switch to when a window of this kind is minimised, or
/// `None` to keep the current one.
pub fn minimized_backend(kind: &AppKind) -> (r: Option<CaptureBackend>)
    ensures
        r == minimized_backend_of(*kind),
{
    match kind {
        AppKind::UWP | AppKind::Chromium => None,
        _ => Some(CaptureBackend::PrintWindow),
    }
}

/// The backend to switch to when a window is restored: the preferred one
/// for a visible window of its kind.
pub fn restored_backend(kind: &AppKind) -> (r: CaptureBackend)
    ensures
        r == preferred_backend_of(*kind, false),
{
    preferred_backend(kind, false)
}

/// Every fallback lies strictly later in the chain than the backend that
/// failed, so a run of failures tries each backend at most once and ends.
pub proof fn lemma_fallbacks_come_later(failed: CaptureBackend, i: int)
    requires
        0 <= i < fallback_chain().subrange(chain_position(failed) + 1, 4).len(),
    ensures
        chain_position(fallback_chain().subrange(chain_position(failed) + 1, 4)[i])
            > chain_position(failed),
{
}

/// The chain lists each backend once, at its position.
pub proof fn lemma_chain_positions(b: CaptureBackend)
    ensures
        fallback_chain()[chain_position(b)] == b,
        0 <= chain_position(b) < 4,
{
}

/// The capture engine that runs a backend: Windows Graphics Capture for
/// WGC, the desktop-duplication engine (which also serves the DirectX
/// shared-surface and PrintWindow paths) for the others.
#[derive(Debug, Clone, Copy, PartialEq, Eq, Structural)]
pub enum CaptureEngine {
    GraphicsCapture,
    DesktopDuplication,
}

/// The engine that runs a backend.
pub fn engine_for(b: CaptureBackend) -> (e: CaptureEngine)
    ensures
        e == (if b == CaptureBackend::WGC {
            CaptureEngine::GraphicsCapture
        } else {
            CaptureEngine::DesktopDuplication
        }),
{
    match b {
        CaptureBackend::WGC => CaptureEngine::GraphicsCapture,
        _ => CaptureEngine::DesktopDuplication,
    }
}

/// A window went to or came back from the taskbar.
#[derive(Debug, Clone, Copy, PartialEq, Eq, Structural)]
pub enum MinimizeChange {
    Minimized,
    Restored,
}

/// What a poll learns about a shared window: whether it was minimised or
/// restored since the last poll, and its new size when the size measured
/// (`None` when it was not measured) differs from the one recorded.
pub fn window_changes(
    was_minimized: bool,
    recorded: (u32, u32),
    minimized: bool,
    measured: Option<(u32, u32)>,
) -> (r: (Option<MinimizeChange>, Option<(u32, u32)>))
    ensures
        r.0 == (if minimized == was_minimized {
            None
        } else if minimized {
            Some(MinimizeChange::Minimized)
        } else {
            Some(MinimizeChange::Restored)
        }),
        r.1 == (match measured {
            Some(m) => if m != recorded {
                Some(m)
            } else {
                None
            },
            None => None,
        }),
{
    let change = if minimized == was_minimized {
        None
    } else if minimized {
        Some(MinimizeChange::Minimized)
    } else {
        Some(MinimizeChange::Restored)
    };
    let resize = match measured {
        Some(m) => {
            if m.0 != recorded.0 || m.1 != recorded.1 {
                Some(m)
            } else {
                None
            }
        },
        None => None,
    };
    (change, resize)
}

/// Whether switching to `target` starts a new capture: only when it is not
/// the backend already running.
pub fn needs_switch(current: CaptureBackend, target: CaptureBackend) -> (r: bool)
    ensures
        r == (current != target),
{
    current != target
}

} // verus!
