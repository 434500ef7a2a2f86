//! Decisions of the host's streaming session: the window record it starts
//! the capture with, how long each frame may take at the target rate, when
//! the stream is announced and the encoders are asked for a keyframe, and
//! which cursor shapes and clipboard texts are sent to the players.

use vstd::prelude::*;

use crate::capture::{AppKind, WindowInfo};
use crate::text::{isize_string, list_string, list_text, same_text, signed_decimal};
use crate::CaptureTarget;
use vstd::string::StringSliceAdditionalSpecFns;

verus! {

/// The time one frame may take at `fps` frames per second, in nanoseconds
/// (whole microseconds, as the loop keeps it).
pub open spec fn frame_budget_of(fps: u32) -> int {
    (1_000_000int / (fps as int)) * 1000
}

/// The frame budget at a target frame rate.
pub fn frame_budget_nanos(fps: u32) -> (b: u64)
    requires
        fps > 0,
    ensures
        b == frame_budget_of(fps),
{
    let micros: u64 = 1_000_000u64 / fps as u64;
    micros * 1000
}

/// How long the loop sleeps before polling the next frame, `elapsed` after
/// the previous one: the rest of the budget, or nothing when it is spent.
pub fn pacing_delay(budget: u64, elapsed: u128) -> (d: u64)
    ensures
        d == if elapsed < budget {
            budget - elapsed
        } else {
            0
        },
{
    if elapsed < budget as u128 {
        (budget as u128 - elapsed) as u64
    } else {
        0
    }
}

/// What to do with a captured frame before encoding it.
pub struct FrameActions {
    /// Report the stream as started, with this frame's dimensions.
    pub announce: bool,
    /// Ask the encoders for a keyframe.
    pub request_keyframe: bool,
}

/// Whether a frame in this state announces the stream.
pub open spec fn frame_announces(s: StreamState) -> bool {
    !s.announced
}

/// Whether a frame in this state asks for a keyframe.
pub open spec fn frame_requests_keyframe(s: StreamState) -> bool {
    s.force_keyframe || !s.announced
}

/// The state after any frame.
pub open spec fn after_frame() -> StreamState {
    StreamState { announced: true, force_keyframe: false }
}

/// The loop's memory between frames.
pub struct StreamState {
    /// Whether the stream start has been reported.
    pub announced: bool,
    /// Whether the next frame must be a keyframe.
    pub force_keyframe: bool,
}

impl StreamState {
    /// A new stream: not announced, first frame a keyframe.
    pub fn new() -> (s: Self)
        ensures
            !s.announced,
            s.force_keyframe,
    {
        StreamState { announced: false, force_keyframe: true }
    }

    /// A frame arrived: the first one announces the stream and, like any
    /// frame after a keyframe was called for, asks for a keyframe.
    pub fn on_frame(&mut self) -> (a: FrameActions)
        ensures
            a.announce == frame_announces(*old(self)),
            a.request_keyframe == frame_requests_keyframe(*old(self)),
            *final(self) == after_frame(),
    {
        let announce = !self.announced;
        if announce {
            self.announced = true;
            self.force_keyframe = true;
        }
        let request = self.force_keyframe;
        self.force_keyframe = false;
        FrameActions { announce, request_keyframe: request }
    }

    /// The GPU path failed and capture restarted on the CPU: the next frame
    /// must be a keyframe.
    pub fn on_capture_restart(&mut self)
        ensures
            final(self).announced == old(self).announced,
            final(self).force_keyframe,
    {
        self.force_keyframe = true;
    }
}

/// The stream is announced exactly once and starts with a keyframe: a frame
/// that announces the stream also asks for a keyframe; once announced, no
/// frame announces it again; after any frame the next asks for nothing, and
/// a capture restart makes the next frame ask for a keyframe again.
pub proof fn lemma_announced_once_keyframe_first(s: StreamState)
    ensures
        frame_announces(s) ==> frame_requests_keyframe(s),
        s.announced ==> !frame_announces(s),
        !frame_announces(after_frame()),
        !frame_requests_keyframe(after_frame()),
        frame_requests_keyframe(StreamState { force_keyframe: true, ..s }),
{
}

/// The mouse cursor the host shows, by the system cursor it is.
#[derive(Debug, Clone, Copy, PartialEq, Eq, Structural)]
pub enum CursorShape {
    Arrow,
    Hand,
    IBeam,
    No,
    SizeAll,
    SizeNesw,
    SizeNs,
    SizeNwse,
    SizeWe,
    Wait,
    Cross,
    AppStarting,
    Help,
    /// Any other cursor.
    Other,
}

/// The CSS cursor name the player shows for the host's cursor (`None` when
/// the cursor is hidden).
pub open spec fn cursor_css_of(shape: Option<CursorShape>) -> Seq<char> {
    match shape {
        None => "none"@,
        Some(CursorShape::Arrow) => "default"@,
        Some(CursorShape::Hand) => "pointer"@,
        Some(CursorShape::IBeam) => "text"@,
        Some(CursorShape::No) => "not-allowed"@,
        Some(CursorShape::SizeAll) => "move"@,
        Some(CursorShape::SizeNesw) => "nesw-resize"@,
        Some(CursorShape::SizeNs) => "ns-resize"@,
        Some(CursorShape::SizeNwse) => "nwse-resize"@,
        Some(CursorShape::SizeWe) => "ew-resize"@,
        Some(CursorShape::Wait) => "wait"@,
        Some(CursorShape::Cross) => "crosshair"@,
        Some(CursorShape::AppStarting) => "progress"@,
        Some(CursorShape::Help) => "help"@,
        Some(CursorShape::Other) => "default"@,
    }
}

/// The CSS cursor name for the host's cursor.
pub fn cursor_css_name(shape: Option<CursorShape>) -> (r: &'static str)
    ensures
        r@ == cursor_css_of(shape),
{
    match shape {
        None => "none",
        Some(CursorShape::Arrow) => "default",
        Some(CursorShape::Hand) => "pointer",
        Some(CursorShape::IBeam) => "text",
        Some(CursorShape::No) => "not-allowed",
        Some(CursorShape::SizeAll) => "move",
        Some(CursorShape::SizeNesw) => "nesw-resize",
        Some(CursorShape::SizeNs) => "ns-resize",
        Some(CursorShape::SizeNwse) => "nwse-resize",
        Some(CursorShape::SizeWe) => "ew-resize",
        Some(CursorShape::Wait) => "wait",
        Some(CursorShape::Cross) => "crosshair",
        Some(CursorShape::AppStarting) => "progress",
        Some(CursorShape::Help) => "help",
        Some(CursorShape::Other) => "default",
    }
}

/// Whether a polled cursor shape is sent: it differs from the one last sent.
pub open spec fn cursor_sends(last: Seq<char>, shape: Seq<char>) -> bool {
    shape != last
}

/// The cursor shape last sent to the players.
pub struct CursorWatch {
    pub last: String,
}

impl CursorWatch {
    /// Nothing sent yet.
    pub fn new() -> (w: Self)
        ensures
            w.last@ == Seq::<char>::empty(),
    {
        CursorWatch { last: String::new() }
    }

    /// A poll saw `shape`: whether to send it, which is when it differs from
    /// the shape last sent; it becomes the last one.
    pub fn observe(&mut self, shape: &str) -> (send: bool)
        ensures
            send == cursor_sends(old(self).last@, shape@),
            final(self).last@ == shape@,
    {
        if same_text(shape, self.last.as_str()) {
            false
        } else {
            self.last = String::from_str(shape);
            true
        }
    }
}

/// A cursor shape is sent once: once sent it is the last shape, and the
/// same shape polled again is not sent.
pub proof fn lemma_cursor_sent_once(shape: Seq<char>)
    ensures
        !cursor_sends(shape, shape),
{
}

/// Largest clipboard text, in bytes, that is sent to the players.
pub const CLIPBOARD_SYNC_LIMIT: usize = 524_288;

/// Whether clipboard sharing is on, from its registry setting (on unless
/// set to something other than 1).
pub open spec fn clipboard_enabled(setting: Option<u32>) -> bool {
    match setting {
        Some(v) => v == 1,
        None => true,
    }
}

/// Whether a clipboard text is sent: sharing is on, the text is not empty,
/// at most the limit in bytes, and not the text last written.
pub open spec fn clipboard_sends(setting: Option<u32>, text: &str, last: Seq<char>) -> bool {
    &&& clipboard_enabled(setting)
    &&& text@.len() > 0
    &&& text.spec_bytes().len() <= CLIPBOARD_SYNC_LIMIT
    &&& text@ != last
}

/// A clipboard poll read `text` (`None` when the clipboard holds none):
/// the text to send to the players, if any; a sent text becomes the last
/// written one.
pub fn clipboard_update(setting: Option<u32>, text: Option<&str>, last_written: &mut String) -> (r:
    Option<String>)
    ensures
        match text {
            Some(t) => if clipboard_sends(setting, t, old(last_written)@) {
                r matches Some(s) && s@ == t@ && final(last_written)@ == t@
            } else {
                r is None && final(last_written)@ == old(last_written)@
            },
            None => r is None && final(last_written)@ == old(last_written)@,
        },
{
    let enabled = match setting {
        Some(v) => v == 1,
        None => true,
    };
    match text {
        Some(t) => {
            if enabled && !t.is_empty() && t.as_bytes().len() <= CLIPBOARD_SYNC_LIMIT && !same_text(
                t,
                last_written.as_str(),
            ) {
                *last_written = String::from_str(t);
                Some(String::from_str(t))
            } else {
                None
            }
        },
        None => None,
    }
}

/// A clipboard text is not sent back: once sent (or written from a player)
/// it is the last written text, and polling the same text sends nothing.
pub proof fn lemma_clipboard_not_echoed(setting: Option<u32>, text: &str)
    ensures
        !clipboard_sends(setting, text, text@),
{
}

/// The title a session gives a target it has no window record for:
/// `hwnd:` and the handle for a window, `Display` and the handle for a
/// display, the kind and the handles for several sources.
pub open spec fn target_title_of(t: CaptureTarget) -> Seq<char> {
    match t {
        CaptureTarget::Window(h) => "hwnd:"@ + signed_decimal(h as int),
        CaptureTarget::Display(h) => "Display "@ + signed_decimal(h as int),
        CaptureTarget::MultiWindow(hs) => "MultiWindow "@ + list_text(hs@),
        CaptureTarget::DualWindow(a, b) => "DualWindow "@ + signed_decimal(a as int) + ", "@
            + signed_decimal(b as int),
        CaptureTarget::MultiDisplay(hs) => "MultiDisplay "@ + list_text(hs@),
    }
}

/// The process name a session gives a target it has no window record for.
pub open spec fn target_process_of(t: CaptureTarget) -> Seq<char> {
    match t {
        CaptureTarget::Window(_) => Seq::empty(),
        CaptureTarget::Display(_) => "Display"@,
        CaptureTarget::MultiWindow(_) => "MultiWindow"@,
        CaptureTarget::DualWindow(_, _) => "DualWindow"@,
        CaptureTarget::MultiDisplay(_) => "MultiDisplay"@,
    }
}

/// The window record a host session starts its capture with: for a single
/// window, its record from the window list when it is there; otherwise a
/// placeholder 1920 by 1080, not minimised, of unknown kind, with the handle
/// of a single window and 0 for other targets.
pub fn session_window_info(target: &CaptureTarget, listed: Option<WindowInfo>) -> (w: WindowInfo)
    ensures
        match (*target, listed) {
            (CaptureTarget::Window(_), Some(found)) => w == found,
            _ => {
                &&& w.hwnd == (match *target {
                    CaptureTarget::Window(h) => h,
                    _ => 0,
                })
                &&& w.title@ == target_title_of(*target)
                &&& w.process_name@ == target_process_of(*target)
                &&& w.process_id == 0
                &&& w.width == 1920
                &&& w.height == 1080
                &&& !w.is_minimized
                &&& w.app_kind == AppKind::Unknown
                &&& !w.suspends_render_when_minimized
            },
        },
{
    let (hwnd, title, process_name) = match target {
        CaptureTarget::Window(h) => {
            if let Some(found) = listed {
                return found;
            }
            let mut t = String::from_str("hwnd:");
            let d = isize_string(*h);
            t.append(d.as_str());
            (*h, t, String::new())
        },
        CaptureTarget::Display(h) => {
            let mut t = String::from_str("Display ");
            let d = isize_string(*h);
            t.append(d.as_str());
            (0, t, String::from_str("Display"))
        },
        CaptureTarget::MultiWindow(hs) => {
            let mut t = String::from_str("MultiWindow ");
            let d = list_string(hs);
            t.append(d.as_str());
            (0, t, String::from_str("MultiWindow"))
        },
        CaptureTarget::DualWindow(a, b) => {
            let mut t = String::from_str("DualWindow ");
            let da = isize_string(*a);
            t.append(da.as_str());
            t.append(", ");
            let db = isize_string(*b);
            t.append(db.as_str());
            (0, t, String::from_str("DualWindow"))
        },
        CaptureTarget::MultiDisplay(hs) => {
            let mut t = String::from_str("MultiDisplay ");
            let d = list_string(hs);
            t.append(d.as_str());
            (0, t, String::from_str("MultiDisplay"))
        },
    };
    WindowInfo {
        hwnd,
        title,
        process_name,
        process_id: 0,
        width: 1920,
        height: 1080,
        is_minimized: false,
        app_kind: AppKind::Unknown,
        suspends_render_when_minimized: false,
    }
}

} // verus!
