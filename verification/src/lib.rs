//! Verified core of the Beacon & Pulse LAN screen-sharing service: colour
//! conversion for the video encoders, pairing-code authentication, pipeline
//! metrics, the capture-backend rules and the command-line host front end.

pub mod addr;
pub mod auth;
pub mod bridge;
pub mod capture;
pub mod cli;
pub mod clock;
pub mod encoder;
pub mod input;
pub mod ipc;
pub mod logging;
pub mod menu;
pub mod player;
pub mod session;
pub mod settings;
pub mod shell;
pub mod stream;
pub mod text;

use vstd::prelude::*;

verus! {

/// What a host shares: one window or a whole display.
#[derive(Debug, Clone, Copy, PartialEq, Eq, Structural)]
pub enum ShareMode {
    Window,
    Display,
}

impl Default for ShareMode {
    /// Window sharing.
    fn default() -> (m: Self)
        ensures
            m == ShareMode::Window,
    {
        ShareMode::Window
    }
}

/// A capture target: windows and monitors by handle.
#[derive(Debug, Clone, PartialEq, Eq)]
pub enum CaptureTarget {
    Window(isize),
    Display(isize),
    MultiWindow(Vec<isize>),
    DualWindow(isize, isize),
    MultiDisplay(Vec<isize>),
}

/// The single windows and displays a target is captured from, in order.
pub open spec fn target_parts(t: CaptureTarget) -> Seq<CaptureTarget> {
    match t {
        CaptureTarget::Window(h) => seq![CaptureTarget::Window(h)],
        CaptureTarget::Display(h) => seq![CaptureTarget::Display(h)],
        CaptureTarget::MultiWindow(hs) => hs@.map_values(|h: isize| CaptureTarget::Window(h)),
        CaptureTarget::DualWindow(a, b) => seq![CaptureTarget::Window(a), CaptureTarget::Window(b)],
        CaptureTarget::MultiDisplay(hs) => hs@.map_values(|h: isize| CaptureTarget::Display(h)),
    }
}

impl CaptureTarget {
    /// The single windows and displays this target is captured from, in
    /// order. A single window or display must open for the capture to
    /// start; of several, those that open are used.
    pub fn parts(&self) -> (r: Vec<CaptureTarget>)
        ensures
            r@ == target_parts(*self),
    {
        let mut r: Vec<CaptureTarget> = Vec::new();
        match self {
            CaptureTarget::Window(h) => {
                r.push(CaptureTarget::Window(*h));
            },
            CaptureTarget::Display(h) => {
                r.push(CaptureTarget::Display(*h));
            },
            CaptureTarget::DualWindow(a, b) => {
                r.push(CaptureTarget::Window(*a));
                r.push(CaptureTarget::Window(*b));
            },
            CaptureTarget::MultiWindow(hs) => {
                let mut i: usize = 0;
                while i < hs.len()
                    invariant
                        i <= hs.len(),
                        r@ == hs@.subrange(0, i as int).map_values(|h: isize| CaptureTarget::Window(h)),
                    decreases hs.len() - i,
                {
                    r.push(CaptureTarget::Window(hs[i]));
                    i = i + 1;
                    assert(r@ =~= hs@.subrange(0, i as int).map_values(
                        |h: isize| CaptureTarget::Window(h),
                    ));
                }
                assert(hs@.subrange(0, i as int) =~= hs@);
            },
            CaptureTarget::MultiDisplay(hs) => {
                let mut i: usize = 0;
                while i < hs.len()
                    invariant
                        i <= hs.len(),
                        r@ == hs@.subrange(0, i as int).map_values(|h: isize| CaptureTarget::Display(h)),
                    decreases hs.len() - i,
                {
                    r.push(CaptureTarget::Display(hs[i]));
                    i = i + 1;
                    assert(r@ =~= hs@.subrange(0, i as int).map_values(
                        |h: isize| CaptureTarget::Display(h),
                    ));
                }
                assert(hs@.subrange(0, i as int) =~= hs@);
            },
        }
        proof {
            if let CaptureTarget::Window(h) = *self {
                assert(r@ =~= seq![CaptureTarget::Window(h)]);
            }
            if let CaptureTarget::Display(h) = *self {
                assert(r@ =~= seq![CaptureTarget::Display(h)]);
            }
            if let CaptureTarget::DualWindow(a, b) = *self {
                assert(r@ =~= seq![CaptureTarget::Window(a), CaptureTarget::Window(b)]);
            }
        }
        r
    }

    /// Whether the capture manager composes several windows into one frame
    /// (which rules out the zero-copy GPU path): more than one window.
    pub fn is_composited(&self) -> (r: bool)
        ensures
            r == match *self {
                CaptureTarget::MultiWindow(hs) => hs@.len() > 1,
                CaptureTarget::DualWindow(_, _) => true,
                _ => false,
            },
    {
        match self {
            CaptureTarget::MultiWindow(hs) => hs.len() > 1,
            CaptureTarget::DualWindow(_, _) => true,
            _ => false,
        }
    }

    /// Whether a host session streams from several sources (which disables
    /// the GPU path): more than one window, or several displays.
    pub fn is_multi_source(&self) -> (r: bool)
        ensures
            r == match *self {
                CaptureTarget::MultiWindow(hs) => hs@.len() > 1,
                CaptureTarget::DualWindow(_, _) => true,
                CaptureTarget::MultiDisplay(_) => true,
                _ => false,
            },
    {
        match self {
            CaptureTarget::MultiWindow(hs) => hs.len() > 1,
            CaptureTarget::DualWindow(_, _) => true,
            CaptureTarget::MultiDisplay(_) => true,
            _ => false,
        }
    }
}

} // verus!
