//! Health bookkeeping of one capture target, as the capture manager keeps it
//! on every poll: failed polls that trigger a backend recovery (throttled to
//! one attempt every 2 s), frames that have gone stale, render suspension and
//! lost windows, each reported once.
//!
//! The decisions are plain functions of the elapsed times (`recovery_due`,
//! `suspension_due`, `is_stale`); the methods of `CaptureHealth` read the
//! clock and apply them.

use vstd::prelude::*;

use crate::clock;

verus! {

/// Consecutive failed polls after which the next backend is tried.
pub const FAILURES_BEFORE_RECOVERY: u32 = 3;

/// Least time between two recovery attempts: 2 s, in nanoseconds.
pub const RECOVERY_INTERVAL_NANOS: u128 = 2_000_000_000;

/// Age beyond which the last frame is served as stale: 500 ms, in nanoseconds.
pub const STALL_TIMEOUT_NANOS: u128 = 500_000_000;

/// What one poll of the capture backend gave.
#[derive(Debug, Clone, Copy, PartialEq, Eq, Structural)]
pub enum PollOutcome {
    /// A new frame.
    Frame,
    /// No new frame (nothing changed, or the window is minimised).
    Nothing,
    /// The backend reported an error.
    Failed,
}

/// Whether a recovery is due: at least three consecutive failures and no
/// earlier attempt less than 2 s ago.
pub open spec fn recovery_due_spec(failures: u32, since_last_attempt: Option<u128>) -> bool {
    failures >= FAILURES_BEFORE_RECOVERY && match since_last_attempt {
        Some(n) => n >= RECOVERY_INTERVAL_NANOS,
        None => true,
    }
}

/// Whether a backend recovery is due after `failures` consecutive failed
/// polls, given the nanoseconds since the last attempt (`None`: never tried).
pub fn recovery_due(failures: u32, since_last_attempt: Option<u128>) -> (r: bool)
    ensures
        r == recovery_due_spec(failures, since_last_attempt),
{
    if failures < FAILURES_BEFORE_RECOVERY {
        return false;
    }
    match since_last_attempt {
        Some(n) => n >= RECOVERY_INTERVAL_NANOS,
        None => true,
    }
}

/// Whether a render suspension is to be reported now: the app is one that
/// suspends rendering, no frame came for longer than `notify_ms`, and this
/// stall has not been reported yet.
pub open spec fn suspension_due_spec(
    stall_nanos: u128,
    notify_ms: u64,
    already_notified: bool,
    suspends_render: bool,
) -> bool {
    stall_nanos > notify_ms * 1_000_000 && !already_notified && suspends_render
}

/// Decides whether to report a render suspension after `stall_nanos` without
/// a frame.
pub fn suspension_due(
    stall_nanos: u128,
    notify_ms: u64,
    already_notified: bool,
    suspends_render: bool,
) -> (r: bool)
    ensures
        r == suspension_due_spec(stall_nanos, notify_ms, already_notified, suspends_render),
{
    let limit: u128 = notify_ms as u128 * 1_000_000;
    stall_nanos > limit && !already_notified && suspends_render
}

/// Whether a frame `age_nanos` old is served as stale (older than 500 ms).
pub fn is_stale(age_nanos: u128) -> (r: bool)
    ensures
        r == (age_nanos > STALL_TIMEOUT_NANOS),
{
    age_nanos > STALL_TIMEOUT_NANOS
}

/// The clock-free part of a `CaptureHealth`.
pub struct HealthView {
    pub failures: u32,
    pub stale_notified: bool,
    pub window_lost_notified: bool,
    /// Whether a recovery has ever been attempted.
    pub recovery_attempted: bool,
}

/// Bookkeeping of one capture target across polls.
pub struct CaptureHealth {
    /// Failed polls since the last frame or recovery attempt.
    pub consecutive_failures: u32,
    /// Whether the current stall has been reported as a render suspension.
    pub stale_notified: bool,
    /// Whether the loss of the window has been reported.
    pub window_lost_notified: bool,
    /// When the last frame arrived (or the capture started).
    pub last_frame_time: std::time::Instant,
    /// When the last recovery was attempted.
    pub last_recovery_attempt: Option<std::time::Instant>,
}

impl View for CaptureHealth {
    type V = HealthView;

    open spec fn view(&self) -> HealthView {
        HealthView {
            failures: self.consecutive_failures,
            stale_notified: self.stale_notified,
            window_lost_notified: self.window_lost_notified,
            recovery_attempted: self.last_recovery_attempt is Some,
        }
    }
}

/// The state after a poll with the given outcome (clock readings aside).
pub open spec fn after_poll(h: HealthView, outcome: PollOutcome) -> HealthView {
    match outcome {
        PollOutcome::Frame => HealthView { failures: 0, stale_notified: false, ..h },
        PollOutcome::Nothing => h,
        PollOutcome::Failed => HealthView { failures: (h.failures + 1) as u32, ..h },
    }
}

/// The state once a recovery attempt has started.
pub open spec fn after_recovery(h: HealthView) -> HealthView {
    HealthView { failures: 0, recovery_attempted: true, ..h }
}

impl CaptureHealth {
    /// A fresh target: no failures, nothing reported, the frame clock started
    /// now, no recovery attempted.
    pub fn new() -> (h: Self)
        ensures
            h@ == (HealthView {
                failures: 0,
                stale_notified: false,
                window_lost_notified: false,
                recovery_attempted: false,
            }),
    {
        CaptureHealth {
            consecutive_failures: 0,
            stale_notified: false,
            window_lost_notified: false,
            last_frame_time: clock::now(),
            last_recovery_attempt: None,
        }
    }

    /// The window has gone: returns whether its loss is to be reported,
    /// which is only the first time.
    pub fn on_window_lost(&mut self) -> (report: bool)
        ensures
            report == !old(self)@.window_lost_notified,
            final(self)@ == (HealthView { window_lost_notified: true, ..old(self)@ }),
            final(self).last_frame_time == old(self).last_frame_time,
            final(self).last_recovery_attempt == old(self).last_recovery_attempt,
    {
        let report = !self.window_lost_notified;
        self.window_lost_notified = true;
        report
    }

    /// Records one poll: a frame clears the failures and the stall report
    /// and restarts the frame clock; a failure is counted.
    pub fn on_poll(&mut self, outcome: PollOutcome)
        requires
            outcome == PollOutcome::Failed ==> old(self).consecutive_failures < u32::MAX,
        ensures
            final(self)@ == after_poll(old(self)@, outcome),
            outcome != PollOutcome::Frame ==> final(self).last_frame_time
                == old(self).last_frame_time,
            final(self).last_recovery_attempt == old(self).last_recovery_attempt,
    {
        match outcome {
            PollOutcome::Frame => {
                self.consecutive_failures = 0;
                self.stale_notified = false;
                self.last_frame_time = clock::now();
            },
            PollOutcome::Nothing => {},
            PollOutcome::Failed => {
                self.consecutive_failures = self.consecutive_failures + 1;
            },
        }
    }

    /// Starts a recovery if one is due by the clock (`recovery_due` on the
    /// time since the last attempt) and returns whether it did; starting one
    /// clears the failures and records the attempt time.
    pub fn take_recovery(&mut self) -> (started: bool)
        ensures
            started ==> old(self)@.failures >= FAILURES_BEFORE_RECOVERY,
            old(self)@.failures >= FAILURES_BEFORE_RECOVERY && !old(self)@.recovery_attempted
                ==> started,
            started ==> final(self)@ == after_recovery(old(self)@),
            !started ==> final(self)@ == old(self)@,
            final(self).last_frame_time == old(self).last_frame_time,
    {
        let since = match &self.last_recovery_attempt {
            Some(t) => Some(clock::nanos_since(t)),
            None => None,
        };
        let due = recovery_due(self.consecutive_failures, since);
        if due {
            self.consecutive_failures = 0;
            self.last_recovery_attempt = Some(clock::now());
        }
        due
    }

    /// Marks the current stall as reported if a render suspension is due by
    /// the clock (`suspension_due` on the time since the last frame) and
    /// returns whether it is.
    pub fn take_suspension_report(&mut self, notify_ms: u64, suspends_render: bool) -> (report: bool)
        ensures
            report ==> !old(self)@.stale_notified && suspends_render,
            !suspends_render || old(self)@.stale_notified ==> !report,
            final(self)@ == (HealthView {
                stale_notified: old(self)@.stale_notified || report,
                ..old(self)@
            }),
            final(self).last_frame_time == old(self).last_frame_time,
            final(self).last_recovery_attempt == old(self).last_recovery_attempt,
    {
        let stall = clock::nanos_since(&self.last_frame_time);
        let due = suspension_due(stall, notify_ms, self.stale_notified, suspends_render);
        if due {
            self.stale_notified = true;
        }
        due
    }

    /// Whether the last frame is older than 500 ms by the clock.
    pub fn frame_is_stale(&self) -> (stale: bool) {
        is_stale(clock::nanos_since(&self.last_frame_time))
    }
}

/// How one target is to be polled.
#[derive(Debug, Clone, Copy, PartialEq, Eq, Structural)]
pub enum PollPlan {
    /// The window has gone: it is not polled, and its loss is reported when
    /// `report`.
    Lost { report: bool },
    /// The window is minimised: it is not asked for a frame, and the poll
    /// counts as one that gave nothing.
    Minimized,
    /// The backend is asked for a frame.
    Capture,
}

/// What follows a poll of one target.
pub struct PollDecision {
    /// Switch the target to the next backend.
    pub recover: bool,
    /// Report a render suspension (and nudge the window where so set).
    pub report_suspended: bool,
}

/// Which frame a poll of all targets hands on.
#[derive(Debug, Clone, Copy, PartialEq, Eq, Structural)]
pub enum FrameChoice {
    /// No target has a frame yet.
    NoFrame,
    /// The one target's frame.
    Single,
    /// A composite of the targets' frames.
    Composite,
}

/// The frame a poll of `targets` targets that gave `frames` frames hands
/// on: none without frames, the frame itself for a single target, else a
/// composite.
pub fn frame_choice(targets: usize, frames: usize) -> (c: FrameChoice)
    ensures
        c == (if frames == 0 {
            FrameChoice::NoFrame
        } else if targets <= 1 {
            FrameChoice::Single
        } else {
            FrameChoice::Composite
        }),
{
    if frames == 0 {
        FrameChoice::NoFrame
    } else if targets <= 1 {
        FrameChoice::Single
    } else {
        FrameChoice::Composite
    }
}

impl CaptureHealth {
    /// Decides how a target is polled: a window that no longer exists is
    /// lost (its loss reported the first time), a minimised one is not
    /// asked for a frame, anything else is.
    pub fn plan_poll(&mut self, is_window: bool, window_exists: bool, minimized: bool) -> (p: PollPlan)
        ensures
            is_window && !window_exists ==> {
                &&& p == PollPlan::Lost { report: !old(self)@.window_lost_notified }
                &&& final(self)@ == (HealthView { window_lost_notified: true, ..old(self)@ })
            },
            !(is_window && !window_exists) ==> {
                &&& p == (if minimized {
                    PollPlan::Minimized
                } else {
                    PollPlan::Capture
                })
                &&& final(self)@ == old(self)@
            },
            final(self).last_frame_time == old(self).last_frame_time,
            final(self).last_recovery_attempt == old(self).last_recovery_attempt,
    {
        if is_window && !window_exists {
            let report = self.on_window_lost();
            PollPlan::Lost { report }
        } else if minimized {
            PollPlan::Minimized
        } else {
            PollPlan::Capture
        }
    }

    /// Takes the outcome of a poll (`Nothing` for a minimised window), then
    /// starts a recovery where one is due and reports a render suspension
    /// where one is due, each by the clock.
    pub fn finish_poll(&mut self, outcome: PollOutcome, notify_ms: u64, suspends_render: bool) -> (d: PollDecision)
        requires
            outcome == PollOutcome::Failed ==> old(self).consecutive_failures < u32::MAX,
        ensures
            ({
                let h1 = after_poll(old(self)@, outcome);
                let h2 = if d.recover {
                    after_recovery(h1)
                } else {
                    h1
                };
                &&& d.recover ==> h1.failures >= FAILURES_BEFORE_RECOVERY
                &&& h1.failures >= FAILURES_BEFORE_RECOVERY && !h1.recovery_attempted ==> d.recover
                &&& d.report_suspended ==> !h2.stale_notified && suspends_render
                &&& !suspends_render || h2.stale_notified ==> !d.report_suspended
                &&& final(self)@ == (HealthView {
                    stale_notified: h2.stale_notified || d.report_suspended,
                    ..h2
                })
            }),
    {
        self.on_poll(outcome);
        let recover = self.take_recovery();
        let report_suspended = self.take_suspension_report(notify_ms, suspends_render);
        PollDecision { recover, report_suspended }
    }
}

/// Once a recovery has started, no other is due until three more polls have
/// failed, however long the wait.
pub proof fn lemma_recovery_restarts_count(h: HealthView, since: Option<u128>)
    ensures
        !recovery_due_spec(after_recovery(h).failures, since),
        recovery_due_spec(
            after_poll(after_poll(after_poll(after_recovery(h), PollOutcome::Failed), PollOutcome::Failed), PollOutcome::Failed).failures,
            None,
        ),
{
}

/// A stall is reported as a render suspension at most once: after a report
/// none is due until a frame arrives, and a frame re-arms the report.
pub proof fn lemma_suspension_reported_once(stall: u128, notify_ms: u64, suspends: bool, h: HealthView)
    requires
        suspension_due_spec(stall, notify_ms, h.stale_notified, suspends),
    ensures
        forall|later: u128| !suspension_due_spec(later, notify_ms, true, suspends),
        !after_poll(HealthView { stale_notified: true, ..h }, PollOutcome::Frame).stale_notified,
{
}

} // verus!
