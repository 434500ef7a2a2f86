//! The decisions of the host's capture-and-encode loop, one event at a
//! time: session commands, capture notices, captured frames and how
//! encoding and queueing them went. The loop itself (capturing, encoding,
//! sleeping, sending) runs the actions and hands back what happened.

use vstd::prelude::*;

use crate::capture::{AppKind, CaptureBackend};
use crate::session::{after_frame, frame_announces, frame_requests_keyframe, StreamState};
use crate::CaptureTarget;

verus! {

/// How long the loop waits when no frame was ready: 5 ms, in nanoseconds.
pub const IDLE_WAIT_NANOS: u64 = 5_000_000;

/// What the capture manager reports.
pub enum CaptureNotice {
    BackendSwitched { from: CaptureBackend, to: CaptureBackend },
    CaptureLost { hwnd: isize, reason: String },
    CaptureRecovered { hwnd: isize, backend: CaptureBackend },
    RenderSuspended { hwnd: isize, app_kind: AppKind },
    RenderResumed { hwnd: isize },
    /// A window was minimised, restored or moved: not reported on.
    WindowChanged,
}

/// How encoding a frame went.
pub enum EncodeOutcome {
    /// A packet came out, after `encode_us` microseconds.
    Packet { keyframe: bool, encode_us: u64 },
    /// The encoder gave nothing for this frame.
    Nothing,
    /// The encoder failed.
    Failed,
    /// The zero-copy GPU encode failed.
    GpuFailed,
}

/// How handing a packet to the streamer went.
pub enum QueueOutcome {
    Sent,
    /// The bounded queue was full.
    Full,
    /// The streamer is gone.
    Closed,
}

/// What happens to the loop.
pub enum StreamEvent {
    Stop,
    RequestKeyframe,
    SetBitrate { bps: u32 },
    SetFps { fps: u32 },
    /// A new capture scale (the caller holds its value).
    SetScale,
    Notice(CaptureNotice),
    /// A frame of one target was captured; `on_gpu` whether it carries a
    /// GPU texture, `has_pixels` whether it carries CPU pixels.
    Frame { width: u32, height: u32, on_gpu: bool, has_pixels: bool },
    /// Frames of several displays were captured, `count` of them, the
    /// first of these dimensions.
    DisplayFrames { count: usize, width: u32, height: u32 },
    NoFrame,
    /// A frame was encoded, on the GPU path when `on_gpu`.
    Encoded { outcome: EncodeOutcome, on_gpu: bool },
    /// A packet was handed to the streamer, `since_stats_nanos` after the
    /// last statistics report.
    Queued { outcome: QueueOutcome, since_stats_nanos: u128 },
    /// The capture could not be started.
    CaptureStartFailed { reason: String },
}

/// What the session reports to the service.
pub enum HostReport {
    /// The stream runs, at the first frame's dimensions.
    StreamStarted { width: u32, height: u32 },
    StreamStopped { reason: String },
    BackendSwitched { from: CaptureBackend, to: CaptureBackend },
    CaptureLost { target: CaptureTarget, reason: String },
    CaptureRecovered { target: CaptureTarget, backend: CaptureBackend },
    RenderSuspended { target: CaptureTarget, app_kind: AppKind },
    RenderResumed { target: CaptureTarget },
}

/// What the loop does.
pub enum StreamAction {
    StopCapture,
    Report(HostReport),
    /// Ask every encoder for a keyframe.
    RequestKeyframe,
    SetBitrate { bps: u32 },
    /// Set the encoders' frame rate (the frame budget follows the state).
    SetFps { fps: u32 },
    ApplyScale,
    /// Wait this long before polling again.
    Wait { nanos: u64 },
    /// Count a captured frame.
    CountCaptured,
    EncodeOnGpu,
    EncodeOnCpu,
    /// Encode each display's frame with its own encoder, asking each for a
    /// keyframe first when `keyframe`, counting each as captured.
    EncodeDisplays { keyframe: bool },
    /// Skip the displays left in this pass.
    EndDisplayPass,
    /// The GPU path failed: disable it and restart the capture on the CPU.
    RestartCaptureOnCpu,
    CountGpuEncoded,
    CountGpuError,
    CountDropped,
    /// Count an encoded packet and record its encode time.
    CountEncoded { keyframe: bool, encode_us: u64 },
    QueuePacket,
    /// Report the statistics of the frames since the last report:
    /// `frames` queued, `encode_us_sum` spent encoding, over `elapsed_nanos`.
    ReportStats { frames: u32, encode_us_sum: u64, elapsed_nanos: u128 },
    /// Leave the loop.
    Exit,
}

/// Time between two statistics reports: 500 ms, in nanoseconds.
pub const STATS_INTERVAL_NANOS: u128 = 500_000_000;

/// The loop's memory.
pub struct StreamLoopState {
    pub stream: StreamState,
    /// Target frame rate.
    pub fps: u32,
    /// Whether the zero-copy GPU encoder is in use.
    pub gpu_encoder: bool,
    /// Whether each display of several is captured and encoded on its own.
    pub multi_display: bool,
    /// Whether the loop goes on.
    pub running: bool,
    /// Frames queued since the last statistics report.
    pub frames_since_stats: u32,
    /// Microseconds spent encoding since the last statistics report.
    pub encode_us_sum: u64,
}

/// Everything but the stream memory and the statistics is unchanged.
pub open spec fn keeps_settings(a: StreamLoopState, b: StreamLoopState) -> bool {
    &&& a.fps == b.fps
    &&& a.gpu_encoder == b.gpu_encoder
    &&& a.running == b.running
    &&& a.multi_display == b.multi_display
}

/// The actions for a captured frame of one target: the stream is announced
/// at the first frame, a keyframe is asked for where one is due, the frame
/// is counted and encoded on the GPU when it carries a texture and the GPU
/// encoder is in use, on the CPU when it carries pixels, and dropped
/// otherwise.
pub open spec fn frame_actions(s: StreamLoopState, width: u32, height: u32, on_gpu: bool, has_pixels: bool) -> Seq<StreamAction> {
    let announce: Seq<StreamAction> = if frame_announces(s.stream) {
        seq![StreamAction::Report(HostReport::StreamStarted { width, height })]
    } else {
        seq![]
    };
    let key: Seq<StreamAction> = if frame_requests_keyframe(s.stream) {
        seq![StreamAction::RequestKeyframe]
    } else {
        seq![]
    };
    let encode = if on_gpu && s.gpu_encoder {
        StreamAction::EncodeOnGpu
    } else if has_pixels {
        StreamAction::EncodeOnCpu
    } else {
        StreamAction::CountDropped
    };
    announce + key + seq![StreamAction::CountCaptured, encode]
}

/// Whether a statistics report is due this long after the last one.
pub open spec fn stats_due(since_stats_nanos: u128) -> bool {
    since_stats_nanos >= STATS_INTERVAL_NANOS
}

/// Whether an event may be handed to the loop: a frame rate is positive,
/// and the statistics counters have room for what the event adds.
pub open spec fn event_ok(s: StreamLoopState, ev: StreamEvent) -> bool {
    match ev {
        StreamEvent::SetFps { fps } => fps > 0,
        StreamEvent::Encoded { outcome: EncodeOutcome::Packet { encode_us, .. }, .. } => s.encode_us_sum
            + encode_us <= u64::MAX,
        StreamEvent::Queued { outcome, .. } => !s.multi_display && !(outcome is Closed)
            ==> s.frames_since_stats < u32::MAX,
        StreamEvent::DisplayFrames { count, .. } => count > 0 ==> s.frames_since_stats < u32::MAX,
        _ => true,
    }
}

/// The loop's memory after encoding a frame: the encode time is added up,
/// and a GPU failure turns the GPU encoder off and forces a keyframe.
pub open spec fn encoded_state_of(s: StreamLoopState, outcome: EncodeOutcome) -> StreamLoopState {
    match outcome {
        EncodeOutcome::Packet { encode_us, .. } => StreamLoopState {
            encode_us_sum: (s.encode_us_sum + encode_us) as u64,
            ..s
        },
        EncodeOutcome::GpuFailed => StreamLoopState {
            gpu_encoder: false,
            stream: StreamState { force_keyframe: true, ..s.stream },
            ..s
        },
        _ => s,
    }
}

/// The loop's memory after handing a packet to the streamer: on the single
/// target path a closed streamer ends the loop, and any other outcome
/// counts the frame, restarting the statistics when a report is due.
pub open spec fn queued_state_of(s: StreamLoopState, outcome: QueueOutcome, since_stats_nanos: u128) -> StreamLoopState {
    if s.multi_display {
        s
    } else {
        match outcome {
            QueueOutcome::Closed => StreamLoopState { running: false, ..s },
            _ => if stats_due(since_stats_nanos) {
                StreamLoopState { frames_since_stats: 0, encode_us_sum: 0, ..s }
            } else {
                StreamLoopState { frames_since_stats: (s.frames_since_stats + 1) as u32, ..s }
            },
        }
    }
}

/// The loop's memory after an event.
pub open spec fn step_state(s: StreamLoopState, ev: StreamEvent) -> StreamLoopState {
    match ev {
        StreamEvent::Stop | StreamEvent::CaptureStartFailed { .. } => StreamLoopState { running: false, ..s },
        StreamEvent::SetFps { fps } => StreamLoopState { fps, ..s },
        StreamEvent::Frame { .. } => StreamLoopState { stream: after_frame(), ..s },
        StreamEvent::DisplayFrames { count, .. } => if count == 0 {
            s
        } else {
            StreamLoopState {
                stream: after_frame(),
                frames_since_stats: (s.frames_since_stats + 1) as u32,
                ..s
            }
        },
        StreamEvent::Encoded { outcome, .. } => encoded_state_of(s, outcome),
        StreamEvent::Queued { outcome, since_stats_nanos } => queued_state_of(s, outcome, since_stats_nanos),
        _ => s,
    }
}

/// The reports of a capture notice.
pub open spec fn notice_actions_of(n: CaptureNotice) -> Seq<StreamAction> {
    match n {
        CaptureNotice::BackendSwitched { from, to } => seq![
            StreamAction::Report(HostReport::BackendSwitched { from, to }),
        ],
        CaptureNotice::CaptureLost { hwnd, reason } => seq![
            StreamAction::Report(HostReport::CaptureLost { target: CaptureTarget::Window(hwnd), reason }),
        ],
        CaptureNotice::CaptureRecovered { hwnd, backend } => seq![
            StreamAction::Report(
                HostReport::CaptureRecovered { target: CaptureTarget::Window(hwnd), backend },
            ),
        ],
        CaptureNotice::RenderSuspended { hwnd, app_kind } => seq![
            StreamAction::Report(
                HostReport::RenderSuspended { target: CaptureTarget::Window(hwnd), app_kind },
            ),
        ],
        CaptureNotice::RenderResumed { hwnd } => seq![
            StreamAction::Report(HostReport::RenderResumed { target: CaptureTarget::Window(hwnd) }),
        ],
        CaptureNotice::WindowChanged => Seq::<StreamAction>::empty(),
    }
}

/// The actions after encoding a frame.
pub open spec fn encoded_actions_of(outcome: EncodeOutcome, on_gpu: bool) -> Seq<StreamAction> {
    match outcome {
        EncodeOutcome::Packet { keyframe, encode_us } => (if on_gpu {
            seq![StreamAction::CountGpuEncoded]
        } else {
            Seq::<StreamAction>::empty()
        }) + seq![StreamAction::CountEncoded { keyframe, encode_us }, StreamAction::QueuePacket],
        EncodeOutcome::Nothing => (if on_gpu {
            seq![StreamAction::CountGpuEncoded]
        } else {
            Seq::<StreamAction>::empty()
        }) + seq![StreamAction::CountDropped],
        EncodeOutcome::Failed => seq![StreamAction::CountDropped],
        EncodeOutcome::GpuFailed => seq![
            StreamAction::CountGpuError,
            StreamAction::RestartCaptureOnCpu,
            StreamAction::CountDropped,
        ],
    }
}

/// The actions after handing a packet to the streamer.
pub open spec fn queued_actions_of(s: StreamLoopState, outcome: QueueOutcome, since_stats_nanos: u128) -> Seq<StreamAction> {
    if s.multi_display {
        match outcome {
            QueueOutcome::Sent => Seq::<StreamAction>::empty(),
            QueueOutcome::Full => seq![StreamAction::CountDropped],
            QueueOutcome::Closed => seq![StreamAction::EndDisplayPass],
        }
    } else {
        match outcome {
            QueueOutcome::Closed => seq![StreamAction::StopCapture, StreamAction::Exit],
            _ => (if outcome is Full {
                seq![StreamAction::CountDropped]
            } else {
                Seq::<StreamAction>::empty()
            }) + if stats_due(since_stats_nanos) {
                seq![
                    StreamAction::ReportStats {
                        frames: (s.frames_since_stats + 1) as u32,
                        encode_us_sum: s.encode_us_sum,
                        elapsed_nanos: since_stats_nanos,
                    },
                ]
            } else {
                Seq::<StreamAction>::empty()
            },
        }
    }
}

/// The actions for an event other than a stop or a failed start.
pub open spec fn step_actions(s: StreamLoopState, ev: StreamEvent) -> Seq<StreamAction> {
    match ev {
        StreamEvent::RequestKeyframe => seq![StreamAction::RequestKeyframe],
        StreamEvent::SetBitrate { bps } => seq![StreamAction::SetBitrate { bps }],
        StreamEvent::SetFps { fps } => seq![StreamAction::SetFps { fps }],
        StreamEvent::SetScale => seq![StreamAction::ApplyScale],
        StreamEvent::Notice(n) => notice_actions_of(n),
        StreamEvent::NoFrame => seq![StreamAction::Wait { nanos: IDLE_WAIT_NANOS }],
        StreamEvent::Frame { width, height, on_gpu, has_pixels } => frame_actions(
            s,
            width,
            height,
            on_gpu,
            has_pixels,
        ),
        StreamEvent::DisplayFrames { count, width, height } => if count == 0 {
            seq![StreamAction::Wait { nanos: IDLE_WAIT_NANOS }]
        } else {
            (if frame_announces(s.stream) {
                seq![StreamAction::Report(HostReport::StreamStarted { width, height })]
            } else {
                Seq::<StreamAction>::empty()
            }) + seq![StreamAction::EncodeDisplays { keyframe: frame_requests_keyframe(s.stream) }]
        },
        StreamEvent::Encoded { outcome, on_gpu } => encoded_actions_of(outcome, on_gpu),
        StreamEvent::Queued { outcome, since_stats_nanos } => queued_actions_of(s, outcome, since_stats_nanos),
        _ => Seq::<StreamAction>::empty(),
    }
}

fn notice_step(n: CaptureNotice) -> (a: Vec<StreamAction>)
    ensures
        a@ == notice_actions_of(n),
{
    let mut a: Vec<StreamAction> = Vec::new();
    match n {
        CaptureNotice::BackendSwitched { from, to } => {
            a.push(StreamAction::Report(HostReport::BackendSwitched { from, to }));
        },
        CaptureNotice::CaptureLost { hwnd, reason } => {
            a.push(StreamAction::Report(HostReport::CaptureLost { target: CaptureTarget::Window(hwnd), reason }));
        },
        CaptureNotice::CaptureRecovered { hwnd, backend } => {
            a.push(
                StreamAction::Report(
                    HostReport::CaptureRecovered { target: CaptureTarget::Window(hwnd), backend },
                ),
            );
        },
        CaptureNotice::RenderSuspended { hwnd, app_kind } => {
            a.push(
                StreamAction::Report(
                    HostReport::RenderSuspended { target: CaptureTarget::Window(hwnd), app_kind },
                ),
            );
        },
        CaptureNotice::RenderResumed { hwnd } => {
            a.push(StreamAction::Report(HostReport::RenderResumed { target: CaptureTarget::Window(hwnd) }));
        },
        CaptureNotice::WindowChanged => {},
    }
    a
}

fn encoded_step(s: &mut StreamLoopState, outcome: EncodeOutcome, on_gpu: bool) -> (a: Vec<StreamAction>)
    requires
        outcome matches EncodeOutcome::Packet { encode_us, .. } ==> old(s).encode_us_sum + encode_us
            <= u64::MAX,
    ensures
        a@ == encoded_actions_of(outcome, on_gpu),
        *final(s) == encoded_state_of(*old(s), outcome),
{
    let mut a: Vec<StreamAction> = Vec::new();
    match outcome {
        EncodeOutcome::Packet { keyframe, encode_us } => {
            if on_gpu {
                a.push(StreamAction::CountGpuEncoded);
            }
            s.encode_us_sum = s.encode_us_sum + encode_us;
            a.push(StreamAction::CountEncoded { keyframe, encode_us });
            a.push(StreamAction::QueuePacket);
        },
        EncodeOutcome::Nothing => {
            if on_gpu {
                a.push(StreamAction::CountGpuEncoded);
            }
            a.push(StreamAction::CountDropped);
        },
        EncodeOutcome::Failed => {
            a.push(StreamAction::CountDropped);
        },
        EncodeOutcome::GpuFailed => {
            s.gpu_encoder = false;
            s.stream.on_capture_restart();
            a.push(StreamAction::CountGpuError);
            a.push(StreamAction::RestartCaptureOnCpu);
            a.push(StreamAction::CountDropped);
        },
    }
    a
}

fn queued_step(s: &mut StreamLoopState, outcome: QueueOutcome, since_stats_nanos: u128) -> (a: Vec<
    StreamAction,
>)
    requires
        !old(s).multi_display && !(outcome is Closed) ==> old(s).frames_since_stats < u32::MAX,
    ensures
        a@ == queued_actions_of(*old(s), outcome, since_stats_nanos),
        *final(s) == queued_state_of(*old(s), outcome, since_stats_nanos),
{
    let mut a: Vec<StreamAction> = Vec::new();
    if s.multi_display {
        match outcome {
            QueueOutcome::Sent => {},
            QueueOutcome::Full => {
                a.push(StreamAction::CountDropped);
            },
            QueueOutcome::Closed => {
                a.push(StreamAction::EndDisplayPass);
            },
        }
        return a;
    }
    let full = match outcome {
        QueueOutcome::Closed => {
            s.running = false;
            a.push(StreamAction::StopCapture);
            a.push(StreamAction::Exit);
            return a;
        },
        QueueOutcome::Full => true,
        QueueOutcome::Sent => false,
    };
    if full {
        a.push(StreamAction::CountDropped);
    }
    let frames = s.frames_since_stats + 1;
    if since_stats_nanos >= STATS_INTERVAL_NANOS {
        a.push(
            StreamAction::ReportStats {
                frames,
                encode_us_sum: s.encode_us_sum,
                elapsed_nanos: since_stats_nanos,
            },
        );
        s.frames_since_stats = 0;
        s.encode_us_sum = 0;
    } else {
        s.frames_since_stats = frames;
    }
    proof {
        if !full {
            assert(a@ =~= Seq::<StreamAction>::empty() + a@);
        }
    }
    a
}

/// Decides what the loop does on an event and how its memory changes.
pub fn stream_step(s: &mut StreamLoopState, ev: StreamEvent) -> (a: Vec<StreamAction>)
    requires
        event_ok(*old(s), ev),
    ensures
        *final(s) == step_state(*old(s), ev),
        match ev {
            StreamEvent::Stop => {
                &&& a@.len() == 3
                &&& a@[0] == StreamAction::StopCapture
                &&& a@[1] matches StreamAction::Report(HostReport::StreamStopped { reason }) && reason@
                    == "User stopped"@
                &&& a@[2] == StreamAction::Exit
            },
            StreamEvent::CaptureStartFailed { reason: r } => {
                &&& a@.len() == 2
                &&& a@[0] matches StreamAction::Report(HostReport::StreamStopped { reason }) && reason@
                    == "Capture init failed: "@ + r@
                &&& a@[1] == StreamAction::Exit
            },
            _ => a@ == step_actions(*old(s), ev),
        },
{
    let mut a: Vec<StreamAction> = Vec::new();
    match ev {
        StreamEvent::Stop => {
            s.running = false;
            a.push(StreamAction::StopCapture);
            a.push(StreamAction::Report(HostReport::StreamStopped { reason: String::from_str("User stopped") }));
            a.push(StreamAction::Exit);
        },
        StreamEvent::CaptureStartFailed { reason } => {
            s.running = false;
            let mut m = String::from_str("Capture init failed: ");
            m.append(reason.as_str());
            a.push(StreamAction::Report(HostReport::StreamStopped { reason: m }));
            a.push(StreamAction::Exit);
        },
        StreamEvent::RequestKeyframe => {
            a.push(StreamAction::RequestKeyframe);
        },
        StreamEvent::SetBitrate { bps } => {
            a.push(StreamAction::SetBitrate { bps });
        },
        StreamEvent::SetFps { fps } => {
            s.fps = fps;
            a.push(StreamAction::SetFps { fps });
        },
        StreamEvent::SetScale => {
            a.push(StreamAction::ApplyScale);
        },
        StreamEvent::Notice(n) => {
            a = notice_step(n);
        },
        StreamEvent::NoFrame => {
            a.push(StreamAction::Wait { nanos: IDLE_WAIT_NANOS });
        },
        StreamEvent::Frame { width, height, on_gpu, has_pixels } => {
            let f = s.stream.on_frame();
            if f.announce {
                a.push(StreamAction::Report(HostReport::StreamStarted { width, height }));
            }
            if f.request_keyframe {
                a.push(StreamAction::RequestKeyframe);
            }
            a.push(StreamAction::CountCaptured);
            if on_gpu && s.gpu_encoder {
                a.push(StreamAction::EncodeOnGpu);
            } else if has_pixels {
                a.push(StreamAction::EncodeOnCpu);
            } else {
                a.push(StreamAction::CountDropped);
            }
        },
        StreamEvent::DisplayFrames { count, width, height } => {
            if count == 0 {
                a.push(StreamAction::Wait { nanos: IDLE_WAIT_NANOS });
            } else {
                let f = s.stream.on_frame();
                if f.announce {
                    a.push(StreamAction::Report(HostReport::StreamStarted { width, height }));
                }
                a.push(StreamAction::EncodeDisplays { keyframe: f.request_keyframe });
                s.frames_since_stats = s.frames_since_stats + 1;
            }
        },
        StreamEvent::Encoded { outcome, on_gpu } => {
            a = encoded_step(s, outcome, on_gpu);
        },
        StreamEvent::Queued { outcome, since_stats_nanos } => {
            a = queued_step(s, outcome, since_stats_nanos);
        },
    }
    a
}

/// A stopped or broken loop stays stopped, the GPU encoder once given up
/// stays off, and an announced stream stays announced: no event undoes
/// any of them.
pub proof fn lemma_stream_loop_monotone(s: StreamLoopState, ev: StreamEvent)
    ensures
        !s.running ==> !step_state(s, ev).running,
        !s.gpu_encoder ==> !step_state(s, ev).gpu_encoder,
        step_state(s, ev).stream.announced || !s.stream.announced,
{
}

/// Every session command gives exactly its own action and leaves the loop's
/// memory as it is, except that a new frame rate is kept: a bitrate
/// reaches the encoders, a keyframe request asks for one, a scale is
/// applied.
pub proof fn lemma_commands_pass_through(s: StreamLoopState, bps: u32, fps: u32)
    ensures
        step_actions(s, StreamEvent::SetBitrate { bps }) == seq![StreamAction::SetBitrate { bps }],
        step_state(s, StreamEvent::SetBitrate { bps }) == s,
        step_actions(s, StreamEvent::RequestKeyframe) == seq![StreamAction::RequestKeyframe],
        step_state(s, StreamEvent::RequestKeyframe) == s,
        step_actions(s, StreamEvent::SetFps { fps }) == seq![StreamAction::SetFps { fps }],
        step_state(s, StreamEvent::SetFps { fps }) == (StreamLoopState { fps, ..s }),
        step_actions(s, StreamEvent::SetScale) == seq![StreamAction::ApplyScale],
        step_state(s, StreamEvent::SetScale) == s,
{
}

} // verus!
