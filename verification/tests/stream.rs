use beacon_pulse::capture::CaptureBackend;
use beacon_pulse::session::StreamState;
use beacon_pulse::stream::{
    stream_step, CaptureNotice, EncodeOutcome, HostReport, QueueOutcome, StreamAction, StreamEvent, StreamLoopState,
};
use beacon_pulse::CaptureTarget;

fn fresh(gpu: bool, multi: bool) -> StreamLoopState {
    StreamLoopState {
        stream: StreamState::new(),
        fps: 60,
        gpu_encoder: gpu,
        multi_display: multi,
        running: true,
        frames_since_stats: 0,
        encode_us_sum: 0,
    }
}

fn queued(outcome: QueueOutcome, since: u128) -> StreamEvent {
    StreamEvent::Queued { outcome, since_stats_nanos: since }
}

#[test]
fn first_frame_announces_and_asks_for_keyframe() {
    let mut s = fresh(false, false);
    let a = stream_step(&mut s, StreamEvent::Frame { width: 1280, height: 720, on_gpu: false, has_pixels: true });
    assert!(matches!(
        a.as_slice(),
        [
            StreamAction::Report(HostReport::StreamStarted { width: 1280, height: 720 }),
            StreamAction::RequestKeyframe,
            StreamAction::CountCaptured,
            StreamAction::EncodeOnCpu
        ]
    ));
    let a = stream_step(&mut s, StreamEvent::Frame { width: 1280, height: 720, on_gpu: true, has_pixels: false });
    assert!(matches!(a.as_slice(), [StreamAction::CountCaptured, StreamAction::CountDropped]));
}

#[test]
fn gpu_failure_restarts_on_cpu_with_keyframe() {
    let mut s = fresh(true, false);
    stream_step(&mut s, StreamEvent::Frame { width: 8, height: 8, on_gpu: true, has_pixels: false });
    let a = stream_step(&mut s, StreamEvent::Encoded { outcome: EncodeOutcome::Nothing, on_gpu: true });
    assert!(matches!(a.as_slice(), [StreamAction::CountGpuEncoded, StreamAction::CountDropped]));
    let a = stream_step(&mut s, StreamEvent::Encoded { outcome: EncodeOutcome::GpuFailed, on_gpu: true });
    assert!(matches!(
        a.as_slice(),
        [StreamAction::CountGpuError, StreamAction::RestartCaptureOnCpu, StreamAction::CountDropped]
    ));
    assert!(!s.gpu_encoder);
    let a = stream_step(&mut s, StreamEvent::Frame { width: 8, height: 8, on_gpu: false, has_pixels: true });
    assert!(matches!(a.as_slice(), [StreamAction::RequestKeyframe, StreamAction::CountCaptured, StreamAction::EncodeOnCpu]));
}

#[test]
fn statistics_are_counted_and_reported_every_half_second() {
    let mut s = fresh(false, false);
    let a = stream_step(&mut s, StreamEvent::Encoded { outcome: EncodeOutcome::Packet { keyframe: true, encode_us: 700 }, on_gpu: false });
    assert!(matches!(a.as_slice(), [StreamAction::CountEncoded { keyframe: true, encode_us: 700 }, StreamAction::QueuePacket]));
    assert!(stream_step(&mut s, queued(QueueOutcome::Sent, 100_000_000)).is_empty());
    stream_step(&mut s, StreamEvent::Encoded { outcome: EncodeOutcome::Packet { keyframe: false, encode_us: 300 }, on_gpu: false });
    let a = stream_step(&mut s, queued(QueueOutcome::Full, 300_000_000));
    assert!(matches!(a.as_slice(), [StreamAction::CountDropped]));
    assert_eq!((s.frames_since_stats, s.encode_us_sum), (2, 1000));
    let a = stream_step(&mut s, queued(QueueOutcome::Sent, 500_000_000));
    assert!(matches!(
        a.as_slice(),
        [StreamAction::ReportStats { frames: 3, encode_us_sum: 1000, elapsed_nanos: 500_000_000 }]
    ));
    assert_eq!((s.frames_since_stats, s.encode_us_sum), (0, 0));
}

#[test]
fn closed_streamer_ends_the_loop_or_the_display_pass() {
    let mut s = fresh(false, false);
    let a = stream_step(&mut s, queued(QueueOutcome::Closed, 0));
    assert!(matches!(a.as_slice(), [StreamAction::StopCapture, StreamAction::Exit]));
    assert!(!s.running);
    let mut s = fresh(false, true);
    let a = stream_step(&mut s, queued(QueueOutcome::Closed, 0));
    assert!(matches!(a.as_slice(), [StreamAction::EndDisplayPass]));
    assert!(s.running);
}

#[test]
fn commands_and_failures() {
    let mut s = fresh(false, false);
    let a = stream_step(&mut s, StreamEvent::SetFps { fps: 30 });
    assert!(matches!(a.as_slice(), [StreamAction::SetFps { fps: 30 }]));
    assert_eq!(s.fps, 30);
    let a = stream_step(&mut s, StreamEvent::NoFrame);
    assert!(matches!(a.as_slice(), [StreamAction::Wait { nanos: 5_000_000 }]));
    let a = stream_step(&mut s, StreamEvent::Stop);
    assert!(matches!(&a[1], StreamAction::Report(HostReport::StreamStopped { reason }) if reason == "User stopped"));
    assert!(!s.running);
    let mut s = fresh(false, false);
    let a = stream_step(&mut s, StreamEvent::CaptureStartFailed { reason: "no window".into() });
    assert!(matches!(&a[0], StreamAction::Report(HostReport::StreamStopped { reason }) if reason == "Capture init failed: no window"));
}

#[test]
fn capture_notices_become_reports() {
    let mut s = fresh(false, true);
    let a = stream_step(&mut s, StreamEvent::Notice(CaptureNotice::CaptureLost { hwnd: 9, reason: "closed".into() }));
    assert!(matches!(&a[..], [StreamAction::Report(HostReport::CaptureLost { target: CaptureTarget::Window(9), reason })] if reason == "closed"));
    let a = stream_step(
        &mut s,
        StreamEvent::Notice(CaptureNotice::BackendSwitched { from: CaptureBackend::WGC, to: CaptureBackend::PrintWindow }),
    );
    assert_eq!(a.len(), 1);
    assert!(stream_step(&mut s, StreamEvent::Notice(CaptureNotice::WindowChanged)).is_empty());
    let a = stream_step(&mut s, StreamEvent::DisplayFrames { count: 2, width: 1920, height: 1080 });
    assert!(matches!(
        a.as_slice(),
        [StreamAction::Report(HostReport::StreamStarted { width: 1920, height: 1080 }), StreamAction::EncodeDisplays { keyframe: true }]
    ));
    let a = stream_step(&mut s, StreamEvent::DisplayFrames { count: 2, width: 1920, height: 1080 });
    assert!(matches!(a.as_slice(), [StreamAction::EncodeDisplays { keyframe: false }]));
    assert_eq!(s.frames_since_stats, 2);
}
