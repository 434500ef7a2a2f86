use beacon_pulse::logging::metrics::{MetricsSnapshot, PipelineMetrics};

#[test]
fn new_metrics_are_zero() {
    let mut m = PipelineMetrics::new();
    assert_eq!(m.frames_captured, 0);
    assert_eq!(m.gpu_path_active, 0);
    let s = m.snapshot();
    assert_eq!(s.frames_captured, 0);
    assert_eq!(s.avg_encode_us, 0);
    assert_eq!(s.avg_pipeline_us, 0);
    assert!(!s.gpu_path_active);
}

#[test]
fn counters_count_each_event() {
    let mut m = PipelineMetrics::new();
    m.inc_captured();
    m.inc_captured();
    m.inc_stale();
    m.inc_dropped_cap();
    m.inc_backend_switch();
    m.inc_encoded();
    m.inc_dropped_enc();
    m.inc_keyframe();
    m.inc_packets_sent();
    m.inc_packets_lost();
    m.inc_render_suspended();
    m.inc_gpu_encoded();
    m.inc_gpu_errors();
    m.touch_frame(77);
    m.set_rtt_us(1234);
    assert_eq!(m.frames_captured, 2);
    assert_eq!(m.frames_stale, 1);
    assert_eq!(m.frames_dropped_cap, 1);
    assert_eq!(m.backend_switches, 1);
    assert_eq!(m.frames_encoded, 1);
    assert_eq!(m.frames_dropped_enc, 1);
    assert_eq!(m.keyframes, 1);
    assert_eq!(m.packets_sent, 1);
    assert_eq!(m.packets_lost, 1);
    assert_eq!(m.render_suspended_count, 1);
    assert_eq!(m.gpu_frames_encoded, 1);
    assert_eq!(m.gpu_encode_errors, 1);
    assert_eq!(m.last_frame_ts, 77);
    assert_eq!(m.rtt_us, 1234);
}

#[test]
fn counters_wrap_like_atomics() {
    let mut m = PipelineMetrics::new();
    m.frames_captured = u64::MAX;
    m.inc_captured();
    assert_eq!(m.frames_captured, 0);
    m.add_bytes_sent(u64::MAX);
    m.add_bytes_sent(2);
    assert_eq!(m.bytes_sent, 1);
}

#[test]
fn snapshot_averages_and_resets_window() {
    let mut m = PipelineMetrics::new();
    m.record_encode_us(1000);
    m.record_encode_us(3000);
    m.record_encode_us(2001);
    m.record_pipeline_us(10);
    m.add_bytes_sent(1500);
    m.add_bytes_sent(500);
    m.inc_packets_sent();
    m.inc_packets_lost();
    m.inc_gpu_errors();
    m.inc_encoded();
    m.set_gpu_path_active(true);
    m.frame_width = 1920;
    m.frame_height = 1080;
    let s = m.snapshot();
    assert_eq!(s.avg_encode_us, 2000);
    assert_eq!(s.avg_pipeline_us, 10);
    assert_eq!(s.bytes_in_window, 2000);
    assert_eq!(s.packets_in_window, 1);
    assert_eq!(s.packet_loss_in_window, 1);
    assert_eq!(s.gpu_encode_errors, 1);
    assert_eq!(s.frames_encoded, 1);
    assert_eq!(s.frame_width, 1920);
    assert_eq!(s.frame_height, 1080);
    assert!(s.gpu_path_active);
    // The window is cleared, running totals are kept.
    let t = m.snapshot();
    assert_eq!(t.avg_encode_us, 0);
    assert_eq!(t.bytes_in_window, 0);
    assert_eq!(t.packets_in_window, 0);
    assert_eq!(t.packet_loss_in_window, 0);
    assert_eq!(t.gpu_encode_errors, 0);
    assert_eq!(t.frames_encoded, 1);
    assert!(t.gpu_path_active);
    assert_eq!(m.encode_us_count, 0);
    assert_eq!(m.pipeline_us_sum, 0);
}

#[test]
fn gpu_path_flag_is_stored_as_number() {
    let mut m = PipelineMetrics::new();
    m.set_gpu_path_active(true);
    assert_eq!(m.gpu_path_active, 1);
    m.set_gpu_path_active(false);
    assert_eq!(m.gpu_path_active, 0);
}

#[test]
fn default_snapshot_is_zero() {
    let s = MetricsSnapshot::default();
    assert_eq!(s.frames_captured, 0);
    assert_eq!(s.rtt_us, 0);
    assert!(!s.gpu_path_active);
}

#[test]
fn counter_increments_are_not_lost() {
    let mut m = PipelineMetrics::new();
    m.frames_captured = u64::MAX - 2;
    let before = m.frames_encoded;
    for _ in 0..5 {
        m.inc_captured();
    }
    assert_eq!(m.frames_captured, (u64::MAX - 2).wrapping_add(5));
    assert_eq!(m.frames_captured, 2);
    assert_eq!(m.frames_encoded, before);
}
