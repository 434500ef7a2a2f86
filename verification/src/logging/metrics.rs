//! Pipeline metrics: counters updated in the capture, encode and network
//! paths, and a periodic snapshot that reads them and resets the windowed
//! ones (latency sums, traffic and losses) for the next window.
//!
//! Counters wrap around on overflow.

use vstd::prelude::*;

verus! {

/// All live pipeline metrics.
#[derive(Debug, Clone, Copy)]
pub struct PipelineMetrics {
    // Capture
    pub frames_captured: u64,
    pub frames_stale: u64,
    /// Frames dropped at the capture-to-encoder ring buffer.
    pub frames_dropped_cap: u64,
    pub backend_switches: u64,
    // Encoder
    pub frames_encoded: u64,
    /// Frames the encoder skipped or failed on.
    pub frames_dropped_enc: u64,
    pub keyframes: u64,
    pub encode_us_sum: u64,
    pub encode_us_count: u64,
    // Network
    pub bytes_sent: u64,
    pub packets_sent: u64,
    /// Incremented by the receiver's gap detection.
    pub packets_lost: u64,
    /// Latest round-trip time in microseconds.
    pub rtt_us: u64,
    // Timing: capture-to-sent latency
    pub pipeline_us_sum: u64,
    pub pipeline_us_count: u64,
    // Health indicators
    /// Timestamp of the latest frame, for freeze detection.
    pub last_frame_ts: u64,
    pub render_suspended_count: u64,
    /// 0 = software, 1 = NVENC, 2 = AMF, 3 = QSV.
    pub hw_encoder_active: u32,
    // GPU zero-copy path
    /// Frames submitted through the GPU surface path.
    pub gpu_frames_encoded: u64,
    /// GPU encode attempts that fell back to the CPU path.
    pub gpu_encode_errors: u64,
    /// 1 while the shared GPU device and the hardware encoder are both live.
    pub gpu_path_active: u32,
    // Receive side (client)
    pub bytes_received: u64,
    pub frames_received: u64,
    pub recv_errors: u64,
    pub send_errors: u64,
    // Window info
    pub active_hwnd: u64,
    pub frame_width: u32,
    pub frame_height: u32,
}

/// What a snapshot reports.
#[derive(Debug, Clone, Copy)]
pub struct MetricsSnapshot {
    pub frames_captured: u64,
    pub frames_encoded: u64,
    pub frames_dropped_cap: u64,
    pub frames_stale: u64,
    pub backend_switches: u64,
    pub keyframes: u64,
    pub avg_encode_us: u64,
    pub avg_pipeline_us: u64,
    pub bytes_in_window: u64,
    pub packets_in_window: u64,
    pub packet_loss_in_window: u64,
    pub rtt_us: u64,
    pub render_suspended_count: u64,
    pub frame_width: u32,
    pub frame_height: u32,
    pub gpu_frames_encoded: u64,
    /// GPU encode errors since the previous snapshot.
    pub gpu_encode_errors: u64,
    pub gpu_path_active: bool,
}

/// Integer mean of a window: `sum / count`, or 0 for an empty window.
pub open spec fn window_average(sum: u64, count: u64) -> u64 {
    if count == 0 {
        0
    } else {
        sum / count
    }
}

/// The snapshot that `PipelineMetrics::snapshot` reports for `m`.
pub open spec fn snapshot_of(m: PipelineMetrics) -> MetricsSnapshot {
    MetricsSnapshot {
        frames_captured: m.frames_captured,
        frames_encoded: m.frames_encoded,
        frames_dropped_cap: m.frames_dropped_cap,
        frames_stale: m.frames_stale,
        backend_switches: m.backend_switches,
        keyframes: m.keyframes,
        avg_encode_us: window_average(m.encode_us_sum, m.encode_us_count),
        avg_pipeline_us: window_average(m.pipeline_us_sum, m.pipeline_us_count),
        bytes_in_window: m.bytes_sent,
        packets_in_window: m.packets_sent,
        packet_loss_in_window: m.packets_lost,
        rtt_us: m.rtt_us,
        render_suspended_count: m.render_suspended_count,
        frame_width: m.frame_width,
        frame_height: m.frame_height,
        gpu_frames_encoded: m.gpu_frames_encoded,
        gpu_encode_errors: m.gpu_encode_errors,
        gpu_path_active: m.gpu_path_active != 0,
    }
}

/// The metrics after a snapshot: the windowed counters start again at zero,
/// everything else is kept.
pub open spec fn reset_window(m: PipelineMetrics) -> PipelineMetrics {
    PipelineMetrics {
        encode_us_sum: 0,
        encode_us_count: 0,
        pipeline_us_sum: 0,
        pipeline_us_count: 0,
        bytes_sent: 0,
        packets_sent: 0,
        packets_lost: 0,
        gpu_encode_errors: 0,
        ..m
    }
}

impl PipelineMetrics {
    /// All counters at zero.
    pub fn new() -> (m: Self)
        ensures
            m.frames_captured == 0,
            m.frames_stale == 0,
            m.frames_dropped_cap == 0,
            m.backend_switches == 0,
            m.frames_encoded == 0,
            m.frames_dropped_enc == 0,
            m.keyframes == 0,
            m.encode_us_sum == 0,
            m.encode_us_count == 0,
            m.bytes_sent == 0,
            m.packets_sent == 0,
            m.packets_lost == 0,
            m.rtt_us == 0,
            m.pipeline_us_sum == 0,
            m.pipeline_us_count == 0,
            m.last_frame_ts == 0,
            m.render_suspended_count == 0,
            m.hw_encoder_active == 0,
            m.gpu_frames_encoded == 0,
            m.gpu_encode_errors == 0,
            m.gpu_path_active == 0,
            m.bytes_received == 0,
            m.frames_received == 0,
            m.recv_errors == 0,
            m.send_errors == 0,
            m.active_hwnd == 0,
            m.frame_width == 0,
            m.frame_height == 0,
    {
        PipelineMetrics {
            frames_captured: 0,
            frames_stale: 0,
            frames_dropped_cap: 0,
            backend_switches: 0,
            frames_encoded: 0,
            frames_dropped_enc: 0,
            keyframes: 0,
            encode_us_sum: 0,
            encode_us_count: 0,
            bytes_sent: 0,
            packets_sent: 0,
            packets_lost: 0,
            rtt_us: 0,
            pipeline_us_sum: 0,
            pipeline_us_count: 0,
            last_frame_ts: 0,
            render_suspended_count: 0,
            hw_encoder_active: 0,
            gpu_frames_encoded: 0,
            gpu_encode_errors: 0,
            gpu_path_active: 0,
            bytes_received: 0,
            frames_received: 0,
            recv_errors: 0,
            send_errors: 0,
            active_hwnd: 0,
            frame_width: 0,
            frame_height: 0,
        }
    }

    /// Counts one more in `frames_captured`.
    pub fn inc_captured(&mut self)
        ensures
            *final(self) == (PipelineMetrics { frames_captured: old(self).frames_captured.wrapping_add(1), ..*old(self) }),
    {
        self.frames_captured = self.frames_captured.wrapping_add(1);
    }

    /// Counts one more in `frames_stale`.
    pub fn inc_stale(&mut self)
        ensures
            *final(self) == (PipelineMetrics { frames_stale: old(self).frames_stale.wrapping_add(1), ..*old(self) }),
    {
        self.frames_stale = self.frames_stale.wrapping_add(1);
    }

    /// Counts one more in `frames_dropped_cap`.
    pub fn inc_dropped_cap(&mut self)
        ensures
            *final(self) == (PipelineMetrics { frames_dropped_cap: old(self).frames_dropped_cap.wrapping_add(1), ..*old(self) }),
    {
        self.frames_dropped_cap = self.frames_dropped_cap.wrapping_add(1);
    }

    /// Counts one more in `backend_switches`.
    pub fn inc_backend_switch(&mut self)
        ensures
            *final(self) == (PipelineMetrics { backend_switches: old(self).backend_switches.wrapping_add(1), ..*old(self) }),
    {
        self.backend_switches = self.backend_switches.wrapping_add(1);
    }

    /// Counts one more in `frames_encoded`.
    pub fn inc_encoded(&mut self)
        ensures
            *final(self) == (PipelineMetrics { frames_encoded: old(self).frames_encoded.wrapping_add(1), ..*old(self) }),
    {
        self.frames_encoded = self.frames_encoded.wrapping_add(1);
    }

    /// Counts one more in `frames_dropped_enc`.
    pub fn inc_dropped_enc(&mut self)
        ensures
            *final(self) == (PipelineMetrics { frames_dropped_enc: old(self).frames_dropped_enc.wrapping_add(1), ..*old(self) }),
    {
        self.frames_dropped_enc = self.frames_dropped_enc.wrapping_add(1);
    }

    /// Counts one more in `keyframes`.
    pub fn inc_keyframe(&mut self)
        ensures
            *final(self) == (PipelineMetrics { keyframes: old(self).keyframes.wrapping_add(1), ..*old(self) }),
    {
        self.keyframes = self.keyframes.wrapping_add(1);
    }

    /// Counts one more in `packets_sent`.
    pub fn inc_packets_sent(&mut self)
        ensures
            *final(self) == (PipelineMetrics { packets_sent: old(self).packets_sent.wrapping_add(1), ..*old(self) }),
    {
        self.packets_sent = self.packets_sent.wrapping_add(1);
    }

    /// Counts one more in `packets_lost`.
    pub fn inc_packets_lost(&mut self)
        ensures
            *final(self) == (PipelineMetrics { packets_lost: old(self).packets_lost.wrapping_add(1), ..*old(self) }),
    {
        self.packets_lost = self.packets_lost.wrapping_add(1);
    }

    /// Counts one more in `render_suspended_count`.
    pub fn inc_render_suspended(&mut self)
        ensures
            *final(self) == (PipelineMetrics { render_suspended_count: old(self).render_suspended_count.wrapping_add(1), ..*old(self) }),
    {
        self.render_suspended_count = self.render_suspended_count.wrapping_add(1);
    }

    /// Counts one more in `gpu_frames_encoded`.
    pub fn inc_gpu_encoded(&mut self)
        ensures
            *final(self) == (PipelineMetrics { gpu_frames_encoded: old(self).gpu_frames_encoded.wrapping_add(1), ..*old(self) }),
    {
        self.gpu_frames_encoded = self.gpu_frames_encoded.wrapping_add(1);
    }

    /// Counts one more in `gpu_encode_errors`.
    pub fn inc_gpu_errors(&mut self)
        ensures
            *final(self) == (PipelineMetrics { gpu_encode_errors: old(self).gpu_encode_errors.wrapping_add(1), ..*old(self) }),
    {
        self.gpu_encode_errors = self.gpu_encode_errors.wrapping_add(1);
    }

    /// Adds one encode duration to the current window.
    pub fn record_encode_us(&mut self, us: u64)
        ensures
            *final(self) == (PipelineMetrics {
                encode_us_sum: old(self).encode_us_sum.wrapping_add(us),
                encode_us_count: old(self).encode_us_count.wrapping_add(1),
                ..*old(self)
            }),
    {
        self.encode_us_sum = self.encode_us_sum.wrapping_add(us);
        self.encode_us_count = self.encode_us_count.wrapping_add(1);
    }

    /// Adds `n` bytes to the traffic of the current window.
    pub fn add_bytes_sent(&mut self, n: u64)
        ensures
            *final(self) == (PipelineMetrics {
                bytes_sent: old(self).bytes_sent.wrapping_add(n),
                ..*old(self)
            }),
    {
        self.bytes_sent = self.bytes_sent.wrapping_add(n);
    }

    /// Stores the latest round-trip time.
    pub fn set_rtt_us(&mut self, us: u64)
        ensures
            *final(self) == (PipelineMetrics { rtt_us: us, ..*old(self) }),
    {
        self.rtt_us = us;
    }

    /// Adds one capture-to-sent latency to the current window.
    pub fn record_pipeline_us(&mut self, us: u64)
        ensures
            *final(self) == (PipelineMetrics {
                pipeline_us_sum: old(self).pipeline_us_sum.wrapping_add(us),
                pipeline_us_count: old(self).pipeline_us_count.wrapping_add(1),
                ..*old(self)
            }),
    {
        self.pipeline_us_sum = self.pipeline_us_sum.wrapping_add(us);
        self.pipeline_us_count = self.pipeline_us_count.wrapping_add(1);
    }

    /// Records the timestamp of the latest frame.
    pub fn touch_frame(&mut self, ts: u64)
        ensures
            *final(self) == (PipelineMetrics { last_frame_ts: ts, ..*old(self) }),
    {
        self.last_frame_ts = ts;
    }

    /// Records whether the GPU zero-copy path is live (stored as 1 or 0).
    pub fn set_gpu_path_active(&mut self, active: bool)
        ensures
            *final(self) == (PipelineMetrics {
                gpu_path_active: if active { 1u32 } else { 0u32 },
                ..*old(self)
            }),
    {
        self.gpu_path_active = if active { 1 } else { 0 };
    }

    /// Reads all reported counters and resets the windowed ones.
    pub fn snapshot(&mut self) -> (snap: MetricsSnapshot)
        ensures
            snap == snapshot_of(*old(self)),
            *final(self) == reset_window(*old(self)),
    {
        let enc_count = self.encode_us_count;
        self.encode_us_count = 0;
        let enc_sum = self.encode_us_sum;
        self.encode_us_sum = 0;
        let pipe_count = self.pipeline_us_count;
        self.pipeline_us_count = 0;
        let pipe_sum = self.pipeline_us_sum;
        self.pipeline_us_sum = 0;
        let bytes = self.bytes_sent;
        self.bytes_sent = 0;
        let pkts = self.packets_sent;
        self.packets_sent = 0;
        let lost = self.packets_lost;
        self.packets_lost = 0;
        let gpu_errors = self.gpu_encode_errors;
        self.gpu_encode_errors = 0;
        MetricsSnapshot {
            frames_captured: self.frames_captured,
            frames_encoded: self.frames_encoded,
            frames_dropped_cap: self.frames_dropped_cap,
            frames_stale: self.frames_stale,
            backend_switches: self.backend_switches,
            keyframes: self.keyframes,
            avg_encode_us: match enc_sum.checked_div(enc_count) {
                Some(avg) => avg,
                None => 0,
            },
            avg_pipeline_us: match pipe_sum.checked_div(pipe_count) {
                Some(avg) => avg,
                None => 0,
            },
            bytes_in_window: bytes,
            packets_in_window: pkts,
            packet_loss_in_window: lost,
            rtt_us: self.rtt_us,
            render_suspended_count: self.render_suspended_count,
            frame_width: self.frame_width,
            frame_height: self.frame_height,
            gpu_frames_encoded: self.gpu_frames_encoded,
            gpu_encode_errors: gpu_errors,
            gpu_path_active: self.gpu_path_active != 0,
        }
    }
}

impl Default for MetricsSnapshot {
    /// All fields zero or false.
    fn default() -> (snap: Self)
        ensures
            snap == (MetricsSnapshot {
                frames_captured: 0,
                frames_encoded: 0,
                frames_dropped_cap: 0,
                frames_stale: 0,
                backend_switches: 0,
                keyframes: 0,
                avg_encode_us: 0,
                avg_pipeline_us: 0,
                bytes_in_window: 0,
                packets_in_window: 0,
                packet_loss_in_window: 0,
                rtt_us: 0,
                render_suspended_count: 0,
                frame_width: 0,
                frame_height: 0,
                gpu_frames_encoded: 0,
                gpu_encode_errors: 0,
                gpu_path_active: false,
            }),
    {
        MetricsSnapshot {
            frames_captured: 0,
            frames_encoded: 0,
            frames_dropped_cap: 0,
            frames_stale: 0,
            backend_switches: 0,
            keyframes: 0,
            avg_encode_us: 0,
            avg_pipeline_us: 0,
            bytes_in_window: 0,
            packets_in_window: 0,
            packet_loss_in_window: 0,
            rtt_us: 0,
            render_suspended_count: 0,
            frame_width: 0,
            frame_height: 0,
            gpu_frames_encoded: 0,
            gpu_encode_errors: 0,
            gpu_path_active: false,
        }
    }
}

/// A snapshot closes the window: a second snapshot taken right after the
/// first reports the same running totals and an empty window, and taking it
/// changes nothing further.
pub proof fn lemma_snapshot_resets_window(m: PipelineMetrics)
    ensures
        snapshot_of(reset_window(m)).avg_encode_us == 0,
        snapshot_of(reset_window(m)).avg_pipeline_us == 0,
        snapshot_of(reset_window(m)).bytes_in_window == 0,
        snapshot_of(reset_window(m)).packets_in_window == 0,
        snapshot_of(reset_window(m)).packet_loss_in_window == 0,
        snapshot_of(reset_window(m)).gpu_encode_errors == 0,
        snapshot_of(reset_window(m)).frames_captured == snapshot_of(m).frames_captured,
        snapshot_of(reset_window(m)).frames_encoded == snapshot_of(m).frames_encoded,
        snapshot_of(reset_window(m)).frames_dropped_cap == snapshot_of(m).frames_dropped_cap,
        snapshot_of(reset_window(m)).frames_stale == snapshot_of(m).frames_stale,
        snapshot_of(reset_window(m)).backend_switches == snapshot_of(m).backend_switches,
        snapshot_of(reset_window(m)).keyframes == snapshot_of(m).keyframes,
        snapshot_of(reset_window(m)).rtt_us == snapshot_of(m).rtt_us,
        snapshot_of(reset_window(m)).gpu_frames_encoded == snapshot_of(m).gpu_frames_encoded,
        reset_window(reset_window(m)) == reset_window(m),
{
}

/// Total of a sequence of durations.
pub open spec fn total_us(xs: Seq<u64>) -> int
    decreases xs.len(),
{
    if xs.len() == 0 {
        0
    } else {
        total_us(xs.drop_last()) + xs.last()
    }
}

/// The metrics after `record_encode_us` was called with each of `xs` in turn.
pub open spec fn after_encode_samples(m: PipelineMetrics, xs: Seq<u64>) -> PipelineMetrics
    decreases xs.len(),
{
    if xs.len() == 0 {
        m
    } else {
        let prev = after_encode_samples(m, xs.drop_last());
        PipelineMetrics {
            encode_us_sum: prev.encode_us_sum.wrapping_add(xs.last()),
            encode_us_count: prev.encode_us_count.wrapping_add(1),
            ..prev
        }
    }
}

proof fn lemma_encode_samples_accumulate(m: PipelineMetrics, xs: Seq<u64>)
    requires
        m.encode_us_sum == 0,
        m.encode_us_count == 0,
        total_us(xs) <= u64::MAX,
        xs.len() <= u64::MAX,
    ensures
        after_encode_samples(m, xs).encode_us_sum == total_us(xs),
        after_encode_samples(m, xs).encode_us_count == xs.len(),
    decreases xs.len(),
{
    if xs.len() > 0 {
        assert(total_us(xs.drop_last()) <= total_us(xs));
        lemma_encode_samples_accumulate(m, xs.drop_last());
    }
}

/// Over a window that started empty, the average encode time a snapshot
/// reports is the integer mean of the durations recorded in it, as long as
/// neither their total nor their number overflows a counter.
pub proof fn lemma_average_is_mean_of_window(m: PipelineMetrics, xs: Seq<u64>)
    requires
        m.encode_us_sum == 0,
        m.encode_us_count == 0,
        0 < xs.len() <= u64::MAX,
        total_us(xs) <= u64::MAX,
    ensures
        snapshot_of(after_encode_samples(m, xs)).avg_encode_us == total_us(xs) / (xs.len() as int),
{
    lemma_encode_samples_accumulate(m, xs);
}

/// A counter after `k` wrapping increments.
pub open spec fn incremented(c: u64, k: nat) -> u64
    decreases k,
{
    if k == 0 {
        c
    } else {
        incremented(c, (k - 1) as nat).wrapping_add(1)
    }
}

/// The metrics after `k` calls of `inc_captured`, each as its contract
/// states it.
pub open spec fn captured_k_times(m: PipelineMetrics, k: nat) -> PipelineMetrics
    decreases k,
{
    if k == 0 {
        m
    } else {
        let p = captured_k_times(m, (k - 1) as nat);
        PipelineMetrics { frames_captured: p.frames_captured.wrapping_add(1), ..p }
    }
}

/// `k` increments of a counter add `k` modulo 2^64: none is lost.
pub proof fn lemma_increments_add_up(c: u64, k: nat)
    ensures
        incremented(c, k) as int == (c as int + k as int) % 0x1_0000_0000_0000_0000,
    decreases k,
{
    if k > 0 {
        lemma_increments_add_up(c, (k - 1) as nat);
        let p = incremented(c, (k - 1) as nat);
        let m: int = 0x1_0000_0000_0000_0000;
        assert(p as int == (c as int + k - 1) % m);
        vstd::arithmetic::div_mod::lemma_add_mod_noop(c as int + k - 1, 1, m);
        vstd::arithmetic::div_mod::lemma_small_mod(1, m as nat);
        if p as int + 1 < m {
            vstd::arithmetic::div_mod::lemma_small_mod((p as int + 1) as nat, m as nat);
        } else {
            vstd::arithmetic::div_mod::lemma_mod_self_0(m);
        }
    }
}

/// After `k` calls of `inc_captured`, `frames_captured` has grown by `k`
/// modulo 2^64 and no other metric has changed.
pub proof fn lemma_captured_k_times(m: PipelineMetrics, k: nat)
    ensures
        captured_k_times(m, k) == (PipelineMetrics { frames_captured: incremented(m.frames_captured, k), ..m }),
        captured_k_times(m, k).frames_captured as int == (m.frames_captured as int + k as int)
            % 0x1_0000_0000_0000_0000,
    decreases k,
{
    if k > 0 {
        lemma_captured_k_times(m, (k - 1) as nat);
    }
    lemma_increments_add_up(m.frames_captured, k);
}

} // verus!
