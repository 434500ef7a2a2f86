//! Bookkeeping of the software H.264 encoder: when its encoder must be
//! rebuilt, which frames are forced to be keyframes, and how an encoded
//! bitstream becomes a packet. The encoder itself is driven by the caller:
//!
//! 1. `dimensions_changed`: if so, `set_dimensions`, rebuild the encoder
//!    from `config` and call `restart`.
//! 2. `take_keyframe`: when true, force an intra frame.
//! 3. Encode; on success with a non-empty bitstream, `finish_frame`.

use vstd::prelude::*;

use super::{EncodedPacket, EncoderConfig};

verus! {

/// Whether an H.264 Annex-B byte stream holds an IDR slice: a start code
/// `00 00 01` followed by a byte whose low five bits (the NAL type) are 5.
pub open spec fn has_idr_nal(nal: Seq<u8>) -> bool {
    exists|i: int|
        0 <= i && i + 3 < nal.len() && nal[i] == 0 && nal[i + 1] == 0 && nal[i + 2] == 1 && (
        #[trigger] nal[i + 3] as int) % 32 == 5
}

/// Scans an Annex-B byte stream for an IDR NAL unit.
pub fn contains_idr(nal: &[u8]) -> (r: bool)
    ensures
        r == has_idr_nal(nal@),
{
    let len = nal.len();
    if len < 4 {
        return false;
    }
    let mut i: usize = 0;
    while i < len - 3
        invariant
            len == nal@.len(),
            len >= 4,
            i <= len - 3,
            forall|j: int|
                0 <= j < i ==> !(nal@[j] == 0 && nal@[j + 1] == 0 && nal@[j + 2] == 1 && (
                #[trigger] nal@[j + 3] as int) % 32 == 5),
        decreases len - 3 - i,
    {
        if nal[i] == 0 && nal[i + 1] == 0 && nal[i + 2] == 1 {
            let b = nal[i + 3];
            let nal_type = b & 0x1F;
            assert(nal_type == b % 32) by (bit_vector)
                requires
                    nal_type == b & 0x1F,
            ;
            if nal_type == 5 {
                return true;
            }
        }
        i = i + 1;
    }
    false
}

/// Whether the frame numbered `frame_count` is a keyframe by the interval:
/// a multiple of `interval`, where only frame 0 is a multiple of 0.
pub open spec fn on_keyframe_interval(frame_count: u64, interval: u32) -> bool {
    if interval == 0 {
        frame_count == 0
    } else {
        frame_count % (interval as u64) == 0
    }
}

/// The state the software encoder keeps besides the OpenH264 encoder.
pub struct SoftwareEncoderState {
    pub config: EncoderConfig,
    /// Frames encoded since the encoder was last (re)built.
    pub frame_count: u64,
    /// Whether the next frame must be a keyframe.
    pub force_keyframe: bool,
}

impl SoftwareEncoderState {
    /// The state of a freshly built encoder: no frame yet, the first one
    /// forced to be a keyframe.
    pub fn new(config: EncoderConfig) -> (s: Self)
        ensures
            s.config == config,
            s.frame_count == 0,
            s.force_keyframe,
    {
        SoftwareEncoderState { config, frame_count: 0, force_keyframe: true }
    }

    /// Whether a frame of these dimensions needs the encoder rebuilt.
    pub fn dimensions_changed(&self, width: u32, height: u32) -> (r: bool)
        ensures
            r == (width != self.config.width || height != self.config.height),
    {
        width != self.config.width || height != self.config.height
    }

    /// Takes the new frame dimensions into the configuration.
    pub fn set_dimensions(&mut self, width: u32, height: u32)
        ensures
            final(self).config == (EncoderConfig { width, height, ..old(self).config }),
            final(self).frame_count == old(self).frame_count,
            final(self).force_keyframe == old(self).force_keyframe,
    {
        self.config.width = width;
        self.config.height = height;
    }

    /// After the encoder was rebuilt: counting starts over and the next
    /// frame is a keyframe.
    pub fn restart(&mut self)
        ensures
            final(self).config == old(self).config,
            final(self).frame_count == 0,
            final(self).force_keyframe,
    {
        self.frame_count = 0;
        self.force_keyframe = true;
    }

    /// Whether the next frame is to be forced to a keyframe: on request, or
    /// on the keyframe interval. A pending request is consumed.
    pub fn take_keyframe(&mut self) -> (k: bool)
        ensures
            k == (old(self).force_keyframe || on_keyframe_interval(
                old(self).frame_count,
                old(self).config.keyframe_interval,
            )),
            final(self).force_keyframe == (old(self).force_keyframe && !k),
            final(self).config == old(self).config,
            final(self).frame_count == old(self).frame_count,
    {
        let interval = self.config.keyframe_interval as u64;
        let on_interval = if interval == 0 {
            self.frame_count == 0
        } else {
            self.frame_count % interval == 0
        };
        let k = self.force_keyframe || on_interval;
        if k {
            self.force_keyframe = false;
        }
        k
    }

    /// Turns a non-empty encoded bitstream into a packet and counts the
    /// frame; the packet is a keyframe when one was forced or the stream
    /// holds an IDR slice.
    pub fn finish_frame(
        &mut self,
        nal: Vec<u8>,
        timestamp_us: u64,
        width: u32,
        height: u32,
        forced_keyframe: bool,
    ) -> (p: EncodedPacket)
        requires
            old(self).frame_count < u64::MAX,
        ensures
            p.data@ == nal@,
            p.timestamp_us == timestamp_us,
            p.is_keyframe == (forced_keyframe || has_idr_nal(nal@)),
            p.width == width,
            p.height == height,
            p.display_id == 0,
            final(self).frame_count == old(self).frame_count + 1,
            final(self).config == old(self).config,
            final(self).force_keyframe == old(self).force_keyframe,
    {
        let idr = contains_idr(nal.as_slice());
        self.frame_count = self.frame_count + 1;
        EncodedPacket {
            data: nal,
            timestamp_us,
            is_keyframe: forced_keyframe || idr,
            width,
            height,
            display_id: 0,
        }
    }

    /// A keyframe was requested: the next frame is forced to be one (the
    /// caller rebuilds the encoder and calls `restart`).
    pub fn request_keyframe(&mut self)
        ensures
            final(self).force_keyframe,
            final(self).config == old(self).config,
            final(self).frame_count == old(self).frame_count,
    {
        self.force_keyframe = true;
    }

    /// Takes a new target bitrate into the configuration (the caller
    /// rebuilds the encoder).
    pub fn set_bitrate(&mut self, bps: u32)
        ensures
            final(self).config == (EncoderConfig { bitrate_bps: bps, ..old(self).config }),
            final(self).frame_count == old(self).frame_count,
            final(self).force_keyframe == old(self).force_keyframe,
    {
        self.config.bitrate_bps = bps;
    }

    /// Takes a new frame rate into the configuration, with one keyframe a
    /// second (the caller rebuilds the encoder).
    pub fn set_fps(&mut self, fps: u32)
        ensures
            final(self).config == (EncoderConfig { fps, keyframe_interval: fps, ..old(self).config }),
            final(self).frame_count == old(self).frame_count,
            final(self).force_keyframe == old(self).force_keyframe,
    {
        self.config.fps = fps;
        self.config.keyframe_interval = fps;
    }
}

/// The first frame after a (re)start is always a keyframe, whatever the
/// interval.
pub proof fn lemma_restart_starts_with_keyframe(s: SoftwareEncoderState)
    requires
        s.frame_count == 0,
    ensures
        s.force_keyframe || on_keyframe_interval(s.frame_count, s.config.keyframe_interval),
{
}

/// With a non-zero interval and no request pending, a frame is forced to be
/// a keyframe exactly when its number is a multiple of the interval, so
/// keyframes recur every `interval` frames.
pub proof fn lemma_keyframes_recur(frame_count: u64, interval: u32)
    requires
        interval > 0,
        frame_count as int + interval as int <= u64::MAX,
    ensures
        on_keyframe_interval(frame_count, interval) == on_keyframe_interval(
            (frame_count + interval) as u64,
            interval,
        ),
{
    vstd::arithmetic::div_mod::lemma_mod_add_multiples_vanish(frame_count as int, interval as int);
}

} // verus!
