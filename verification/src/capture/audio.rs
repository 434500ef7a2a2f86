//! System-audio capture: how the loopback samples are laid out as stereo,
//! cut into Opus frames, and packed for the stream.

use vstd::prelude::*;

use crate::encoder::EncodedPacket;

verus! {

/// The display number that marks a packet as audio.
pub const AUDIO_DISPLAY_ID: u8 = 255;

/// Samples per channel in one 20 ms Opus frame at 48 kHz.
pub const OPUS_FRAME_SAMPLES_PER_CHANNEL: usize = 960;

/// Interleaved stereo samples in one Opus frame.
pub const OPUS_FRAME_SAMPLES: usize = 1920;

/// The interleaved stereo samples of `src`, which holds `channels`
/// interleaved channels: unchanged for stereo, each sample twice for mono,
/// the first two channels of each complete frame for more.
pub open spec fn stereo_of<T>(src: Seq<T>, channels: nat) -> Seq<T> {
    if channels == 2 {
        src
    } else if channels == 1 {
        Seq::new(2 * src.len(), |i: int| src[i / 2])
    } else {
        Seq::new(
            2 * (src.len() / channels),
            |i: int|
                if i % 2 == 0 {
                    src[(i / 2) * channels]
                } else {
                    src[(i / 2) * channels + 1]
                },
        )
    }
}

/// Lays out captured samples as interleaved stereo.
pub fn to_stereo<T: Copy>(src: &[T], channels: usize) -> (r: Vec<T>)
    requires
        channels > 0,
        2 * src@.len() <= usize::MAX,
    ensures
        r@ == stereo_of(src@, channels as nat),
{
    let n = src.len();
    let mut r: Vec<T> = Vec::new();
    if channels == 2 {
        let mut i: usize = 0;
        while i < n
            invariant
                n == src@.len(),
                i <= n,
                r@ == src@.subrange(0, i as int),
            decreases n - i,
        {
            r.push(src[i]);
            i = i + 1;
        }
        assert(r@ =~= stereo_of(src@, channels as nat));
    } else if channels == 1 {
        let mut i: usize = 0;
        while i < n
            invariant
                n == src@.len(),
                2 * n <= usize::MAX,
                i <= n,
                r@.len() == 2 * i,
                forall|k: int| 0 <= k < 2 * i ==> #[trigger] r@[k] == src@[k / 2],
            decreases n - i,
        {
            r.push(src[i]);
            r.push(src[i]);
            i = i + 1;
        }
        assert(r@ =~= stereo_of(src@, channels as nat));
    } else {
        let frames = n / channels;
        let mut f: usize = 0;
        while f < frames
            invariant
                n == src@.len(),
                channels >= 3,
                frames == n / channels,
                f <= frames,
                r@.len() == 2 * f,
                forall|k: int|
                    0 <= k < 2 * f ==> #[trigger] r@[k] == if k % 2 == 0 {
                        src@[(k / 2) * channels]
                    } else {
                        src@[(k / 2) * channels + 1]
                    },
            decreases frames - f,
        {
            assert(f * channels + channels <= n) by (nonlinear_arith)
                requires
                    f < frames,
                    frames == n / channels,
                    channels >= 3,
            ;
            let base = f * channels;
            r.push(src[base]);
            r.push(src[base + 1]);
            proof {
                assert forall|k: int| 2 * f <= k < 2 * f + 2 implies #[trigger] r@[k] == if k % 2 == 0 {
                    src@[(k / 2) * channels]
                } else {
                    src@[(k / 2) * channels + 1]
                } by {
                    assert(k / 2 == f);
                }
            }
            f = f + 1;
        }
        assert(r@ =~= stereo_of(src@, channels as nat));
    }
    r
}

/// Cuts the next Opus frame off the front of the sample buffer, when it
/// holds a whole one.
pub fn take_opus_frame<T>(buffer: &mut Vec<T>) -> (frame: Option<Vec<T>>)
    ensures
        old(buffer)@.len() < OPUS_FRAME_SAMPLES ==> frame is None && final(buffer)@ == old(
            buffer,
        )@,
        old(buffer)@.len() >= OPUS_FRAME_SAMPLES ==> (frame matches Some(f) && f@ == old(
            buffer,
        )@.take(OPUS_FRAME_SAMPLES as int) && final(buffer)@ == old(buffer)@.skip(
            OPUS_FRAME_SAMPLES as int,
        )),
{
    if buffer.len() < OPUS_FRAME_SAMPLES {
        return None;
    }
    let mut rest = buffer.split_off(OPUS_FRAME_SAMPLES);
    std::mem::swap(buffer, &mut rest);
    Some(rest)
}

/// The stream packet of an encoded Opus frame: marked as audio, never a
/// keyframe, without picture size.
pub fn audio_packet(payload: Vec<u8>, timestamp_us: u64) -> (p: EncodedPacket)
    ensures
        p.data@ == payload@,
        p.timestamp_us == timestamp_us,
        !p.is_keyframe,
        p.width == 0,
        p.height == 0,
        p.display_id == AUDIO_DISPLAY_ID,
{
    EncodedPacket {
        data: payload,
        timestamp_us,
        is_keyframe: false,
        width: 0,
        height: 0,
        display_id: AUDIO_DISPLAY_ID,
    }
}

} // verus!
