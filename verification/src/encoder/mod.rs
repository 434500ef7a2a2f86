//! Video encoding support: colour conversion, encoder configuration, the
//! bookkeeping of the software encoder and the hardware encoder list.

pub mod hardware;
pub mod software;
pub mod yuv;

use vstd::prelude::*;

use crate::encoder::hardware::{encoder_id, encoder_id_of, HwVendor};
use crate::text::{parse_unsigned, parse_unsigned_spec};

verus! {

/// One encoded video (or audio) packet ready for transmission.
pub struct EncodedPacket {
    /// H.264 Annex-B NAL unit bytes (or an Opus payload for audio).
    pub data: Vec<u8>,
    /// Microsecond timestamp of the source frame.
    pub timestamp_us: u64,
    /// Whether this packet starts an IDR frame (keyframe).
    pub is_keyframe: bool,
    /// Dimensions of the source frame.
    pub width: u32,
    pub height: u32,
    /// Display the packet belongs to when several are streamed; 255 marks
    /// audio.
    pub display_id: u8,
}

/// Video codec of an encoder.
#[derive(Debug, Clone, Copy, PartialEq, Eq, Structural)]
pub enum VideoCodec {
    H264,
    H265,
}

/// Encoder configuration.
#[derive(Debug, Clone, Copy)]
pub struct EncoderConfig {
    pub width: u32,
    pub height: u32,
    /// Target bitrate in bits per second.
    pub bitrate_bps: u32,
    /// Target frame rate.
    pub fps: u32,
    /// A keyframe every this many frames.
    pub keyframe_interval: u32,
    pub codec: VideoCodec,
}

/// Bitrate of the default configuration: 20 Mbps, sharp on a LAN.
pub const DEFAULT_BITRATE_BPS: u32 = 20_000_000;

/// Frame rate of the default configuration.
pub const DEFAULT_FPS: u32 = 60;

/// The default configuration: 1920x1080, 20 Mbps, 60 fps, a keyframe every
/// 120 frames (2 s at 60 fps), H.264.
pub open spec fn default_encoder_config() -> EncoderConfig {
    EncoderConfig {
        width: 1920,
        height: 1080,
        bitrate_bps: DEFAULT_BITRATE_BPS,
        fps: DEFAULT_FPS,
        keyframe_interval: 120,
        codec: VideoCodec::H264,
    }
}

impl Default for EncoderConfig {
    fn default() -> (c: Self)
        ensures
            c == default_encoder_config(),
    {
        EncoderConfig {
            width: 1920,
            height: 1080,
            bitrate_bps: DEFAULT_BITRATE_BPS,
            fps: DEFAULT_FPS,
            keyframe_interval: 120,
            codec: VideoCodec::H264,
        }
    }
}

/// The configuration a host session streams with: the default, with the
/// bitrate replaced by `bitrate_text` and the frame rate (and keyframe
/// interval, one keyframe a second) by `fps_text` where these parse as
/// `u32`; text that does not parse leaves the default in place.
pub open spec fn config_with_overrides(bitrate_text: Option<Seq<char>>, fps_text: Option<Seq<char>>) -> EncoderConfig {
    let d = default_encoder_config();
    let with_bitrate = match bitrate_text {
        Some(t) => match parse_unsigned_spec(t, u32::MAX as nat) {
            Some(bps) => EncoderConfig { bitrate_bps: bps as u32, ..d },
            None => d,
        },
        None => d,
    };
    match fps_text {
        Some(t) => match parse_unsigned_spec(t, u32::MAX as nat) {
            Some(fps) => EncoderConfig {
                fps: fps as u32,
                keyframe_interval: fps as u32,
                ..with_bitrate
            },
            None => with_bitrate,
        },
        None => with_bitrate,
    }
}

impl EncoderConfig {
    /// The streaming configuration, given the texts of the bitrate and
    /// frame-rate overrides where they are set.
    pub fn with_overrides(bitrate_text: Option<&str>, fps_text: Option<&str>) -> (c: Self)
        ensures
            c == config_with_overrides(
                match bitrate_text {
                    Some(t) => Some(t@),
                    None => None,
                },
                match fps_text {
                    Some(t) => Some(t@),
                    None => None,
                },
            ),
    {
        let mut cfg = EncoderConfig::default();
        if let Some(t) = bitrate_text {
            if let Some(bps) = parse_unsigned(t, u32::MAX as u64) {
                cfg.bitrate_bps = bps as u32;
            }
        }
        if let Some(t) = fps_text {
            if let Some(fps) = parse_unsigned(t, u32::MAX as u64) {
                cfg.fps = fps as u32;
                cfg.keyframe_interval = fps as u32;
            }
        }
        cfg
    }
}

/// The part of a fallback encoder that decides: whether it runs on the
/// hardware or the software encoder, and the configuration it was made
/// with, kept current by bitrate and frame-rate changes. The encoder itself
/// is held beside it by the caller.
pub struct FallbackEncoder {
    pub config: EncoderConfig,
    /// Whether frames go to the software encoder.
    pub is_software: bool,
    /// Vendor of the hardware encoder it started on, if any.
    pub vendor: Option<HwVendor>,
}

/// What follows an encode call of a fallback encoder.
#[derive(Debug, Clone, Copy)]
pub enum FallbackStep {
    /// Hand the encoder's result on as it is.
    Deliver,
    /// The hardware encoder failed: build a software encoder with this
    /// configuration, switch to it, request a keyframe and encode the frame
    /// again; where it cannot be built, hand on the hardware error.
    BuildSoftware(EncoderConfig),
}

/// The step after an encode call: a hardware failure leads to a software
/// encoder with the current configuration at the frame's dimensions;
/// anything else is handed on.
pub open spec fn fallback_step(f: FallbackEncoder, failed: bool, width: u32, height: u32) -> FallbackStep {
    if failed && !f.is_software {
        FallbackStep::BuildSoftware(EncoderConfig { width, height, ..f.config })
    } else {
        FallbackStep::Deliver
    }
}

impl FallbackEncoder {
    /// Starts on the hardware encoder of `hardware`'s vendor where one could
    /// be built, else on the software encoder.
    pub fn new(config: EncoderConfig, hardware: Option<HwVendor>) -> (f: Self)
        ensures
            f.config == config,
            f.is_software == (hardware is None),
            f.vendor == hardware,
    {
        FallbackEncoder { config, is_software: hardware.is_none(), vendor: hardware }
    }

    /// The metrics number of the encoder in use: 1 NVENC, 2 AMF, 3 QSV by
    /// the hardware vendor, 0 once on software.
    pub fn active_encoder_id(&self) -> (id: u32)
        ensures
            id == (if self.is_software {
                0
            } else {
                encoder_id_of(self.vendor)
            }),
    {
        if self.is_software {
            0
        } else {
            encoder_id(self.vendor)
        }
    }

    /// What to do after the current encoder was given a frame of these
    /// dimensions: a hardware failure leads to a software encoder at the
    /// frame's dimensions; anything else is handed on.
    pub fn after_encode(&self, failed: bool, width: u32, height: u32) -> (step: FallbackStep)
        ensures
            step == fallback_step(*self, failed, width, height),
    {
        if failed && !self.is_software {
            FallbackStep::BuildSoftware(EncoderConfig { width, height, ..self.config })
        } else {
            FallbackStep::Deliver
        }
    }

    /// The software encoder was built: from now on frames go to it.
    pub fn switch_to_software(&mut self)
        ensures
            final(self).is_software,
            final(self).config == old(self).config,
            final(self).vendor == old(self).vendor,
    {
        self.is_software = true;
    }

    /// Takes a new target bitrate into the configuration (the caller hands
    /// it on to the current encoder).
    pub fn set_bitrate(&mut self, bps: u32)
        ensures
            final(self).config == (EncoderConfig { bitrate_bps: bps, ..old(self).config }),
            final(self).is_software == old(self).is_software,
            final(self).vendor == old(self).vendor,
    {
        self.config.bitrate_bps = bps;
    }

    /// Takes a new frame rate into the configuration, with one keyframe a
    /// second (the caller hands it on to the current encoder).
    pub fn set_fps(&mut self, fps: u32)
        ensures
            final(self).config == (EncoderConfig { fps, keyframe_interval: fps, ..old(self).config }),
            final(self).is_software == old(self).is_software,
            final(self).vendor == old(self).vendor,
    {
        self.config.fps = fps;
        self.config.keyframe_interval = fps;
    }
}

/// A fallback encoder on software never returns to hardware: after it, every
/// encode result is handed on as it is.
pub proof fn lemma_software_is_final(f: FallbackEncoder, failed: bool, width: u32, height: u32)
    requires
        f.is_software,
    ensures
        fallback_step(f, failed, width, height) == FallbackStep::Deliver,
{
}

} // verus!
