use beacon_pulse::encoder::hardware::{sample_duration, sample_time, MfEncoderState};
use beacon_pulse::encoder::hardware::{
    encoder_description, encoder_id, hardware_encoders, pack_u64, vendor_from_name, HwVendor,
};
use beacon_pulse::encoder::software::{contains_idr, SoftwareEncoderState};
use beacon_pulse::encoder::{EncoderConfig, FallbackEncoder, FallbackStep, VideoCodec};

#[test]
fn default_encoder_config() {
    let c = EncoderConfig::default();
    assert_eq!(c.width, 1920);
    assert_eq!(c.height, 1080);
    assert_eq!(c.bitrate_bps, 20_000_000);
    assert_eq!(c.fps, 60);
    assert_eq!(c.keyframe_interval, 120);
    assert_eq!(c.codec, VideoCodec::H264);
}

#[test]
fn config_overrides_apply_when_they_parse() {
    let c = EncoderConfig::with_overrides(Some("8000000"), Some("30"));
    assert_eq!(c.bitrate_bps, 8_000_000);
    assert_eq!(c.fps, 30);
    assert_eq!(c.keyframe_interval, 30);
    let d = EncoderConfig::with_overrides(Some("fast"), Some("-1"));
    assert_eq!(d.bitrate_bps, 20_000_000);
    assert_eq!(d.fps, 60);
    assert_eq!(d.keyframe_interval, 120);
    let e = EncoderConfig::with_overrides(None, Some("+144"));
    assert_eq!(e.bitrate_bps, 20_000_000);
    assert_eq!(e.fps, 144);
    let f = EncoderConfig::with_overrides(Some("4294967296"), None);
    assert_eq!(f.bitrate_bps, 20_000_000);
}

#[test]
fn idr_detection() {
    assert!(contains_idr(&[0, 0, 0, 1, 0x65, 0x88]));
    assert!(contains_idr(&[0, 0, 1, 0x25]));
    assert!(!contains_idr(&[0, 0, 0, 1, 0x41, 0x9a]));
    assert!(!contains_idr(&[0, 0, 1]));
    assert!(!contains_idr(&[]));
    // SPS, PPS, then IDR.
    assert!(contains_idr(&[0, 0, 0, 1, 0x67, 1, 0, 0, 0, 1, 0x68, 2, 0, 0, 1, 0x65]));
}

#[test]
fn keyframes_on_request_and_interval() {
    let mut cfg = EncoderConfig::default();
    cfg.keyframe_interval = 3;
    let mut st = SoftwareEncoderState::new(cfg);
    let mut kinds = Vec::new();
    for i in 0..7u64 {
        let k = st.take_keyframe();
        kinds.push(k);
        let p = st.finish_frame(vec![0, 0, 1, 0x41], i, 2, 2, k);
        assert_eq!(p.is_keyframe, k);
        assert_eq!(p.timestamp_us, i);
    }
    assert_eq!(kinds, vec![true, false, false, true, false, false, true]);
    st.request_keyframe();
    assert!(st.take_keyframe());
    assert_eq!(st.frame_count, 7);
}

#[test]
fn zero_interval_keys_only_the_first_frame() {
    let mut cfg = EncoderConfig::default();
    cfg.keyframe_interval = 0;
    let mut st = SoftwareEncoderState::new(cfg);
    assert!(st.take_keyframe());
    st.finish_frame(vec![1], 0, 2, 2, true);
    assert!(!st.take_keyframe());
}

#[test]
fn idr_in_stream_marks_keyframe() {
    let mut st = SoftwareEncoderState::new(EncoderConfig::default());
    let _ = st.take_keyframe();
    let p = st.finish_frame(vec![0, 0, 1, 0x65], 5, 640, 480, false);
    assert!(p.is_keyframe);
    assert_eq!(p.width, 640);
    assert_eq!(p.height, 480);
    assert_eq!(p.display_id, 0);
    assert_eq!(p.data, vec![0, 0, 1, 0x65]);
}

#[test]
fn dimension_changes_and_settings() {
    let mut st = SoftwareEncoderState::new(EncoderConfig::default());
    assert!(!st.dimensions_changed(1920, 1080));
    assert!(st.dimensions_changed(1280, 720));
    st.set_dimensions(1280, 720);
    assert_eq!(st.config.width, 1280);
    st.take_keyframe();
    st.finish_frame(vec![1], 0, 1280, 720, true);
    st.restart();
    assert_eq!(st.frame_count, 0);
    assert!(st.force_keyframe);
    st.set_bitrate(5_000_000);
    assert_eq!(st.config.bitrate_bps, 5_000_000);
    st.set_fps(24);
    assert_eq!(st.config.fps, 24);
    assert_eq!(st.config.keyframe_interval, 24);
}

#[test]
fn vendors_from_friendly_names() {
    assert_eq!(vendor_from_name("NVIDIA H.264 Encoder MFT"), HwVendor::Nvidia);
    assert_eq!(vendor_from_name("NVENC"), HwVendor::Nvidia);
    assert_eq!(vendor_from_name("AMDh264Encoder"), HwVendor::Amd);
    assert_eq!(vendor_from_name("AMF encoder"), HwVendor::Amd);
    assert_eq!(vendor_from_name("Intel® Quick Sync Video H.264 Encoder MFT"), HwVendor::Intel);
}

#[test]
fn encoders_are_ordered_by_vendor_stably() {
    let names = vec![
        "Intel QSV A".to_string(),
        "AMD One".to_string(),
        "NVIDIA First".to_string(),
        "Intel QSV B".to_string(),
        "NVENC Second".to_string(),
    ];
    let list = hardware_encoders(&names);
    let got: Vec<(HwVendor, String)> = list.iter().map(|e| (e.vendor, e.name.clone())).collect();
    assert_eq!(
        got,
        vec![
            (HwVendor::Nvidia, "NVIDIA First".to_string()),
            (HwVendor::Nvidia, "NVENC Second".to_string()),
            (HwVendor::Amd, "AMD One".to_string()),
            (HwVendor::Intel, "Intel QSV A".to_string()),
            (HwVendor::Intel, "Intel QSV B".to_string()),
        ]
    );
    assert!(hardware_encoders(&Vec::new()).is_empty());
}

#[test]
fn encoder_ids_and_descriptions() {
    assert_eq!(encoder_id(Some(HwVendor::Nvidia)), 1);
    assert_eq!(encoder_id(Some(HwVendor::Amd)), 2);
    assert_eq!(encoder_id(Some(HwVendor::Intel)), 3);
    assert_eq!(encoder_id(None), 0);
    let d = encoder_description(1);
    assert_eq!((d.encoder_name.as_str(), d.vendor.as_str(), d.hw_accelerated), ("NVENC", "NVIDIA", true));
    let d = encoder_description(3);
    assert_eq!((d.encoder_name.as_str(), d.vendor.as_str(), d.hw_accelerated), ("QuickSync", "Intel", true));
    let d = encoder_description(0);
    assert_eq!((d.encoder_name.as_str(), d.vendor.as_str(), d.hw_accelerated), ("OpenH264", "Software", false));
    let d = encoder_description(9);
    assert_eq!(d.encoder_name, "OpenH264");
}

#[test]
fn pack_u64_joins_halves() {
    assert_eq!(pack_u64(1920, 1080), (1920u64 << 32) | 1080);
    assert_eq!(pack_u64(0, 0), 0);
    assert_eq!(pack_u64(u32::MAX, u32::MAX), u64::MAX);
    let p = pack_u64(60, 1);
    assert_eq!((p >> 32) as u32, 60);
    assert_eq!(p as u32, 1);
}

#[test]
fn media_foundation_sample_timing() {
    assert_eq!(sample_time(1_500_000), 15_000_000);
    assert_eq!(sample_duration(60), 166_666);
    assert_eq!(sample_duration(30), 333_333);
}

#[test]
fn media_foundation_encoder_bookkeeping() {
    let mut s = MfEncoderState::new(1920, 1080);
    assert!(!s.on_frame_size(1920, 1080));
    assert!(s.take_clean_point());
    assert!(!s.take_clean_point());
    s.frame_encoded();
    s.frame_encoded();
    assert_eq!(s.frame_count, 2);
    s.request_keyframe();
    assert!(s.take_clean_point());
    assert!(s.on_frame_size(1280, 720));
    assert_eq!((s.width, s.height, s.frame_count), (1280, 720, 0));
    assert!(s.take_clean_point());
}

#[test]
fn fallback_encoder_switches_to_software_once() {
    let mut f = FallbackEncoder::new(EncoderConfig::default(), Some(HwVendor::Amd));
    assert_eq!(f.active_encoder_id(), 2);
    assert!(!f.is_software);
    // A successful hardware encode is handed on.
    assert!(matches!(f.after_encode(false, 1280, 720), FallbackStep::Deliver));
    // A failed one asks for a software encoder at the frame's dimensions.
    f.set_bitrate(8_000_000);
    match f.after_encode(true, 1280, 720) {
        FallbackStep::BuildSoftware(c) => {
            assert_eq!((c.width, c.height), (1280, 720));
            assert_eq!(c.bitrate_bps, 8_000_000);
            assert_eq!(c.fps, 60);
        }
        FallbackStep::Deliver => panic!("hardware failure must lead to software"),
    }
    f.switch_to_software();
    assert!(f.is_software);
    assert_eq!(f.active_encoder_id(), 0);
    // On software, failures are handed on: there is nothing to fall back to.
    assert!(matches!(f.after_encode(true, 1280, 720), FallbackStep::Deliver));
    f.set_fps(30);
    assert!(f.is_software);
    assert_eq!((f.config.fps, f.config.keyframe_interval), (30, 30));
}

#[test]
fn fallback_encoder_without_hardware_starts_on_software() {
    let f = FallbackEncoder::new(EncoderConfig::default(), None);
    assert_eq!(f.active_encoder_id(), 0);
    assert!(f.is_software);
    assert!(matches!(f.after_encode(true, 640, 480), FallbackStep::Deliver));
}
