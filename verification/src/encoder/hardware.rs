//! Hardware H.264 encoders: which vendor an encoder belongs to, the order in
//! which the probed encoders are offered, how the active one is reported,
//! and the sample timing and keyframe bookkeeping of a Media Foundation
//! encoder.

use vstd::prelude::*;

use crate::text::{contains_text, lowercase, seq_contains, to_lowercase};

verus! {

/// GPU vendor of a hardware encoder.
#[derive(Debug, Clone, Copy, PartialEq, Eq, Structural)]
pub enum HwVendor {
    Nvidia,
    Amd,
    Intel,
}

/// A hardware encoder found on this machine.
#[derive(Debug, Clone)]
pub struct HwEncoderInfo {
    pub vendor: HwVendor,
    pub name: String,
}

/// The vendor of an encoder from its lower-cased friendly name: NVIDIA for
/// "nvidia" or "nvenc", AMD for "amd" or "amf", else Intel.
pub open spec fn vendor_of_lower(lower: Seq<char>) -> HwVendor {
    if seq_contains(lower, "nvidia"@) || seq_contains(lower, "nvenc"@) {
        HwVendor::Nvidia
    } else if seq_contains(lower, "amd"@) || seq_contains(lower, "amf"@) {
        HwVendor::Amd
    } else {
        HwVendor::Intel
    }
}

/// The vendor of an encoder from its friendly name, compared
/// case-insensitively.
pub fn vendor_from_name(name: &str) -> (v: HwVendor)
    ensures
        v == vendor_of_lower(lowercase(name@)),
{
    let lower = to_lowercase(name);
    let l = lower.as_str();
    if contains_text(l, "nvidia") || contains_text(l, "nvenc") {
        HwVendor::Nvidia
    } else if contains_text(l, "amd") || contains_text(l, "amf") {
        HwVendor::Amd
    } else {
        HwVendor::Intel
    }
}

/// An encoder as a (vendor, name) pair.
pub open spec fn info_entry(e: HwEncoderInfo) -> (HwVendor, Seq<char>) {
    (e.vendor, e.name@)
}

/// A list of encoders as (vendor, name) pairs.
pub open spec fn entries_of(s: Seq<HwEncoderInfo>) -> Seq<(HwVendor, Seq<char>)> {
    s.map_values(|e: HwEncoderInfo| info_entry(e))
}

/// Whether an entry is of vendor `v`.
pub open spec fn has_vendor(v: HwVendor) -> spec_fn((HwVendor, Seq<char>)) -> bool {
    |x: (HwVendor, Seq<char>)| x.0 == v
}

/// The entries ordered NVIDIA first, then AMD, then Intel, each group in
/// its input order: what a stable sort by vendor gives.
pub open spec fn by_vendor(s: Seq<(HwVendor, Seq<char>)>) -> Seq<(HwVendor, Seq<char>)> {
    s.filter(has_vendor(HwVendor::Nvidia)) + s.filter(has_vendor(HwVendor::Amd)) + s.filter(
        has_vendor(HwVendor::Intel),
    )
}

/// The entry for an encoder with this friendly name.
pub open spec fn named_entry(name: Seq<char>) -> (HwVendor, Seq<char>) {
    (vendor_of_lower(lowercase(name)), name)
}

/// The entries for encoders with these friendly names.
pub open spec fn named_entries(names: Seq<String>) -> Seq<(HwVendor, Seq<char>)> {
    names.map_values(|n: String| named_entry(n@))
}

fn append_vendor(out: &mut Vec<HwEncoderInfo>, infos: &Vec<HwEncoderInfo>, v: HwVendor)
    ensures
        entries_of(final(out)@) == entries_of(old(out)@) + entries_of(infos@).filter(has_vendor(v)),
{
    let ghost start = entries_of(out@);
    let ghost all = entries_of(infos@);
    let mut i: usize = 0;
    while i < infos.len()
        invariant
            i <= infos.len(),
            all == entries_of(infos@),
            all.len() == infos.len(),
            entries_of(out@) == start + all.subrange(
                0,
                i as int,
            ).filter(has_vendor(v)),
        decreases infos.len() - i,
    {
        let ghost before = entries_of(out@);
        let ghost old_out = out@;
        let ghost prefix = all.subrange(0, i + 1);
        proof {
            reveal(Seq::filter);
        }
        assert(prefix.drop_last() =~= all.subrange(0, i as int));
        assert(prefix.last() == all[i as int]);
        if infos[i].vendor == v {
            let e = HwEncoderInfo { vendor: infos[i].vendor, name: infos[i].name.clone() };
            out.push(e);
            assert(info_entry(out@[old_out.len() as int]) == all[i as int]);
            assert(entries_of(out@) =~= before.push(all[i as int]));
            assert(prefix.filter(has_vendor(v)) == all.subrange(0, i as int).filter(
                has_vendor(v),
            ).push(all[i as int]));
            assert(start + prefix.filter(has_vendor(v)) =~= (start + all.subrange(
                0,
                i as int,
            ).filter(has_vendor(v))).push(all[i as int]));
        } else {
            assert(!has_vendor(v)(all[i as int]));
            assert(prefix.filter(has_vendor(v)) == all.subrange(0, i as int).filter(
                has_vendor(v),
            ));
        }
        i = i + 1;
    }
    assert(all.subrange(0, infos.len() as int) =~= all);
}

/// The hardware encoders with these friendly names, each with its vendor,
/// ordered NVIDIA, AMD, Intel and otherwise as found.
pub fn hardware_encoders(names: &Vec<String>) -> (r: Vec<HwEncoderInfo>)
    ensures
        entries_of(r@) == by_vendor(
            named_entries(names@),
        ),
{
    let ghost entries = named_entries(names@);
    let mut infos: Vec<HwEncoderInfo> = Vec::new();
    let mut i: usize = 0;
    while i < names.len()
        invariant
            i <= names.len(),
            entries == named_entries(names@),
            infos.len() == i,
            entries_of(infos@) == entries.subrange(0, i as int),
        decreases names.len() - i,
    {
        let vendor = vendor_from_name(names[i].as_str());
        infos.push(HwEncoderInfo { vendor, name: names[i].clone() });
        assert(entries_of(infos@) =~= entries.subrange(
            0,
            i + 1,
        ));
        i = i + 1;
    }
    assert(entries.subrange(0, names.len() as int) =~= entries);
    let mut r: Vec<HwEncoderInfo> = Vec::new();
    append_vendor(&mut r, &infos, HwVendor::Nvidia);
    append_vendor(&mut r, &infos, HwVendor::Amd);
    append_vendor(&mut r, &infos, HwVendor::Intel);
    assert(entries_of(Seq::<HwEncoderInfo>::empty()) =~= Seq::<
        (HwVendor, Seq<char>),
    >::empty());
    r
}

/// The number the metrics report for the active encoder: 1 NVENC, 2 AMF,
/// 3 QuickSync, 0 the software encoder.
pub open spec fn encoder_id_of(vendor: Option<HwVendor>) -> u32 {
    match vendor {
        Some(HwVendor::Nvidia) => 1,
        Some(HwVendor::Amd) => 2,
        Some(HwVendor::Intel) => 3,
        None => 0,
    }
}

/// The metrics number of the active encoder: its vendor's, or 0 when the
/// software encoder runs.
pub fn encoder_id(vendor: Option<HwVendor>) -> (id: u32)
    ensures
        id == encoder_id_of(vendor),
{
    match vendor {
        Some(HwVendor::Nvidia) => 1,
        Some(HwVendor::Amd) => 2,
        Some(HwVendor::Intel) => 3,
        None => 0,
    }
}

/// How the active encoder is announced to the user interface.
pub struct EncoderDescription {
    pub encoder_name: String,
    pub vendor: String,
    pub hw_accelerated: bool,
}

/// The announcement for a metrics encoder number: NVENC / NVIDIA, AMF / AMD,
/// QuickSync / Intel, and OpenH264 / Software for any other number.
pub fn encoder_description(id: u32) -> (d: EncoderDescription)
    ensures
        id == 1 ==> d.encoder_name@ == "NVENC"@ && d.vendor@ == "NVIDIA"@ && d.hw_accelerated,
        id == 2 ==> d.encoder_name@ == "AMF"@ && d.vendor@ == "AMD"@ && d.hw_accelerated,
        id == 3 ==> d.encoder_name@ == "QuickSync"@ && d.vendor@ == "Intel"@ && d.hw_accelerated,
        !(1 <= id <= 3) ==> d.encoder_name@ == "OpenH264"@ && d.vendor@ == "Software"@
            && !d.hw_accelerated,
{
    if id == 1 {
        EncoderDescription {
            encoder_name: String::from_str("NVENC"),
            vendor: String::from_str("NVIDIA"),
            hw_accelerated: true,
        }
    } else if id == 2 {
        EncoderDescription {
            encoder_name: String::from_str("AMF"),
            vendor: String::from_str("AMD"),
            hw_accelerated: true,
        }
    } else if id == 3 {
        EncoderDescription {
            encoder_name: String::from_str("QuickSync"),
            vendor: String::from_str("Intel"),
            hw_accelerated: true,
        }
    } else {
        EncoderDescription {
            encoder_name: String::from_str("OpenH264"),
            vendor: String::from_str("Software"),
            hw_accelerated: false,
        }
    }
}

/// Joins two 32-bit halves into a 64-bit value, `hi` in the upper half (as
/// Media Foundation packs frame sizes and rates); the halves read back
/// unchanged.
pub fn pack_u64(hi: u32, lo: u32) -> (r: u64)
    ensures
        r == hi as int * 0x1_0000_0000 + lo as int,
        (r >> 32u64) as u32 == hi,
        r as u32 == lo,
{
    let r = ((hi as u64) << 32u64) | lo as u64;
    assert(r == hi as int * 0x1_0000_0000 + lo as int && (r >> 32u64) as u32 == hi && r as u32
        == lo) by (bit_vector)
        requires
            r == ((hi as u64) << 32u64) | lo as u64,
    ;
    r
}

/// A sample's presentation time for Media Foundation: the capture time in
/// 100-nanosecond units.
pub fn sample_time(timestamp_us: u64) -> (t: i64)
    requires
        timestamp_us * 10 <= u64::MAX,
    ensures
        t == (timestamp_us * 10) as i64,
{
    (timestamp_us * 10) as i64
}

/// A sample's duration for Media Foundation: one frame at `fps`, in
/// 100-nanosecond units.
pub fn sample_duration(fps: u32) -> (d: i64)
    requires
        fps > 0,
    ensures
        d == 10_000_000int / (fps as int),
{
    10_000_000i64 / fps as i64
}

/// The bookkeeping of a Media Foundation hardware encoder.
pub struct MfEncoderState {
    pub width: u32,
    pub height: u32,
    /// Frames encoded since the transform was last (re)built.
    pub frame_count: u64,
    /// Whether the next sample is marked as a clean point (a keyframe).
    pub force_keyframe: bool,
}

impl MfEncoderState {
    /// A freshly built transform: nothing encoded, the first sample forced
    /// to be a keyframe.
    pub fn new(width: u32, height: u32) -> (s: Self)
        ensures
            s.width == width,
            s.height == height,
            s.frame_count == 0,
            s.force_keyframe,
    {
        MfEncoderState { width, height, frame_count: 0, force_keyframe: true }
    }

    /// A frame of these dimensions arrives: whether the transform must be
    /// rebuilt (the size changed), in which case the new size is taken,
    /// counting restarts and the next sample is a keyframe.
    pub fn on_frame_size(&mut self, width: u32, height: u32) -> (rebuild: bool)
        ensures
            rebuild == (width != old(self).width || height != old(self).height),
            rebuild ==> *final(self) == (MfEncoderState {
                width,
                height,
                frame_count: 0,
                force_keyframe: true,
            }),
            !rebuild ==> *final(self) == *old(self),
    {
        if width != self.width || height != self.height {
            self.width = width;
            self.height = height;
            self.frame_count = 0;
            self.force_keyframe = true;
            true
        } else {
            false
        }
    }

    /// Whether the sample about to be submitted is marked as a clean point;
    /// the mark is used up.
    pub fn take_clean_point(&mut self) -> (mark: bool)
        ensures
            mark == old(self).force_keyframe,
            !final(self).force_keyframe,
            final(self).width == old(self).width,
            final(self).height == old(self).height,
            final(self).frame_count == old(self).frame_count,
    {
        let mark = self.force_keyframe;
        self.force_keyframe = false;
        mark
    }

    /// The transform produced an encoded sample.
    pub fn frame_encoded(&mut self)
        requires
            old(self).frame_count < u64::MAX,
        ensures
            final(self).frame_count == old(self).frame_count + 1,
            final(self).width == old(self).width,
            final(self).height == old(self).height,
            final(self).force_keyframe == old(self).force_keyframe,
    {
        self.frame_count = self.frame_count + 1;
    }

    /// A keyframe was asked for: the next sample is marked.
    pub fn request_keyframe(&mut self)
        ensures
            final(self).force_keyframe,
            final(self).width == old(self).width,
            final(self).height == old(self).height,
            final(self).frame_count == old(self).frame_count,
    {
        self.force_keyframe = true;
    }
}

} // verus!
