//! Plans of the hardware H.264 pipelines: which elements are linked in which
//! order, how each is configured, and the rules that pick an encoder, a
//! profile and the packetizer's MTU.
//!
//! A plan is plain data; the caller instantiates the elements of the media
//! framework from it. Capabilities that only the framework can answer (the
//! element classification string, whether an element has a property, whether
//! an encoder accepts a profile) are handed in as values.
use vstd::prelude::*;
use crate::geometry::FrameRate;
use crate::dma_buf::DmaBufInputSignature;
use crate::text::{str_equals, str_starts_with};

verus! {

/// Smallest RTP packet the payloader accepts: the fixed RTP header plus the
/// minimal payload header.
pub const MIN_RTP_PACKET_SIZE: u32 = 28;
/// Bitrate of the streaming encoder, in kbit/s.
pub const H264_BITRATE_KBPS: u32 = 50_000;
/// Coded-picture-buffer size of the streaming encoder, in kbit.
pub const H264_CPB_SIZE_KBITS: u32 = 5_000;
/// Largest distance between key frames of the streaming encoder.
pub const H264_KEY_INT_MAX: u32 = 1_024;
/// Bitrate of the recording encoder, in kbit/s.
pub const RECORD_BITRATE_KBPS: u32 = 80_000;
/// Coded-picture-buffer size of the recording encoder, in kbit.
pub const RECORD_CPB_SIZE_KBITS: u32 = 40_000;
/// Upper bound of the recording key-frame interval.
pub const RECORD_KEY_INT_MAX: u32 = 288;
/// Lower bound of the recording key-frame interval.
pub const RECORD_KEY_INT_MIN: u32 = 30;
/// Input frames the recording source may queue.
pub const RECORD_APPSRC_MAX_BUFFERS: u64 = 32;
/// Buffers each queue of the recording pipeline may hold.
pub const RECORD_STAGE_QUEUE_BUFFERS: u64 = 16;

/// Why the payloader MTU cannot be derived from a packet size.
#[derive(Debug, Clone, Copy, PartialEq, Eq)]
pub enum RtpMtuError {
    TooLarge { size: usize },
    TooSmall { size: usize },
}

/// The payloader MTU for RTP packets of at most `max_rtp_packet_size` bytes.
pub fn rtp_mtu(max_rtp_packet_size: usize) -> (r: Result<u32, RtpMtuError>)
    ensures
        match r {
            Ok(mtu) => mtu == max_rtp_packet_size && MIN_RTP_PACKET_SIZE <= max_rtp_packet_size
                <= u32::MAX,
            Err(RtpMtuError::TooLarge { size }) => size == max_rtp_packet_size
                && max_rtp_packet_size > u32::MAX,
            Err(RtpMtuError::TooSmall { size }) => size == max_rtp_packet_size
                && max_rtp_packet_size < MIN_RTP_PACKET_SIZE,
        },
{
    if max_rtp_packet_size > 0xffff_ffff {
        return Err(RtpMtuError::TooLarge { size: max_rtp_packet_size });
    }
    let mtu = max_rtp_packet_size as u32;
    if mtu < MIN_RTP_PACKET_SIZE {
        return Err(RtpMtuError::TooSmall { size: max_rtp_packet_size });
    }
    Ok(mtu)
}

/// Value assigned to an element property.
#[derive(Debug, Clone, Copy, PartialEq, Eq)]
pub enum SettingValue {
    UInt(u64),
    Int(i64),
    Bool(bool),
    /// An enumerated value given by its nick.
    Choice(&'static str),
    /// Caps that the pipeline's creator supplies.
    Caps(CapsRole),
    /// The output file of a recording.
    OutputPath,
}

/// Which caps a caps-valued property receives.
#[derive(Debug, Clone, Copy, PartialEq, Eq)]
pub enum CapsRole {
    /// The negotiated DMA-BUF input caps.
    Input,
    /// NV12 VA surfaces produced by the video post-processor.
    VppOutput,
    /// The selected H.264 profile.
    Profile,
    /// H.264 RTP packets.
    Rtp,
    /// Decoded DMA-BUF frames.
    Decoded,
}

/// One property assignment of a pipeline element.
#[derive(Debug, Clone, Copy, PartialEq, Eq)]
pub struct ElementSetting {
    /// Name of the element the setting applies to.
    pub element: &'static str,
    pub property: &'static str,
    pub value: SettingValue,
}

/// Settings that make a VA-API H.264 encoder favor latency: no B-frames, one
/// reference frame, fastest target usage, constant bitrate. Encoders of other
/// families keep their defaults. `has_mbbrc` says whether the encoder has the
/// macroblock bitrate-control property.
pub open spec fn spec_low_latency_settings(is_vaapi: bool, has_mbbrc: bool) -> Seq<ElementSetting> {
    if !is_vaapi {
        Seq::empty()
    } else {
        seq![
            ElementSetting { element: "h264-encoder", property: "b-frames", value: SettingValue::UInt(0) },
            ElementSetting { element: "h264-encoder", property: "ref-frames", value: SettingValue::UInt(1) },
            ElementSetting { element: "h264-encoder", property: "target-usage", value: SettingValue::UInt(7) },
        ] + (if has_mbbrc {
            seq![ElementSetting { element: "h264-encoder", property: "mbbrc", value: SettingValue::Choice("disabled") }]
        } else {
            Seq::empty()
        }) + seq![
            ElementSetting { element: "h264-encoder", property: "rate-control", value: SettingValue::Choice("cbr") },
            ElementSetting {
                element: "h264-encoder",
                property: "bitrate",
                value: SettingValue::UInt(H264_BITRATE_KBPS as u64),
            },
            ElementSetting {
                element: "h264-encoder",
                property: "cpb-size",
                value: SettingValue::UInt(H264_CPB_SIZE_KBITS as u64),
            },
            ElementSetting {
                element: "h264-encoder",
                property: "key-int-max",
                value: SettingValue::UInt(H264_KEY_INT_MAX as u64),
            },
        ]
    }
}

/// Whether an element factory belongs to the VA-API plugin family.
pub open spec fn spec_is_vaapi(factory_name: Seq<char>) -> bool {
    factory_name.len() >= 2 && factory_name.subrange(0, 2) == "va"@
}

/// The streaming encoder's settings for the encoder factory `factory_name`.
pub fn configure_low_latency_encoder(factory_name: &str, has_mbbrc: bool) -> (settings: Vec<
    ElementSetting,
>)
    ensures
        settings@ == spec_low_latency_settings(spec_is_vaapi(factory_name@), has_mbbrc),
{
    let mut settings: Vec<ElementSetting> = Vec::new();
    proof {
        reveal_strlit("va");
    }
    if !str_starts_with(factory_name, "va") {
        return settings;
    }
    settings.push(ElementSetting { element: "h264-encoder", property: "b-frames", value: SettingValue::UInt(0) });
    settings.push(ElementSetting { element: "h264-encoder", property: "ref-frames", value: SettingValue::UInt(1) });
    settings.push(ElementSetting { element: "h264-encoder", property: "target-usage", value: SettingValue::UInt(7) });
    if has_mbbrc {
        settings.push(ElementSetting { element: "h264-encoder", property: "mbbrc", value: SettingValue::Choice("disabled") });
    }
    settings.push(ElementSetting { element: "h264-encoder", property: "rate-control", value: SettingValue::Choice("cbr") });
    settings.push(ElementSetting { element: "h264-encoder", property: "bitrate", value: SettingValue::UInt(H264_BITRATE_KBPS as u64) });
    settings.push(ElementSetting { element: "h264-encoder", property: "cpb-size", value: SettingValue::UInt(H264_CPB_SIZE_KBITS as u64) });
    settings.push(ElementSetting { element: "h264-encoder", property: "key-int-max", value: SettingValue::UInt(H264_KEY_INT_MAX as u64) });
    assert(settings@ =~= spec_low_latency_settings(true, has_mbbrc));
    settings
}

/// Key-frame interval of a recording: about two seconds of frames, kept
/// between `RECORD_KEY_INT_MIN` and `RECORD_KEY_INT_MAX`.
pub open spec fn spec_recording_key_int(frame_rate: FrameRate) -> u32 {
    let denominator: int = if frame_rate.denominator == 0 { 1 } else { frame_rate.denominator as int };
    let two_seconds: int = (2 * frame_rate.numerator) / denominator;
    if two_seconds < RECORD_KEY_INT_MIN {
        RECORD_KEY_INT_MIN
    } else if two_seconds > RECORD_KEY_INT_MAX {
        RECORD_KEY_INT_MAX
    } else {
        two_seconds as u32
    }
}

/// The recording key-frame interval for `frame_rate`.
pub fn recording_key_int_max(frame_rate: FrameRate) -> (k: u32)
    ensures
        k == spec_recording_key_int(frame_rate),
        RECORD_KEY_INT_MIN <= k <= RECORD_KEY_INT_MAX,
{
    let denominator: u64 = if frame_rate.denominator == 0 { 1 } else { frame_rate.denominator as u64 };
    let doubled: u64 = (frame_rate.numerator as u64) * 2;
    let two_seconds: u64 = doubled / denominator;
    if two_seconds < RECORD_KEY_INT_MIN as u64 {
        RECORD_KEY_INT_MIN
    } else if two_seconds > RECORD_KEY_INT_MAX as u64 {
        RECORD_KEY_INT_MAX
    } else {
        two_seconds as u32
    }
}

/// Settings that make a VA-API H.264 encoder favor quality for a recording:
/// two reference frames, balanced target usage, variable bitrate. Optional
/// properties are only set where the encoder has them.
pub open spec fn spec_recording_settings(
    is_vaapi: bool,
    has_mbbrc: bool,
    has_target_percentage: bool,
    frame_rate: FrameRate,
) -> Seq<ElementSetting> {
    if !is_vaapi {
        Seq::empty()
    } else {
        seq![
            ElementSetting { element: "h264-encoder", property: "b-frames", value: SettingValue::UInt(0) },
            ElementSetting { element: "h264-encoder", property: "ref-frames", value: SettingValue::UInt(2) },
            ElementSetting { element: "h264-encoder", property: "target-usage", value: SettingValue::UInt(4) },
        ] + (if has_mbbrc {
            seq![ElementSetting { element: "h264-encoder", property: "mbbrc", value: SettingValue::Choice("disabled") }]
        } else {
            Seq::empty()
        }) + seq![
            ElementSetting { element: "h264-encoder", property: "rate-control", value: SettingValue::Choice("vbr") },
            ElementSetting {
                element: "h264-encoder",
                property: "bitrate",
                value: SettingValue::UInt(RECORD_BITRATE_KBPS as u64),
            },
        ] + (if has_target_percentage {
            seq![ElementSetting { element: "h264-encoder", property: "target-percentage", value: SettingValue::UInt(95) }]
        } else {
            Seq::empty()
        }) + seq![
            ElementSetting {
                element: "h264-encoder",
                property: "cpb-size",
                value: SettingValue::UInt(RECORD_CPB_SIZE_KBITS as u64),
            },
            ElementSetting {
                element: "h264-encoder",
                property: "key-int-max",
                value: SettingValue::UInt(spec_recording_key_int(frame_rate) as u64),
            },
        ]
    }
}

/// The recording encoder's settings for the encoder factory `factory_name`.
pub fn configure_recording_encoder(
    factory_name: &str,
    has_mbbrc: bool,
    has_target_percentage: bool,
    frame_rate: FrameRate,
) -> (settings: Vec<ElementSetting>)
    ensures
        settings@ == spec_recording_settings(
            spec_is_vaapi(factory_name@),
            has_mbbrc,
            has_target_percentage,
            frame_rate,
        ),
{
    let mut settings: Vec<ElementSetting> = Vec::new();
    proof {
        reveal_strlit("va");
    }
    if !str_starts_with(factory_name, "va") {
        return settings;
    }
    settings.push(ElementSetting { element: "h264-encoder", property: "b-frames", value: SettingValue::UInt(0) });
    settings.push(ElementSetting { element: "h264-encoder", property: "ref-frames", value: SettingValue::UInt(2) });
    settings.push(ElementSetting { element: "h264-encoder", property: "target-usage", value: SettingValue::UInt(4) });
    if has_mbbrc {
        settings.push(ElementSetting { element: "h264-encoder", property: "mbbrc", value: SettingValue::Choice("disabled") });
    }
    settings.push(ElementSetting { element: "h264-encoder", property: "rate-control", value: SettingValue::Choice("vbr") });
    settings.push(ElementSetting { element: "h264-encoder", property: "bitrate", value: SettingValue::UInt(RECORD_BITRATE_KBPS as u64) });
    if has_target_percentage {
        settings.push(ElementSetting { element: "h264-encoder", property: "target-percentage", value: SettingValue::UInt(95) });
    }
    settings.push(ElementSetting { element: "h264-encoder", property: "cpb-size", value: SettingValue::UInt(RECORD_CPB_SIZE_KBITS as u64) });
    let key_int = recording_key_int_max(frame_rate);
    settings.push(ElementSetting { element: "h264-encoder", property: "key-int-max", value: SettingValue::UInt(key_int as u64) });
    assert(settings@ =~= spec_recording_settings(true, has_mbbrc, has_target_percentage, frame_rate));
    settings
}

/// Why a frame rate gives no frame duration.
#[derive(Debug, Clone, Copy, PartialEq, Eq)]
pub enum FrameDurationError {
    /// The frame rate has a zero numerator.
    InvalidFrameRate,
    /// One frame lasts less than a nanosecond.
    ZeroDuration,
}

/// Duration of one frame at `frame_rate`, in whole nanoseconds.
pub open spec fn spec_frame_duration_ns(frame_rate: FrameRate) -> int {
    (1_000_000_000 * frame_rate.denominator) / (frame_rate.numerator as int)
}

/// The duration of one frame at `frame_rate` in nanoseconds, rounded down.
pub fn frame_duration_ns(frame_rate: FrameRate) -> (r: Result<u64, FrameDurationError>)
    ensures
        match r {
            Ok(ns) => frame_rate.numerator > 0 && ns == spec_frame_duration_ns(frame_rate) && ns > 0,
            Err(FrameDurationError::InvalidFrameRate) => frame_rate.numerator == 0,
            Err(FrameDurationError::ZeroDuration) => frame_rate.numerator > 0
                && spec_frame_duration_ns(frame_rate) == 0,
        },
{
    if frame_rate.numerator == 0 {
        return Err(FrameDurationError::InvalidFrameRate);
    }
    let scaled: u64 = 1_000_000_000u64 * (frame_rate.denominator as u64);
    let nanos: u64 = scaled / (frame_rate.numerator as u64);
    if nanos == 0 {
        return Err(FrameDurationError::ZeroDuration);
    }
    Ok(nanos)
}

/// Presentation time of recorded frame number `index`, if it fits 64 bits.
pub fn recording_pts(frame_duration_ns: u64, index: u64) -> (r: Option<u64>)
    ensures
        match r {
            Some(pts) => pts == frame_duration_ns * index,
            None => frame_duration_ns * index > u64::MAX,
        },
{
    frame_duration_ns.checked_mul(index)
}

/// Why a recorder refused a frame.
#[derive(Debug, Clone, Copy, PartialEq, Eq)]
pub enum RecordingError {
    /// The frame pipeline's source frame rate differs from the one the
    /// recorder was created for.
    SourceFrameRateChanged,
    /// The frame's input signature differs from the negotiated one.
    InputChanged,
    /// The frame's presentation time does not fit 64 bits of nanoseconds.
    PtsOverflow,
    /// The frame counter does not fit 64 bits.
    FrameIndexOverflow,
}

/// The timing a recorded frame is stamped with: its presentation (and
/// decoding) time and its duration, in nanoseconds.
#[derive(Debug, Clone, Copy, PartialEq, Eq)]
pub struct RecordedFrameTiming {
    pub pts_ns: u64,
    pub duration_ns: u64,
}

/// What a recorder checks and counts of the frames it writes: the source
/// frame rate and input signature it was created for, the duration of one
/// frame and the number of the next frame.
#[derive(Debug, Clone, Copy, PartialEq, Eq)]
pub struct RecordingClock {
    pub source_frame_rate: FrameRate,
    pub signature: DmaBufInputSignature,
    pub frame_duration_ns: u64,
    pub next_frame_index: u64,
}

impl RecordingClock {
    /// A recorder's clock before its first frame.
    pub fn new(source_frame_rate: FrameRate, signature: DmaBufInputSignature, frame_duration_ns: u64) -> (c: Self)
        ensures
            c == (RecordingClock { source_frame_rate, signature, frame_duration_ns, next_frame_index: 0 }),
    {
        RecordingClock { source_frame_rate, signature, frame_duration_ns, next_frame_index: 0 }
    }

    /// A pipeline frame is recorded only at the source frame rate the
    /// recorder was created for.
    pub fn check_source_frame_rate(&self, rate: FrameRate) -> (r: Result<(), RecordingError>)
        ensures
            r == if rate == self.source_frame_rate {
                Ok::<(), RecordingError>(())
            } else {
                Err(RecordingError::SourceFrameRateChanged)
            },
    {
        if rate == self.source_frame_rate {
            Ok(())
        } else {
            Err(RecordingError::SourceFrameRateChanged)
        }
    }

    /// The timing of the next frame, whose input signature is `signature`: a
    /// frame whose signature changed is refused, and so is one whose
    /// presentation time (frame duration times frame number) overflows.
    pub fn frame_timing(&self, signature: DmaBufInputSignature) -> (r: Result<RecordedFrameTiming, RecordingError>)
        ensures
            r == if signature != self.signature {
                Err(RecordingError::InputChanged)
            } else if self.frame_duration_ns * self.next_frame_index > u64::MAX {
                Err(RecordingError::PtsOverflow)
            } else {
                Ok(
                    RecordedFrameTiming {
                        pts_ns: (self.frame_duration_ns * self.next_frame_index) as u64,
                        duration_ns: self.frame_duration_ns,
                    },
                )
            },
    {
        if signature != self.signature {
            return Err(RecordingError::InputChanged);
        }
        match recording_pts(self.frame_duration_ns, self.next_frame_index) {
            Some(pts_ns) => Ok(RecordedFrameTiming { pts_ns, duration_ns: self.frame_duration_ns }),
            None => Err(RecordingError::PtsOverflow),
        }
    }

    /// Counts a frame that was handed to the recorder; the counter does not
    /// wrap: at its largest value this is an error and the clock is unchanged.
    pub fn frame_submitted(&mut self) -> (r: Result<(), RecordingError>)
        ensures
            old(self).next_frame_index == u64::MAX ==> r == Err::<(), RecordingError>(
                RecordingError::FrameIndexOverflow,
            ) && *final(self) == *old(self),
            old(self).next_frame_index < u64::MAX ==> r == Ok::<(), RecordingError>(()) && *final(self)
                == (RecordingClock { next_frame_index: (old(self).next_frame_index + 1) as u64, ..*old(self) }),
    {
        match self.next_frame_index.checked_add(1) {
            Some(next) => {
                self.next_frame_index = next;
                Ok(())
            },
            None => Err(RecordingError::FrameIndexOverflow),
        }
    }
}

/// Recorded frames carry evenly spaced presentation times: once a frame is
/// counted, the next frame is stamped one frame duration later, so with a
/// positive duration the stamps strictly increase.
pub proof fn recorded_frames_are_evenly_spaced(c: RecordingClock)
    requires
        c.next_frame_index < u64::MAX,
    ensures
        ({
            let next = RecordingClock { next_frame_index: (c.next_frame_index + 1) as u64, ..c };
            &&& next.frame_duration_ns * next.next_frame_index == c.frame_duration_ns * c.next_frame_index
                + c.frame_duration_ns
            &&& c.frame_duration_ns > 0 ==> next.frame_duration_ns * next.next_frame_index
                > c.frame_duration_ns * c.next_frame_index
        }),
{
    let d = c.frame_duration_ns as int;
    let k = c.next_frame_index as int;
    assert(d * (k + 1) == d * k + d) by (nonlinear_arith);
}

/// Whether `word` is one of the `/`-separated components of `klass`.
pub open spec fn spec_has_component(klass: Seq<char>, word: Seq<char>) -> bool {
    exists|i: int|
        0 <= i && i + word.len() <= klass.len() && (i == 0 || klass[i - 1] == '/') && (i
            + word.len() == klass.len() || klass[i + word.len()] == '/') && #[trigger] klass.subrange(
            i,
            i + word.len(),
        ) == word
}

/// The `/`-separated parts of `s`, as splitting a string at `/` gives them:
/// one more part than there are separators, empty parts included.
pub open spec fn spec_split_parts(s: Seq<char>) -> Seq<Seq<char>>
    decreases s.len(),
{
    if s.len() == 0 {
        seq![Seq::<char>::empty()]
    } else {
        let parts = spec_split_parts(s.drop_last());
        if s.last() == '/' {
            parts.push(Seq::<char>::empty())
        } else {
            parts.update(parts.len() - 1, parts.last().push(s.last()))
        }
    }
}

/// Whether `w` contains no `/`.
pub open spec fn spec_no_separator(w: Seq<char>) -> bool {
    forall|k: int| 0 <= k < w.len() ==> w[k] != '/'
}

/// Where the last part of `s` starts: just after its last `/`, or at 0.
spec fn last_part_start(s: Seq<char>) -> int
    decreases s.len(),
{
    if s.len() == 0 {
        0
    } else if s.last() == '/' {
        s.len() as int
    } else {
        last_part_start(s.drop_last())
    }
}

/// `w` stands at `i` as a whole part that a `/` ends.
spec fn part_before_separator(s: Seq<char>, w: Seq<char>, i: int) -> bool {
    &&& 0 <= i
    &&& i + w.len() < s.len()
    &&& (i == 0 || s[i - 1] == '/')
    &&& s[i + w.len()] == '/'
    &&& s.subrange(i, i + w.len()) == w
}

/// `w` stands at `i` as the last part.
spec fn part_at_end(s: Seq<char>, w: Seq<char>, i: int) -> bool {
    &&& 0 <= i
    &&& i + w.len() == s.len()
    &&& (i == 0 || s[i - 1] == '/')
    &&& s.subrange(i, i + w.len()) == w
}

proof fn lemma_last_part_start(s: Seq<char>)
    ensures
        0 <= last_part_start(s) <= s.len(),
        last_part_start(s) == 0 || s[last_part_start(s) - 1] == '/',
        forall|k: int| last_part_start(s) <= k < s.len() ==> s[k] != '/',
    decreases s.len(),
{
    if s.len() > 0 {
        lemma_last_part_start(s.drop_last());
        if s.last() != '/' {
            let t = s.drop_last();
            assert forall|k: int| last_part_start(s) <= k < s.len() implies s[k] != '/' by {
                if k < t.len() {
                    assert(s[k] == t[k]);
                }
            }
            if last_part_start(s) > 0 {
                assert(s[last_part_start(s) - 1] == t[last_part_start(s) - 1]);
            }
        }
    }
}

/// A word without `/` stands at the end as a whole part exactly when it is
/// the last part.
proof fn lemma_part_at_end(s: Seq<char>, w: Seq<char>)
    requires
        spec_no_separator(w),
    ensures
        (exists|i: int| part_at_end(s, w, i)) <==> w == s.subrange(last_part_start(s), s.len() as int),
{
    lemma_last_part_start(s);
    let p = last_part_start(s);
    if exists|i: int| part_at_end(s, w, i) {
        let i = choose|i: int| part_at_end(s, w, i);
        if i < p {
            assert(s.subrange(i, i + w.len())[p - 1 - i] == s[p - 1]);
            assert(w[p - 1 - i] == '/');
        }
        if i > p {
            assert(s[i - 1] == '/');
        }
        assert(i == p);
    }
    if w == s.subrange(p, s.len() as int) {
        assert(part_at_end(s, w, p));
    }
}

proof fn lemma_split_parts(s: Seq<char>, w: Seq<char>)
    requires
        spec_no_separator(w),
    ensures
        spec_split_parts(s).len() >= 1,
        spec_split_parts(s).last() == s.subrange(last_part_start(s), s.len() as int),
        (exists|j: int| 0 <= j < spec_split_parts(s).len() - 1 && #[trigger] spec_split_parts(s)[j] == w)
            <==> (exists|i: int| part_before_separator(s, w, i)),
    decreases s.len(),
{
    if s.len() == 0 {
        assert(s.subrange(0, 0) =~= Seq::<char>::empty());
    } else {
        let t = s.drop_last();
        lemma_split_parts(t, w);
        let pt = spec_split_parts(t);
        let ps = spec_split_parts(s);
        assert(forall|k: int| 0 <= k < t.len() ==> s[k] == t[k]);
        if s.last() == '/' {
            assert(s.subrange(s.len() as int, s.len() as int) =~= Seq::<char>::empty());
            lemma_part_at_end(t, w);
            // Parts before the last one of `s` are all parts of `t`.
            if exists|j: int| 0 <= j < ps.len() - 1 && #[trigger] ps[j] == w {
                let j = choose|j: int| 0 <= j < ps.len() - 1 && #[trigger] ps[j] == w;
                if j < pt.len() - 1 {
                    let i = choose|i: int| part_before_separator(t, w, i);
                    assert(s.subrange(i, i + w.len()) =~= t.subrange(i, i + w.len()));
                    assert(part_before_separator(s, w, i));
                } else {
                    assert(w == t.subrange(last_part_start(t), t.len() as int));
                    let i = choose|i: int| part_at_end(t, w, i);
                    assert(s.subrange(i, i + w.len()) =~= t.subrange(i, i + w.len()));
                    assert(part_before_separator(s, w, i));
                }
            }
            if exists|i: int| part_before_separator(s, w, i) {
                let i = choose|i: int| part_before_separator(s, w, i);
                assert(s.subrange(i, i + w.len()) =~= t.subrange(i, i + w.len()));
                if i + w.len() < t.len() {
                    assert(part_before_separator(t, w, i));
                    let j = choose|j: int| 0 <= j < pt.len() - 1 && #[trigger] pt[j] == w;
                    assert(ps[j] == w);
                } else {
                    assert(part_at_end(t, w, i));
                    assert(ps[pt.len() - 1] == w);
                }
            }
        } else {
            lemma_last_part_start(t);
            assert(last_part_start(s) == last_part_start(t));
            assert(s.subrange(last_part_start(s), s.len() as int) =~= t.subrange(
                last_part_start(t),
                t.len() as int,
            ).push(s.last()));
            if exists|j: int| 0 <= j < ps.len() - 1 && #[trigger] ps[j] == w {
                let j = choose|j: int| 0 <= j < ps.len() - 1 && #[trigger] ps[j] == w;
                assert(pt[j] == w);
                let i = choose|i: int| part_before_separator(t, w, i);
                assert(s.subrange(i, i + w.len()) =~= t.subrange(i, i + w.len()));
                assert(part_before_separator(s, w, i));
            }
            if exists|i: int| part_before_separator(s, w, i) {
                let i = choose|i: int| part_before_separator(s, w, i);
                assert(s.subrange(i, i + w.len()) =~= t.subrange(i, i + w.len()));
                assert(i + w.len() < t.len());
                assert(part_before_separator(t, w, i));
                let j = choose|j: int| 0 <= j < pt.len() - 1 && #[trigger] pt[j] == w;
                assert(ps[j] == w);
            }
        }
    }
}

/// A word without `/` is a whole `/`-separated component of `klass` exactly
/// when it is one of the parts that splitting `klass` at `/` gives.
pub proof fn component_is_a_split_part(klass: Seq<char>, word: Seq<char>)
    requires
        spec_no_separator(word),
    ensures
        spec_has_component(klass, word) <==> spec_split_parts(klass).contains(word),
{
    lemma_split_parts(klass, word);
    lemma_part_at_end(klass, word);
    let parts = spec_split_parts(klass);
    if spec_has_component(klass, word) {
        let i = choose|i: int|
            0 <= i && i + word.len() <= klass.len() && (i == 0 || klass[i - 1] == '/') && (i
                + word.len() == klass.len() || klass[i + word.len()] == '/') && #[trigger] klass.subrange(
                i,
                i + word.len(),
            ) == word;
        if i + word.len() == klass.len() {
            assert(part_at_end(klass, word, i));
            assert(parts[parts.len() - 1] == word);
        } else {
            assert(part_before_separator(klass, word, i));
            let j = choose|j: int| 0 <= j < parts.len() - 1 && #[trigger] parts[j] == word;
            assert(parts[j] == word);
        }
    }
    if parts.contains(word) {
        let j = choose|j: int| 0 <= j < parts.len() && parts[j] == word;
        if j < parts.len() - 1 {
            let i = choose|i: int| part_before_separator(klass, word, i);
            assert(klass.subrange(i, i + word.len()) == word);
        } else {
            let i = choose|i: int| part_at_end(klass, word, i);
            assert(klass.subrange(i, i + word.len()) == word);
        }
    }
}

/// Whether the characters of `s` at `start` spell `word`.
fn matches_at(s: &str, start: usize, word: &str) -> (r: bool)
    requires
        start + word@.len() <= s@.len(),
        s@.len() <= usize::MAX,
    ensures
        r == (s@.subrange(start as int, start + word@.len()) == word@),
{
    let n = word.unicode_len();
    let mut k: usize = 0;
    while k < n
        invariant
            n == word@.len(),
            k <= n,
            start + n <= s@.len(),
            s@.len() <= usize::MAX,
            forall|j: int| 0 <= j < k ==> s@[start + j] == word@[j],
        decreases n - k,
    {
        if s.get_char(start + k) != word.get_char(k) {
            assert(s@.subrange(start as int, start + n)[k as int] != word@[k as int]);
            return false;
        }
        k = k + 1;
    }
    assert(s@.subrange(start as int, start + n) =~= word@);
    true
}

/// Whether `word` is one of the `/`-separated components of `klass`.
pub fn has_component(klass: &str, word: &str) -> (r: bool)
    ensures
        r == spec_has_component(klass@, word@),
{
    let len = klass.unicode_len();
    let n = word.unicode_len();
    if n > len {
        return false;
    }
    let mut i: usize = 0;
    while i <= len - n
        invariant
            len == klass@.len(),
            n == word@.len(),
            n <= len,
            i <= len - n + 1,
            forall|j: int|
                0 <= j < i ==> !((j == 0 || klass@[j - 1] == '/') && (j + n == len || klass@[j
                    + n] == '/') && #[trigger] klass@.subrange(j, j + n) == word@),
        decreases len - n + 1 - i,
    {
        let starts_segment = i == 0 || klass.get_char(i - 1) == '/';
        let ends_segment = i + n == len || klass.get_char(i + n) == '/';
        if starts_segment && ends_segment && matches_at(klass, i, word) {
            return true;
        }
        if i == len - n {
            return false;
        }
        i = i + 1;
    }
    false
}

/// Whether an element's classification marks it as a hardware video encoder.
pub open spec fn spec_is_hardware_video_encoder(klass: Option<Seq<char>>) -> bool {
    match klass {
        Some(k) => spec_has_component(k, "Encoder"@) && spec_has_component(k, "Video"@)
            && spec_has_component(k, "Hardware"@),
        None => false,
    }
}

/// Whether an element's classification marks it as a hardware video decoder.
pub open spec fn spec_is_hardware_video_decoder(klass: Option<Seq<char>>) -> bool {
    match klass {
        Some(k) => spec_has_component(k, "Decoder"@) && spec_has_component(k, "Video"@)
            && spec_has_component(k, "Hardware"@),
        None => false,
    }
}

/// The view of an optional string.
pub open spec fn opt_view(s: Option<&str>) -> Option<Seq<char>> {
    match s {
        Some(v) => Some(v@),
        None => None,
    }
}

/// Whether an element whose factory has the classification `klass` (the
/// `klass` metadata, `/`-separated) is a hardware video encoder.
pub fn is_hardware_video_encoder(klass: Option<&str>) -> (r: bool)
    ensures
        r == spec_is_hardware_video_encoder(opt_view(klass)),
        r == (klass matches Some(k) && spec_split_parts(k@).contains("Encoder"@)
            && spec_split_parts(k@).contains("Video"@) && spec_split_parts(k@).contains(
            "Hardware"@,
        )),
{
    proof {
        reveal_strlit("Encoder");
        reveal_strlit("Video");
        reveal_strlit("Hardware");
        if klass is Some {
            component_is_a_split_part(klass->0@, "Encoder"@);
            component_is_a_split_part(klass->0@, "Video"@);
            component_is_a_split_part(klass->0@, "Hardware"@);
        }
    }
    match klass {
        Some(k) => has_component(k, "Encoder") && has_component(k, "Video") && has_component(
            k,
            "Hardware",
        ),
        None => false,
    }
}

/// Whether an element whose factory has the classification `klass` is a
/// hardware video decoder.
pub fn is_hardware_video_decoder(klass: Option<&str>) -> (r: bool)
    ensures
        r == spec_is_hardware_video_decoder(opt_view(klass)),
        r == (klass matches Some(k) && spec_split_parts(k@).contains("Decoder"@)
            && spec_split_parts(k@).contains("Video"@) && spec_split_parts(k@).contains(
            "Hardware"@,
        )),
{
    proof {
        reveal_strlit("Decoder");
        reveal_strlit("Video");
        reveal_strlit("Hardware");
        if klass is Some {
            component_is_a_split_part(klass->0@, "Decoder"@);
            component_is_a_split_part(klass->0@, "Video"@);
            component_is_a_split_part(klass->0@, "Hardware"@);
        }
    }
    match klass {
        Some(k) => has_component(k, "Decoder") && has_component(k, "Video") && has_component(
            k,
            "Hardware",
        ),
        None => false,
    }
}

/// What the media framework reports of an input caps object: how many
/// structures it has, whether it is fixed, whether its first structure carries
/// the DMA-BUF memory feature, and that structure's `format` and `drm-format`
/// strings.
#[derive(Debug, Clone)]
pub struct InputCapsSummary {
    pub structure_count: usize,
    pub fixed: bool,
    pub dma_buf_memory: bool,
    pub format: Option<String>,
    pub drm_format: Option<String>,
}

/// The view of an optional string.
pub open spec fn opt_string_view(s: Option<String>) -> Option<Seq<char>> {
    match s {
        Some(v) => Some(v@),
        None => None,
    }
}

/// Whether `drm_format` names `fourcc`, bare or followed by `:` and a modifier.
pub open spec fn spec_names_fourcc(drm_format: Seq<char>, fourcc: Seq<char>) -> bool {
    drm_format == fourcc || (drm_format.len() >= fourcc.len() + 1 && drm_format.subrange(
        0,
        fourcc.len() + 1 as int,
    ) == fourcc.push(':'))
}

/// Whether caps describe one fixed DMA-BUF structure in DRM format `fourcc`.
pub open spec fn spec_is_dmabuf_input_caps(caps: InputCapsSummary, fourcc: Seq<char>) -> bool {
    &&& caps.structure_count == 1
    &&& caps.fixed
    &&& caps.dma_buf_memory
    &&& opt_string_view(caps.format) == Some("DMA_DRM"@)
    &&& match opt_string_view(caps.drm_format) {
        Some(f) => spec_names_fourcc(f, fourcc),
        None => false,
    }
}

fn is_dmabuf_input_caps(caps: &InputCapsSummary, bare: &str, with_modifier: &str) -> (r: bool)
    requires
        with_modifier@ == bare@.push(':'),
    ensures
        r == spec_is_dmabuf_input_caps(*caps, bare@),
{
    if caps.structure_count != 1 || !caps.fixed || !caps.dma_buf_memory {
        return false;
    }
    let format_ok = match &caps.format {
        Some(f) => str_equals(f.as_str(), "DMA_DRM"),
        None => false,
    };
    if !format_ok {
        return false;
    }
    match &caps.drm_format {
        Some(f) => str_equals(f.as_str(), bare) || str_starts_with(f.as_str(), with_modifier),
        None => false,
    }
}

/// Whether input caps describe fixed NV12 DMA-BUF frames.
pub fn is_nv12_dmabuf_input_caps(caps: &InputCapsSummary) -> (r: bool)
    ensures
        r == spec_is_dmabuf_input_caps(*caps, "NV12"@),
{
    proof {
        reveal_strlit("NV12");
        reveal_strlit("NV12:");
        assert("NV12:"@ =~= "NV12"@.push(':'));
    }
    is_dmabuf_input_caps(caps, "NV12", "NV12:")
}

/// Whether input caps describe fixed XRGB8888 DMA-BUF frames.
pub fn is_xrgb_dmabuf_input_caps(caps: &InputCapsSummary) -> (r: bool)
    ensures
        r == spec_is_dmabuf_input_caps(*caps, "XR24"@),
{
    proof {
        reveal_strlit("XR24");
        reveal_strlit("XR24:");
        assert("XR24:"@ =~= "XR24"@.push(':'));
    }
    is_dmabuf_input_caps(caps, "XR24", "XR24:")
}

/// Frames the hardware encoder pipelines accept.
#[derive(Debug, Clone, Copy, PartialEq, Eq, Structural)]
pub enum H264InputKind {
    /// NV12 frames go straight to the encoder.
    Nv12,
    /// XRGB frames are converted to NV12 by the video post-processor first.
    Xrgb,
}

/// The kind of encoder input that caps describe; XRGB is tested first.
pub fn h264_input_kind(caps: &InputCapsSummary) -> (r: Option<H264InputKind>)
    ensures
        r == (if spec_is_dmabuf_input_caps(*caps, "XR24"@) {
            Some(H264InputKind::Xrgb)
        } else if spec_is_dmabuf_input_caps(*caps, "NV12"@) {
            Some(H264InputKind::Nv12)
        } else {
            None
        }),
{
    if is_xrgb_dmabuf_input_caps(caps) {
        Some(H264InputKind::Xrgb)
    } else if is_nv12_dmabuf_input_caps(caps) {
        Some(H264InputKind::Nv12)
    } else {
        None
    }
}

/// An H.264 profile: the name it is reported under and the caps value that
/// selects it.
#[derive(Debug, Clone, Copy, PartialEq, Eq)]
pub struct H264Profile {
    pub name: &'static str,
    pub caps_profile: &'static str,
}

/// Profiles in order of preference: High, Main, constrained Baseline, Baseline.
pub open spec fn spec_h264_profile_candidates() -> Seq<H264Profile> {
    seq![
        H264Profile { name: "high", caps_profile: "high" },
        H264Profile { name: "main", caps_profile: "main" },
        H264Profile { name: "baseline", caps_profile: "constrained-baseline" },
        H264Profile { name: "baseline", caps_profile: "baseline" },
    ]
}

/// The profiles an encoder is asked about, in order of preference.
pub fn h264_profile_candidates() -> (c: [H264Profile; 4])
    ensures
        c@ == spec_h264_profile_candidates(),
{
    let c = [
        H264Profile { name: "high", caps_profile: "high" },
        H264Profile { name: "main", caps_profile: "main" },
        H264Profile { name: "baseline", caps_profile: "constrained-baseline" },
        H264Profile { name: "baseline", caps_profile: "baseline" },
    ];
    assert(c@ =~= spec_h264_profile_candidates());
    c
}

/// The most preferred profile the encoder supports; `supported[i]` says whether
/// the encoder's output caps intersect candidate `i`.
pub fn select_h264_profile(supported: [bool; 4]) -> (r: Option<H264Profile>)
    ensures
        match r {
            Some(p) => exists|i: int|
                0 <= i < 4 && supported@[i] && p == spec_h264_profile_candidates()[i] && forall|
                    j: int,
                | 0 <= j < i ==> !supported@[j],
            None => forall|i: int| 0 <= i < 4 ==> !supported@[i],
        },
{
    let candidates = h264_profile_candidates();
    let mut i: usize = 0;
    while i < 4
        invariant
            i <= 4,
            candidates@ == spec_h264_profile_candidates(),
            forall|j: int| 0 <= j < i ==> !supported@[j],
        decreases 4 - i,
    {
        if supported[i] {
            return Some(candidates[i]);
        }
        i = i + 1;
    }
    None
}

/// Which element a pipeline stage is made of.
#[derive(Debug, Clone, Copy, PartialEq, Eq)]
pub enum StageElement {
    /// An element of the named factory.
    Factory(&'static str),
    /// The selected hardware H.264 encoder.
    HardwareEncoder,
    /// The selected hardware H.264 decoder.
    HardwareDecoder,
}

/// One element of a pipeline, with the name it is created under.
#[derive(Debug, Clone, Copy, PartialEq, Eq)]
pub struct PipelineStage {
    pub element: StageElement,
    pub name: &'static str,
}

/// A pipeline plan: its elements in link order, then the property settings to
/// apply before the pipeline starts, in order.
#[derive(Debug, Clone)]
pub struct PipelinePlan {
    pub stages: Vec<PipelineStage>,
    pub settings: Vec<ElementSetting>,
}

pub open spec fn stage(element: StageElement, name: &'static str) -> PipelineStage {
    PipelineStage { element, name }
}

pub open spec fn setting(element: &'static str, property: &'static str, value: SettingValue) -> ElementSetting {
    ElementSetting { element, property, value }
}

/// The settings that bound a queue to `buffers` buffers and nothing else.
pub open spec fn spec_queue_settings(name: &'static str, buffers: u64) -> Seq<ElementSetting> {
    seq![
        setting(name, "max-size-buffers", SettingValue::UInt(buffers)),
        setting(name, "max-size-bytes", SettingValue::UInt(0)),
        setting(name, "max-size-time", SettingValue::UInt(0)),
    ]
}

/// Link order of the streaming encoder: live source, optional post-processor,
/// encoder, profile filter, output queue, parser, RTP payloader, sink.
pub open spec fn spec_encoder_stages(kind: H264InputKind) -> Seq<PipelineStage> {
    seq![stage(StageElement::Factory("appsrc"), "video-input")] + (if kind == H264InputKind::Xrgb {
        seq![
            stage(StageElement::Factory("vapostproc"), "video-postprocessor"),
            stage(StageElement::Factory("capsfilter"), "video-postprocessor-output"),
            stage(StageElement::Factory("queue"), "processed-frame-queue"),
        ]
    } else {
        Seq::empty()
    }) + seq![
        stage(StageElement::HardwareEncoder, "h264-encoder"),
        stage(StageElement::Factory("capsfilter"), "h264-profile"),
        stage(StageElement::Factory("queue"), "encoded-output-queue"),
        stage(StageElement::Factory("h264parse"), "h264-parser"),
        stage(StageElement::Factory("rtph264pay"), "rtp-payloader"),
        stage(StageElement::Factory("appsink"), "rtp-output"),
    ]
}

/// Settings of the streaming encoder pipeline apart from the encoder's own: a
/// live source that keeps one frame and drops older ones, one-frame queues,
/// and a payloader that repeats parameter sets with every key frame.
pub open spec fn spec_encoder_settings(kind: H264InputKind, mtu: u32) -> Seq<ElementSetting> {
    seq![
        setting("video-input", "caps", SettingValue::Caps(CapsRole::Input)),
        setting("video-input", "format", SettingValue::Choice("time")),
        setting("video-input", "is-live", SettingValue::Bool(true)),
        setting("video-input", "do-timestamp", SettingValue::Bool(true)),
        setting("video-input", "max-buffers", SettingValue::UInt(1)),
        setting("video-input", "leaky-type", SettingValue::Choice("downstream")),
        setting("h264-profile", "caps", SettingValue::Caps(CapsRole::Profile)),
    ] + (if kind == H264InputKind::Xrgb {
        seq![setting("video-postprocessor-output", "caps", SettingValue::Caps(CapsRole::VppOutput))]
            + spec_queue_settings("processed-frame-queue", 1) + seq![
            setting("processed-frame-queue", "leaky", SettingValue::Choice("downstream")),
        ]
    } else {
        Seq::empty()
    }) + spec_queue_settings("encoded-output-queue", 2) + seq![
        setting("rtp-payloader", "mtu", SettingValue::UInt(mtu as u64)),
        setting("rtp-payloader", "config-interval", SettingValue::Int(-1i64)),
        setting("rtp-output", "caps", SettingValue::Caps(CapsRole::Rtp)),
        setting("rtp-output", "async", SettingValue::Bool(false)),
        setting("rtp-output", "sync", SettingValue::Bool(false)),
    ]
}

fn push_queue_settings(settings: &mut Vec<ElementSetting>, name: &'static str, buffers: u64)
    ensures
        final(settings)@ == old(settings)@ + spec_queue_settings(name, buffers),
{
    settings.push(ElementSetting { element: name, property: "max-size-buffers", value: SettingValue::UInt(buffers) });
    settings.push(ElementSetting { element: name, property: "max-size-bytes", value: SettingValue::UInt(0) });
    settings.push(ElementSetting { element: name, property: "max-size-time", value: SettingValue::UInt(0) });
    assert(final(settings)@ =~= old(settings)@ + spec_queue_settings(name, buffers));
}

/// The plan of the low-latency RTP encoding pipeline for `kind` input whose
/// payloader emits packets of at most `mtu` bytes.
pub fn h264_encoder_pipeline(kind: H264InputKind, mtu: u32) -> (plan: PipelinePlan)
    ensures
        plan.stages@ == spec_encoder_stages(kind),
        plan.settings@ == spec_encoder_settings(kind, mtu),
{
    let mut stages: Vec<PipelineStage> = Vec::new();
    stages.push(PipelineStage { element: StageElement::Factory("appsrc"), name: "video-input" });
    if kind == H264InputKind::Xrgb {
        stages.push(PipelineStage { element: StageElement::Factory("vapostproc"), name: "video-postprocessor" });
        stages.push(PipelineStage { element: StageElement::Factory("capsfilter"), name: "video-postprocessor-output" });
        stages.push(PipelineStage { element: StageElement::Factory("queue"), name: "processed-frame-queue" });
    }
    stages.push(PipelineStage { element: StageElement::HardwareEncoder, name: "h264-encoder" });
    stages.push(PipelineStage { element: StageElement::Factory("capsfilter"), name: "h264-profile" });
    stages.push(PipelineStage { element: StageElement::Factory("queue"), name: "encoded-output-queue" });
    stages.push(PipelineStage { element: StageElement::Factory("h264parse"), name: "h264-parser" });
    stages.push(PipelineStage { element: StageElement::Factory("rtph264pay"), name: "rtp-payloader" });
    stages.push(PipelineStage { element: StageElement::Factory("appsink"), name: "rtp-output" });
    assert(stages@ =~= spec_encoder_stages(kind));

    let mut settings: Vec<ElementSetting> = Vec::new();
    settings.push(ElementSetting { element: "video-input", property: "caps", value: SettingValue::Caps(CapsRole::Input) });
    settings.push(ElementSetting { element: "video-input", property: "format", value: SettingValue::Choice("time") });
    settings.push(ElementSetting { element: "video-input", property: "is-live", value: SettingValue::Bool(true) });
    settings.push(ElementSetting { element: "video-input", property: "do-timestamp", value: SettingValue::Bool(true) });
    settings.push(ElementSetting { element: "video-input", property: "max-buffers", value: SettingValue::UInt(1) });
    settings.push(ElementSetting { element: "video-input", property: "leaky-type", value: SettingValue::Choice("downstream") });
    settings.push(ElementSetting { element: "h264-profile", property: "caps", value: SettingValue::Caps(CapsRole::Profile) });
    let ghost head = settings@;
    if kind == H264InputKind::Xrgb {
        settings.push(ElementSetting { element: "video-postprocessor-output", property: "caps", value: SettingValue::Caps(CapsRole::VppOutput) });
        push_queue_settings(&mut settings, "processed-frame-queue", 1);
        settings.push(ElementSetting { element: "processed-frame-queue", property: "leaky", value: SettingValue::Choice("downstream") });
    }
    let ghost with_vpp = settings@;
    push_queue_settings(&mut settings, "encoded-output-queue", 2);
    settings.push(ElementSetting { element: "rtp-payloader", property: "mtu", value: SettingValue::UInt(mtu as u64) });
    settings.push(ElementSetting { element: "rtp-payloader", property: "config-interval", value: SettingValue::Int(-1) });
    settings.push(ElementSetting { element: "rtp-output", property: "caps", value: SettingValue::Caps(CapsRole::Rtp) });
    settings.push(ElementSetting { element: "rtp-output", property: "async", value: SettingValue::Bool(false) });
    settings.push(ElementSetting { element: "rtp-output", property: "sync", value: SettingValue::Bool(false) });
    assert(settings@ =~= spec_encoder_settings(kind, mtu));
    PipelinePlan { stages, settings }
}

/// Link order of the recording pipeline: source, optional post-processor,
/// encoder, output queue, parser, MP4 muxer, file sink.
pub open spec fn spec_recorder_stages(kind: H264InputKind) -> Seq<PipelineStage> {
    seq![stage(StageElement::Factory("appsrc"), "video-input")] + (if kind == H264InputKind::Xrgb {
        seq![
            stage(StageElement::Factory("vapostproc"), "video-postprocessor"),
            stage(StageElement::Factory("capsfilter"), "video-postprocessor-output"),
            stage(StageElement::Factory("queue"), "processed-frame-queue"),
        ]
    } else {
        Seq::empty()
    }) + seq![
        stage(StageElement::HardwareEncoder, "h264-encoder"),
        stage(StageElement::Factory("queue"), "encoded-output-queue"),
        stage(StageElement::Factory("h264parse"), "h264-parser"),
        stage(StageElement::Factory("mp4mux"), "mp4-mux"),
        stage(StageElement::Factory("filesink"), "file-output"),
    ]
}

/// Settings of the recording pipeline apart from the encoder's own: a source
/// that blocks instead of dropping frames, deep queues that never leak, and a
/// non-fragmented, non-streamable MP4 file. The muxer properties are only set
/// where the muxer has them.
pub open spec fn spec_recorder_settings(
    kind: H264InputKind,
    mux_has_fragment_duration: bool,
    mux_has_streamable: bool,
) -> Seq<ElementSetting> {
    seq![
        setting("video-input", "caps", SettingValue::Caps(CapsRole::Input)),
        setting("video-input", "format", SettingValue::Choice("time")),
        setting("video-input", "is-live", SettingValue::Bool(false)),
        setting("video-input", "do-timestamp", SettingValue::Bool(false)),
        setting("video-input", "block", SettingValue::Bool(true)),
        setting("video-input", "max-bytes", SettingValue::UInt(0)),
        setting("video-input", "max-buffers", SettingValue::UInt(RECORD_APPSRC_MAX_BUFFERS)),
        setting("video-input", "leaky-type", SettingValue::Choice("none")),
    ] + (if kind == H264InputKind::Xrgb {
        seq![setting("video-postprocessor-output", "caps", SettingValue::Caps(CapsRole::VppOutput))]
            + spec_queue_settings("processed-frame-queue", RECORD_STAGE_QUEUE_BUFFERS)
    } else {
        Seq::empty()
    }) + seq![setting("h264-parser", "config-interval", SettingValue::Int(-1i64))] + spec_queue_settings(
        "encoded-output-queue",
        RECORD_STAGE_QUEUE_BUFFERS,
    ) + (if mux_has_fragment_duration {
        seq![setting("mp4-mux", "fragment-duration", SettingValue::UInt(0))]
    } else {
        Seq::empty()
    }) + (if mux_has_streamable {
        seq![setting("mp4-mux", "streamable", SettingValue::Bool(false))]
    } else {
        Seq::empty()
    }) + seq![
        setting("file-output", "location", SettingValue::OutputPath),
        setting("file-output", "sync", SettingValue::Bool(false)),
        setting("file-output", "async", SettingValue::Bool(false)),
    ]
}

/// The plan of the lossless MP4 recording pipeline for `kind` input.
pub fn h264_recorder_pipeline(
    kind: H264InputKind,
    mux_has_fragment_duration: bool,
    mux_has_streamable: bool,
) -> (plan: PipelinePlan)
    ensures
        plan.stages@ == spec_recorder_stages(kind),
        plan.settings@ == spec_recorder_settings(kind, mux_has_fragment_duration, mux_has_streamable),
{
    let mut stages: Vec<PipelineStage> = Vec::new();
    stages.push(PipelineStage { element: StageElement::Factory("appsrc"), name: "video-input" });
    if kind == H264InputKind::Xrgb {
        stages.push(PipelineStage { element: StageElement::Factory("vapostproc"), name: "video-postprocessor" });
        stages.push(PipelineStage { element: StageElement::Factory("capsfilter"), name: "video-postprocessor-output" });
        stages.push(PipelineStage { element: StageElement::Factory("queue"), name: "processed-frame-queue" });
    }
    stages.push(PipelineStage { element: StageElement::HardwareEncoder, name: "h264-encoder" });
    stages.push(PipelineStage { element: StageElement::Factory("queue"), name: "encoded-output-queue" });
    stages.push(PipelineStage { element: StageElement::Factory("h264parse"), name: "h264-parser" });
    stages.push(PipelineStage { element: StageElement::Factory("mp4mux"), name: "mp4-mux" });
    stages.push(PipelineStage { element: StageElement::Factory("filesink"), name: "file-output" });
    assert(stages@ =~= spec_recorder_stages(kind));

    let mut settings: Vec<ElementSetting> = Vec::new();
    settings.push(ElementSetting { element: "video-input", property: "caps", value: SettingValue::Caps(CapsRole::Input) });
    settings.push(ElementSetting { element: "video-input", property: "format", value: SettingValue::Choice("time") });
    settings.push(ElementSetting { element: "video-input", property: "is-live", value: SettingValue::Bool(false) });
    settings.push(ElementSetting { element: "video-input", property: "do-timestamp", value: SettingValue::Bool(false) });
    settings.push(ElementSetting { element: "video-input", property: "block", value: SettingValue::Bool(true) });
    settings.push(ElementSetting { element: "video-input", property: "max-bytes", value: SettingValue::UInt(0) });
    settings.push(ElementSetting { element: "video-input", property: "max-buffers", value: SettingValue::UInt(RECORD_APPSRC_MAX_BUFFERS) });
    settings.push(ElementSetting { element: "video-input", property: "leaky-type", value: SettingValue::Choice("none") });
    if kind == H264InputKind::Xrgb {
        settings.push(ElementSetting { element: "video-postprocessor-output", property: "caps", value: SettingValue::Caps(CapsRole::VppOutput) });
        push_queue_settings(&mut settings, "processed-frame-queue", RECORD_STAGE_QUEUE_BUFFERS);
    }
    settings.push(ElementSetting { element: "h264-parser", property: "config-interval", value: SettingValue::Int(-1) });
    push_queue_settings(&mut settings, "encoded-output-queue", RECORD_STAGE_QUEUE_BUFFERS);
    if mux_has_fragment_duration {
        settings.push(ElementSetting { element: "mp4-mux", property: "fragment-duration", value: SettingValue::UInt(0) });
    }
    if mux_has_streamable {
        settings.push(ElementSetting { element: "mp4-mux", property: "streamable", value: SettingValue::Bool(false) });
    }
    settings.push(ElementSetting { element: "file-output", property: "location", value: SettingValue::OutputPath });
    settings.push(ElementSetting { element: "file-output", property: "sync", value: SettingValue::Bool(false) });
    settings.push(ElementSetting { element: "file-output", property: "async", value: SettingValue::Bool(false) });
    assert(settings@ =~= spec_recorder_settings(kind, mux_has_fragment_duration, mux_has_streamable));
    PipelinePlan { stages, settings }
}

/// Link order of the decoding pipeline: live RTP source, depayloader, parser,
/// decoder, sink.
pub open spec fn spec_decoder_stages() -> Seq<PipelineStage> {
    seq![
        stage(StageElement::Factory("appsrc"), "rtp-input"),
        stage(StageElement::Factory("rtph264depay"), "rtp-depayloader"),
        stage(StageElement::Factory("h264parse"), "h264-parser"),
        stage(StageElement::HardwareDecoder, "h264-decoder"),
        stage(StageElement::Factory("appsink"), "decoded-output"),
    ]
}

/// Settings of the decoding pipeline: a live RTP source, and a sink that keeps
/// only the newest decoded frame.
pub open spec fn spec_decoder_settings() -> Seq<ElementSetting> {
    seq![
        setting("rtp-input", "caps", SettingValue::Caps(CapsRole::Rtp)),
        setting("rtp-input", "format", SettingValue::Choice("time")),
        setting("rtp-input", "is-live", SettingValue::Bool(true)),
        setting("decoded-output", "caps", SettingValue::Caps(CapsRole::Decoded)),
        setting("decoded-output", "async", SettingValue::Bool(false)),
        setting("decoded-output", "sync", SettingValue::Bool(false)),
        setting("decoded-output", "max-buffers", SettingValue::UInt(1)),
        setting("decoded-output", "drop", SettingValue::Bool(true)),
    ]
}

/// The plan of the hardware H.264 decoding pipeline.
pub fn h264_decoder_pipeline() -> (plan: PipelinePlan)
    ensures
        plan.stages@ == spec_decoder_stages(),
        plan.settings@ == spec_decoder_settings(),
{
    let stages = vec![
        PipelineStage { element: StageElement::Factory("appsrc"), name: "rtp-input" },
        PipelineStage { element: StageElement::Factory("rtph264depay"), name: "rtp-depayloader" },
        PipelineStage { element: StageElement::Factory("h264parse"), name: "h264-parser" },
        PipelineStage { element: StageElement::HardwareDecoder, name: "h264-decoder" },
        PipelineStage { element: StageElement::Factory("appsink"), name: "decoded-output" },
    ];
    let settings = vec![
        ElementSetting { element: "rtp-input", property: "caps", value: SettingValue::Caps(CapsRole::Rtp) },
        ElementSetting { element: "rtp-input", property: "format", value: SettingValue::Choice("time") },
        ElementSetting { element: "rtp-input", property: "is-live", value: SettingValue::Bool(true) },
        ElementSetting { element: "decoded-output", property: "caps", value: SettingValue::Caps(CapsRole::Decoded) },
        ElementSetting { element: "decoded-output", property: "async", value: SettingValue::Bool(false) },
        ElementSetting { element: "decoded-output", property: "sync", value: SettingValue::Bool(false) },
        ElementSetting { element: "decoded-output", property: "max-buffers", value: SettingValue::UInt(1) },
        ElementSetting { element: "decoded-output", property: "drop", value: SettingValue::Bool(true) },
    ];
    PipelinePlan { stages, settings }
}

} // verus!
