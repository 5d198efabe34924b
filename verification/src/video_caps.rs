//! Media-type descriptions ("caps") of the video streams the encoder and the
//! decoder pipelines exchange, and the stream's color contract.
//!
//! A `CapsDescription` is plain data; turning it into the media framework's
//! caps object is the caller's job.
use vstd::prelude::*;
use crate::dma_buf::{DRM_FORMAT_MOD_INVALID, DRM_FORMAT_NV12, DRM_FORMAT_XRGB8888};
use crate::geometry::{FrameRate, PixelSize};
use crate::text::str_equals;

verus! {

/// Value of one caps field.
#[derive(Debug, Clone, Copy, PartialEq, Eq)]
pub enum CapsValue {
    Text(&'static str),
    Int(i32),
    Fraction(i32, i32),
    /// A DRM format with an explicit modifier, written `FOURCC:0xMODIFIER`.
    DrmFormat { fourcc: u32, modifier: u64 },
}

/// One named caps field.
#[derive(Debug, Clone, Copy, PartialEq, Eq)]
pub struct CapsField {
    pub name: &'static str,
    pub value: CapsValue,
}

/// A caps structure: media type, optional memory feature and fields in order.
#[derive(Debug, Clone)]
pub struct CapsDescription {
    pub media_type: &'static str,
    pub memory_feature: Option<&'static str>,
    pub fields: Vec<CapsField>,
}

/// The color description of the stream that is encoded and decoded.
pub fn gstreamer_colorimetry() -> (c: &'static str)
    ensures
        c@ == "bt709"@,
{
    "bt709"
}

/// EGL attribute naming the YUV color space of an imported image.
pub const YUV_COLOR_SPACE_HINT_EXT: usize = 0x327B;
/// EGL attribute naming the sample range of an imported image.
pub const SAMPLE_RANGE_HINT_EXT: usize = 0x327C;
pub const ITU_REC601_EXT: usize = 0x327F;
pub const ITU_REC709_EXT: usize = 0x3280;
pub const ITU_REC2020_EXT: usize = 0x3281;
pub const YUV_FULL_RANGE_EXT: usize = 0x3282;
pub const YUV_NARROW_RANGE_EXT: usize = 0x3283;

/// EGL image attributes that describe the stream's color contract: BT.709 with
/// limited (narrow) range.
pub fn egl_yuv_color_attributes() -> (a: [usize; 4])
    ensures
        a@ == seq![
            YUV_COLOR_SPACE_HINT_EXT,
            ITU_REC709_EXT,
            SAMPLE_RANGE_HINT_EXT,
            YUV_NARROW_RANGE_EXT,
        ],
{
    let a = [YUV_COLOR_SPACE_HINT_EXT, ITU_REC709_EXT, SAMPLE_RANGE_HINT_EXT, YUV_NARROW_RANGE_EXT];
    assert(a@ =~= seq![
        YUV_COLOR_SPACE_HINT_EXT,
        ITU_REC709_EXT,
        SAMPLE_RANGE_HINT_EXT,
        YUV_NARROW_RANGE_EXT,
    ]);
    a
}

/// Caps of H.264 RTP packets at the 90 kHz video clock.
pub fn h264_rtp_caps() -> (c: CapsDescription)
    ensures
        c.media_type@ == "application/x-rtp"@,
        c.memory_feature is None,
        c.fields@ == seq![
            CapsField { name: "media", value: CapsValue::Text("video") },
            CapsField { name: "encoding-name", value: CapsValue::Text("H264") },
            CapsField { name: "clock-rate", value: CapsValue::Int(90_000) },
        ],
{
    let fields = vec![
        CapsField { name: "media", value: CapsValue::Text("video") },
        CapsField { name: "encoding-name", value: CapsValue::Text("H264") },
        CapsField { name: "clock-rate", value: CapsValue::Int(90_000) },
    ];
    CapsDescription { media_type: "application/x-rtp", memory_feature: None, fields }
}

/// Caps of H.264 byte streams aligned to whole access units.
pub fn h264_access_unit_caps() -> (c: CapsDescription)
    ensures
        c.media_type@ == "video/x-h264"@,
        c.memory_feature is None,
        c.fields@ == seq![CapsField { name: "alignment", value: CapsValue::Text("au") }],
{
    let fields = vec![CapsField { name: "alignment", value: CapsValue::Text("au") }];
    CapsDescription { media_type: "video/x-h264", memory_feature: None, fields }
}

/// Caps of decoded frames: raw video in DMA-BUF memory with a DRM format.
pub fn decoded_dma_buf_caps() -> (c: CapsDescription)
    ensures
        c.media_type@ == "video/x-raw"@,
        c.memory_feature == Some("memory:DMABuf"),
        c.fields@ == seq![CapsField { name: "format", value: CapsValue::Text("DMA_DRM") }],
{
    let fields = vec![CapsField { name: "format", value: CapsValue::Text("DMA_DRM") }];
    CapsDescription {
        media_type: "video/x-raw",
        memory_feature: Some("memory:DMABuf"),
        fields,
    }
}

/// Caps of the NV12 VA surfaces the video post-processor produces from an
/// input of the given size and frame rate.
pub fn va_vpp_output_caps(width: i32, height: i32, framerate: (i32, i32)) -> (c: CapsDescription)
    ensures
        c.media_type@ == "video/x-raw"@,
        c.memory_feature == Some("memory:VAMemory"),
        c.fields@ == seq![
            CapsField { name: "format", value: CapsValue::Text("NV12") },
            CapsField { name: "width", value: CapsValue::Int(width) },
            CapsField { name: "height", value: CapsValue::Int(height) },
            CapsField { name: "framerate", value: CapsValue::Fraction(framerate.0, framerate.1) },
            CapsField { name: "colorimetry", value: CapsValue::Text("bt709") },
        ],
{
    let fields = vec![
        CapsField { name: "format", value: CapsValue::Text("NV12") },
        CapsField { name: "width", value: CapsValue::Int(width) },
        CapsField { name: "height", value: CapsValue::Int(height) },
        CapsField { name: "framerate", value: CapsValue::Fraction(framerate.0, framerate.1) },
        CapsField { name: "colorimetry", value: CapsValue::Text("bt709") },
    ];
    CapsDescription {
        media_type: "video/x-raw",
        memory_feature: Some("memory:VAMemory"),
        fields,
    }
}

/// Why no caps describe a DMA-BUF frame.
#[derive(Debug, Clone, Copy, PartialEq, Eq)]
pub enum DmaBufCapsError {
    WidthTooLarge,
    HeightTooLarge,
    /// Without a modifier only NV12 and XRGB8888 have a format name.
    UnsupportedModifierlessFormat { format: u32 },
    /// Only NV12 and XRGB8888 have a known colorimetry.
    UnsupportedColorimetry { format: u32 },
    FrameRateNumeratorTooLarge,
    FrameRateDenominatorTooLarge,
}

/// The `drm-format` caps value of a frame: a bare name when no modifier is
/// given, else the fourcc with the modifier.
pub open spec fn spec_drm_format_value(format: u32, modifier: u64) -> Option<CapsValue> {
    if modifier == DRM_FORMAT_MOD_INVALID {
        if format == DRM_FORMAT_NV12 {
            Some(CapsValue::Text("NV12"))
        } else if format == DRM_FORMAT_XRGB8888 {
            Some(CapsValue::Text("XR24"))
        } else {
            None
        }
    } else {
        Some(CapsValue::DrmFormat { fourcc: format, modifier })
    }
}

/// The colorimetry of a frame format, if it has a known one.
pub open spec fn spec_colorimetry(format: u32) -> Option<&'static str> {
    if format == DRM_FORMAT_NV12 {
        Some("bt709")
    } else if format == DRM_FORMAT_XRGB8888 {
        Some("sRGB")
    } else {
        None
    }
}

/// The first problem, in checking order, with describing a frame as caps.
pub open spec fn spec_dmabuf_caps_error(
    size: PixelSize,
    format: u32,
    modifier: u64,
    frame_rate: Option<FrameRate>,
) -> Option<DmaBufCapsError> {
    if size.width > i32::MAX {
        Some(DmaBufCapsError::WidthTooLarge)
    } else if size.height > i32::MAX {
        Some(DmaBufCapsError::HeightTooLarge)
    } else if spec_drm_format_value(format, modifier) is None {
        Some(DmaBufCapsError::UnsupportedModifierlessFormat { format })
    } else if spec_colorimetry(format) is None {
        Some(DmaBufCapsError::UnsupportedColorimetry { format })
    } else if frame_rate is Some && frame_rate->0.numerator > i32::MAX {
        Some(DmaBufCapsError::FrameRateNumeratorTooLarge)
    } else if frame_rate is Some && frame_rate->0.denominator > i32::MAX {
        Some(DmaBufCapsError::FrameRateDenominatorTooLarge)
    } else {
        None
    }
}

/// Caps of a progressive DMA-BUF frame of the given size, DRM format and
/// modifier; an unknown frame rate is written as `0/1`.
pub fn dmabuf_caps(size: PixelSize, format: u32, modifier: u64, frame_rate: Option<FrameRate>) -> (r:
    Result<CapsDescription, DmaBufCapsError>)
    ensures
        match r {
            Ok(c) => {
                &&& spec_dmabuf_caps_error(size, format, modifier, frame_rate) is None
                &&& c.media_type@ == "video/x-raw"@
                &&& c.memory_feature == Some("memory:DMABuf")
                &&& c.fields@ == seq![
                    CapsField { name: "format", value: CapsValue::Text("DMA_DRM") },
                    CapsField {
                        name: "drm-format",
                        value: spec_drm_format_value(format, modifier)->0,
                    },
                    CapsField { name: "width", value: CapsValue::Int(size.width as i32) },
                    CapsField { name: "height", value: CapsValue::Int(size.height as i32) },
                    CapsField {
                        name: "framerate",
                        value: match frame_rate {
                            Some(rate) => CapsValue::Fraction(
                                rate.numerator as i32,
                                rate.denominator as i32,
                            ),
                            None => CapsValue::Fraction(0, 1),
                        },
                    },
                    CapsField { name: "interlace-mode", value: CapsValue::Text("progressive") },
                    CapsField {
                        name: "colorimetry",
                        value: CapsValue::Text(spec_colorimetry(format)->0),
                    },
                ]
            },
            Err(e) => spec_dmabuf_caps_error(size, format, modifier, frame_rate) == Some(e),
        },
{
    if size.width > 0x7fff_ffff {
        return Err(DmaBufCapsError::WidthTooLarge);
    }
    if size.height > 0x7fff_ffff {
        return Err(DmaBufCapsError::HeightTooLarge);
    }
    let drm_format = if modifier == DRM_FORMAT_MOD_INVALID {
        if format == DRM_FORMAT_NV12 {
            CapsValue::Text("NV12")
        } else if format == DRM_FORMAT_XRGB8888 {
            CapsValue::Text("XR24")
        } else {
            return Err(DmaBufCapsError::UnsupportedModifierlessFormat { format });
        }
    } else {
        CapsValue::DrmFormat { fourcc: format, modifier }
    };
    let colorimetry: &'static str = if format == DRM_FORMAT_NV12 {
        "bt709"
    } else if format == DRM_FORMAT_XRGB8888 {
        "sRGB"
    } else {
        return Err(DmaBufCapsError::UnsupportedColorimetry { format });
    };
    let framerate = match frame_rate {
        Some(rate) => {
            if rate.numerator > 0x7fff_ffff {
                return Err(DmaBufCapsError::FrameRateNumeratorTooLarge);
            }
            if rate.denominator > 0x7fff_ffff {
                return Err(DmaBufCapsError::FrameRateDenominatorTooLarge);
            }
            CapsValue::Fraction(rate.numerator as i32, rate.denominator as i32)
        },
        None => CapsValue::Fraction(0, 1),
    };
    let fields = vec![
        CapsField { name: "format", value: CapsValue::Text("DMA_DRM") },
        CapsField { name: "drm-format", value: drm_format },
        CapsField { name: "width", value: CapsValue::Int(size.width as i32) },
        CapsField { name: "height", value: CapsValue::Int(size.height as i32) },
        CapsField { name: "framerate", value: framerate },
        CapsField { name: "interlace-mode", value: CapsValue::Text("progressive") },
        CapsField { name: "colorimetry", value: CapsValue::Text(colorimetry) },
    ];
    Ok(
        CapsDescription {
            media_type: "video/x-raw",
            memory_feature: Some("memory:DMABuf"),
            fields,
        },
    )
}

impl CapsDescription {
    /// The value of the first field called `name`.
    pub fn field(&self, name: &str) -> (r: Option<CapsValue>)
        ensures
            match r {
                Some(v) => exists|i: int|
                    0 <= i < self.fields@.len() && (#[trigger] self.fields@[i]).name@ == name@
                        && self.fields@[i].value == v && forall|j: int|
                        0 <= j < i ==> (#[trigger] self.fields@[j]).name@ != name@,
                None => forall|i: int|
                    0 <= i < self.fields@.len() ==> (#[trigger] self.fields@[i]).name@ != name@,
            },
    {
        let mut i: usize = 0;
        while i < self.fields.len()
            invariant
                i <= self.fields@.len(),
                forall|j: int| 0 <= j < i ==> (#[trigger] self.fields@[j]).name@ != name@,
            decreases self.fields@.len() - i,
        {
            if str_equals(self.fields[i].name, name) {
                return Some(self.fields[i].value);
            }
            i = i + 1;
        }
        None
    }
}


/// The modifiers the video post-processor accepts for `format`, in the order
/// its DMA-BUF input caps list them, each once: every `(fourcc, modifier)`
/// candidate of another format is skipped.
pub open spec fn spec_vpp_input_modifiers(candidates: Seq<(u32, u64)>, format: u32) -> Seq<u64>
    decreases candidates.len(),
{
    if candidates.len() == 0 {
        Seq::empty()
    } else {
        let rest = spec_vpp_input_modifiers(candidates.drop_last(), format);
        let (fourcc, modifier) = candidates.last();
        if fourcc == format && !rest.contains(modifier) {
            rest.push(modifier)
        } else {
            rest
        }
    }
}

/// The post-processor exposes no DMA-BUF modifier for the format.
#[derive(Debug, Clone, Copy, PartialEq, Eq)]
pub struct NoVppModifier {
    pub format: u32,
}

fn contains_modifier(modifiers: &Vec<u64>, modifier: u64) -> (r: bool)
    ensures
        r == modifiers@.contains(modifier),
{
    let mut i: usize = 0;
    while i < modifiers.len()
        invariant
            i <= modifiers@.len(),
            forall|j: int| 0 <= j < i ==> modifiers@[j] != modifier,
        decreases modifiers@.len() - i,
    {
        if modifiers[i] == modifier {
            return true;
        }
        i = i + 1;
    }
    false
}

/// The modifiers the video post-processor accepts for `format`, from the
/// `(fourcc, modifier)` candidates of its DMA-BUF sink caps; see
/// `spec_vpp_input_modifiers`. None at all is an error.
pub fn vpp_input_modifiers(candidates: &[(u32, u64)], format: u32) -> (r: Result<Vec<u64>, NoVppModifier>)
    ensures
        match r {
            Ok(modifiers) => modifiers@ == spec_vpp_input_modifiers(candidates@, format) && modifiers@.len() > 0,
            Err(e) => e.format == format && spec_vpp_input_modifiers(candidates@, format).len() == 0,
        },
{
    let mut modifiers: Vec<u64> = Vec::new();
    let mut i: usize = 0;
    while i < candidates.len()
        invariant
            i <= candidates@.len(),
            modifiers@ == spec_vpp_input_modifiers(candidates@.take(i as int), format),
        decreases candidates@.len() - i,
    {
        let (fourcc, modifier) = candidates[i];
        proof {
            assert(candidates@.take(i as int + 1).drop_last() == candidates@.take(i as int));
        }
        if fourcc == format && !contains_modifier(&modifiers, modifier) {
            modifiers.push(modifier);
        }
        i = i + 1;
    }
    proof {
        assert(candidates@.take(i as int) == candidates@);
    }
    if modifiers.len() == 0 {
        return Err(NoVppModifier { format });
    }
    Ok(modifiers)
}

/// Every modifier the post-processor is asked with appears once.
pub proof fn vpp_input_modifiers_are_distinct(candidates: Seq<(u32, u64)>, format: u32)
    ensures
        spec_vpp_input_modifiers(candidates, format).no_duplicates(),
    decreases candidates.len(),
{
    if candidates.len() > 0 {
        vpp_input_modifiers_are_distinct(candidates.drop_last(), format);
        let rest = spec_vpp_input_modifiers(candidates.drop_last(), format);
        let all = spec_vpp_input_modifiers(candidates, format);
        let (fourcc, modifier) = candidates.last();
        if fourcc == format && !rest.contains(modifier) {
            assert forall|i: int, j: int| 0 <= i < all.len() && 0 <= j < all.len() && i != j implies all[i] != all[j] by {
                if i == rest.len() && j < rest.len() {
                    assert(rest[j] == all[j]);
                } else if j == rest.len() && i < rest.len() {
                    assert(rest[i] == all[i]);
                }
            }
        }
    }
}

} // verus!
