//! Interpretation of DRM/KMS plane properties: plane type, placement,
//! rotation and reflection, blending, YCbCr color, cursor hotspot.
use vstd::prelude::*;

use crate::text::str_equals;

verus! {

/// Kind of a KMS plane, with the values of the DRM `type` property.
#[derive(Debug, Clone, Copy, PartialEq, Eq)]
pub enum KmsPlaneType {
    Overlay,
    Primary,
    Cursor,
}

/// Why the properties of a plane could not be interpreted.
#[derive(Debug, Clone, Copy, PartialEq, Eq)]
pub enum KmsPropertyError {
    MissingProperty { property: &'static str },
    InvalidProperty { property: &'static str, value: u64 },
}

/// Source coordinates in DRM's unsigned 16.16 fixed-point representation.
#[derive(Debug, Clone, Copy, PartialEq, Eq)]
pub struct KmsSourceRect {
    pub x: u32,
    pub y: u32,
    pub width: u32,
    pub height: u32,
}

#[derive(Debug, Clone, Copy, PartialEq, Eq)]
pub struct KmsDestinationRect {
    pub x: i32,
    pub y: i32,
    pub width: u32,
    pub height: u32,
}

#[derive(Debug, Clone, Copy, PartialEq, Eq)]
pub enum KmsRotation {
    Rotate0,
    Rotate90,
    Rotate180,
    Rotate270,
}

#[derive(Debug, Clone, Copy, PartialEq, Eq)]
pub struct KmsPlaneTransform {
    pub rotation: KmsRotation,
    pub reflect_x: bool,
    pub reflect_y: bool,
}

#[derive(Debug, Clone, Copy, PartialEq, Eq)]
pub struct KmsPlanePlacement {
    pub zpos: u64,
    pub source: KmsSourceRect,
    pub destination: KmsDestinationRect,
    pub transform: KmsPlaneTransform,
}

#[derive(Debug, Clone, Copy, PartialEq, Eq)]
pub enum KmsPixelBlendMode {
    NoPixelAlpha,
    PreMultiplied,
    Coverage,
}

#[derive(Debug, Clone, Copy, PartialEq, Eq)]
pub struct KmsPlaneBlend {
    pub alpha: u16,
    pub pixel_mode: KmsPixelBlendMode,
}

#[derive(Debug, Clone, Copy, PartialEq, Eq)]
pub enum KmsColorEncoding {
    Bt601,
    Bt709,
    Bt2020,
}

#[derive(Debug, Clone, Copy, PartialEq, Eq)]
pub enum KmsColorRange {
    Limited,
    Full,
}

#[derive(Debug, Clone, Copy, PartialEq, Eq)]
pub struct KmsPlaneColor {
    pub encoding: KmsColorEncoding,
    pub range: KmsColorRange,
}

#[derive(Debug, Clone, Copy, PartialEq, Eq)]
pub struct KmsCursorHotspot {
    pub x: u32,
    pub y: u32,
}

pub open spec fn default_transform() -> KmsPlaneTransform {
    KmsPlaneTransform { rotation: KmsRotation::Rotate0, reflect_x: false, reflect_y: false }
}

pub open spec fn default_color() -> KmsPlaneColor {
    KmsPlaneColor { encoding: KmsColorEncoding::Bt601, range: KmsColorRange::Limited }
}

impl KmsPlaneTransform {
    /// No rotation and no reflection.
    pub fn identity() -> (t: Self)
        ensures
            t == default_transform(),
    {
        KmsPlaneTransform { rotation: KmsRotation::Rotate0, reflect_x: false, reflect_y: false }
    }
}

impl KmsPlaneBlend {
    /// Opaque pre-multiplied blending, the DRM default.
    pub fn default_blend() -> (b: Self)
        ensures
            b == (KmsPlaneBlend { alpha: u16::MAX, pixel_mode: KmsPixelBlendMode::PreMultiplied }),
    {
        KmsPlaneBlend { alpha: u16::MAX, pixel_mode: KmsPixelBlendMode::PreMultiplied }
    }
}

impl KmsPlaneColor {
    /// BT.601 limited range, the DRM default.
    pub fn default_color() -> (c: Self)
        ensures
            c == default_color(),
    {
        KmsPlaneColor { encoding: KmsColorEncoding::Bt601, range: KmsColorRange::Limited }
    }
}

pub open spec fn spec_plane_type(value: u64) -> Result<KmsPlaneType, KmsPropertyError> {
    if value == 0 {
        Ok(KmsPlaneType::Overlay)
    } else if value == 1 {
        Ok(KmsPlaneType::Primary)
    } else if value == 2 {
        Ok(KmsPlaneType::Cursor)
    } else {
        Err(KmsPropertyError::InvalidProperty { property: "type", value })
    }
}

/// The plane type a DRM `type` property value names.
pub fn plane_type(value: u64) -> (r: Result<KmsPlaneType, KmsPropertyError>)
    ensures
        r == spec_plane_type(value),
{
    if value == 0 {
        Ok(KmsPlaneType::Overlay)
    } else if value == 1 {
        Ok(KmsPlaneType::Primary)
    } else if value == 2 {
        Ok(KmsPlaneType::Cursor)
    } else {
        Err(KmsPropertyError::InvalidProperty { property: "type", value })
    }
}

/// The value of a property the plane must expose.
pub fn required(value: Option<u64>, property: &'static str) -> (r: Result<u64, KmsPropertyError>)
    ensures
        r == (match value {
            Some(v) => Ok::<u64, KmsPropertyError>(v),
            None => Err(KmsPropertyError::MissingProperty { property }),
        }),
{
    match value {
        Some(v) => Ok(v),
        None => Err(KmsPropertyError::MissingProperty { property }),
    }
}

pub open spec fn spec_unsigned_32(value: Option<u64>, property: &'static str) -> Result<
    u32,
    KmsPropertyError,
> {
    match value {
        None => Err(KmsPropertyError::MissingProperty { property }),
        Some(v) => if v <= u32::MAX {
            Ok(v as u32)
        } else {
            Err(KmsPropertyError::InvalidProperty { property, value: v })
        },
    }
}

/// The value of a property read as the two's-complement 64-bit integer it encodes.
pub open spec fn spec_as_signed_64(v: u64) -> int {
    if v < 0x8000_0000_0000_0000 {
        v as int
    } else {
        v - 0x1_0000_0000_0000_0000
    }
}

pub open spec fn spec_signed_32(value: Option<u64>, property: &'static str) -> Result<
    i32,
    KmsPropertyError,
> {
    match value {
        None => Err(KmsPropertyError::MissingProperty { property }),
        Some(v) => if i32::MIN <= spec_as_signed_64(v) <= i32::MAX {
            Ok(spec_as_signed_64(v) as i32)
        } else {
            Err(KmsPropertyError::InvalidProperty { property, value: v })
        },
    }
}

/// A required property that must fit an unsigned 32-bit integer.
pub fn unsigned_32(value: Option<u64>, property: &'static str) -> (r: Result<
    u32,
    KmsPropertyError,
>)
    ensures
        r == spec_unsigned_32(value, property),
{
    let v = required(value, property)?;
    if v <= u32::MAX as u64 {
        Ok(v as u32)
    } else {
        Err(KmsPropertyError::InvalidProperty { property, value: v })
    }
}

/// A required property whose 64-bit two's-complement value must fit a signed 32-bit integer.
pub fn signed_32(value: Option<u64>, property: &'static str) -> (r: Result<i32, KmsPropertyError>)
    ensures
        r == spec_signed_32(value, property),
{
    let v = required(value, property)?;
    if v <= i32::MAX as u64 {
        Ok(v as i32)
    } else if v >= 0xFFFF_FFFF_8000_0000u64 {
        let magnitude = u64::MAX - v + 1;
        Ok((0i64 - magnitude as i64) as i32)
    } else {
        Err(KmsPropertyError::InvalidProperty { property, value: v })
    }
}

pub open spec fn spec_pixel_blend_mode(enum_name: Option<Seq<char>>, value: u64) -> Result<
    KmsPixelBlendMode,
    KmsPropertyError,
> {
    match enum_name {
        Some(name) => if name == "None"@ {
            Ok(KmsPixelBlendMode::NoPixelAlpha)
        } else if name == "Pre-multiplied"@ {
            Ok(KmsPixelBlendMode::PreMultiplied)
        } else if name == "Coverage"@ {
            Ok(KmsPixelBlendMode::Coverage)
        } else {
            Err(KmsPropertyError::InvalidProperty { property: "pixel blend mode", value })
        },
        None => Err(KmsPropertyError::InvalidProperty { property: "pixel blend mode", value }),
    }
}

pub open spec fn spec_color_encoding(enum_name: Option<Seq<char>>, value: u64) -> Result<
    KmsColorEncoding,
    KmsPropertyError,
> {
    match enum_name {
        Some(name) => if name == "ITU-R BT.601 YCbCr"@ {
            Ok(KmsColorEncoding::Bt601)
        } else if name == "ITU-R BT.709 YCbCr"@ {
            Ok(KmsColorEncoding::Bt709)
        } else if name == "ITU-R BT.2020 YCbCr"@ {
            Ok(KmsColorEncoding::Bt2020)
        } else {
            Err(KmsPropertyError::InvalidProperty { property: "COLOR_ENCODING", value })
        },
        None => Err(KmsPropertyError::InvalidProperty { property: "COLOR_ENCODING", value }),
    }
}

pub open spec fn spec_color_range(enum_name: Option<Seq<char>>, value: u64) -> Result<
    KmsColorRange,
    KmsPropertyError,
> {
    match enum_name {
        Some(name) => if name == "YCbCr limited range"@ {
            Ok(KmsColorRange::Limited)
        } else if name == "YCbCr full range"@ {
            Ok(KmsColorRange::Full)
        } else {
            Err(KmsPropertyError::InvalidProperty { property: "COLOR_RANGE", value })
        },
        None => Err(KmsPropertyError::InvalidProperty { property: "COLOR_RANGE", value }),
    }
}

pub open spec fn opt_str_view(s: Option<&str>) -> Option<Seq<char>> {
    match s {
        Some(s) => Some(s@),
        None => None,
    }
}

/// The pixel blend mode an enum property value names; `enum_name` is the name DRM gives
/// the value, or `None` when the property is not an enum.
pub fn pixel_blend_mode(enum_name: Option<&str>, value: u64) -> (r: Result<
    KmsPixelBlendMode,
    KmsPropertyError,
>)
    ensures
        r == spec_pixel_blend_mode(opt_str_view(enum_name), value),
{
    match enum_name {
        Some(name) => if str_equals(name, "None") {
            Ok(KmsPixelBlendMode::NoPixelAlpha)
        } else if str_equals(name, "Pre-multiplied") {
            Ok(KmsPixelBlendMode::PreMultiplied)
        } else if str_equals(name, "Coverage") {
            Ok(KmsPixelBlendMode::Coverage)
        } else {
            Err(KmsPropertyError::InvalidProperty { property: "pixel blend mode", value })
        },
        None => Err(KmsPropertyError::InvalidProperty { property: "pixel blend mode", value }),
    }
}

/// The YCbCr encoding an enum property value names.
pub fn color_encoding(enum_name: Option<&str>, value: u64) -> (r: Result<
    KmsColorEncoding,
    KmsPropertyError,
>)
    ensures
        r == spec_color_encoding(opt_str_view(enum_name), value),
{
    match enum_name {
        Some(name) => if str_equals(name, "ITU-R BT.601 YCbCr") {
            Ok(KmsColorEncoding::Bt601)
        } else if str_equals(name, "ITU-R BT.709 YCbCr") {
            Ok(KmsColorEncoding::Bt709)
        } else if str_equals(name, "ITU-R BT.2020 YCbCr") {
            Ok(KmsColorEncoding::Bt2020)
        } else {
            Err(KmsPropertyError::InvalidProperty { property: "COLOR_ENCODING", value })
        },
        None => Err(KmsPropertyError::InvalidProperty { property: "COLOR_ENCODING", value }),
    }
}

/// The YCbCr range an enum property value names.
pub fn color_range(enum_name: Option<&str>, value: u64) -> (r: Result<
    KmsColorRange,
    KmsPropertyError,
>)
    ensures
        r == spec_color_range(opt_str_view(enum_name), value),
{
    match enum_name {
        Some(name) => if str_equals(name, "YCbCr limited range") {
            Ok(KmsColorRange::Limited)
        } else if str_equals(name, "YCbCr full range") {
            Ok(KmsColorRange::Full)
        } else {
            Err(KmsPropertyError::InvalidProperty { property: "COLOR_RANGE", value })
        },
        None => Err(KmsPropertyError::InvalidProperty { property: "COLOR_RANGE", value }),
    }
}

/// DRM rotation flags: one of four rotations (bits 0 to 3), optionally with reflection
/// along x (bit 4) and y (bit 5).
pub open spec fn spec_plane_transform(value: u64) -> Result<KmsPlaneTransform, KmsPropertyError> {
    if value & !0x3Fu64 != 0 {
        Err(KmsPropertyError::InvalidProperty { property: "rotation", value })
    } else {
        let rotation = value & 0x0Fu64;
        if rotation != 1 && rotation != 2 && rotation != 4 && rotation != 8 {
            Err(KmsPropertyError::InvalidProperty { property: "rotation", value })
        } else {
            Ok(
                KmsPlaneTransform {
                    rotation: if rotation == 1 {
                        KmsRotation::Rotate0
                    } else if rotation == 2 {
                        KmsRotation::Rotate90
                    } else if rotation == 4 {
                        KmsRotation::Rotate180
                    } else {
                        KmsRotation::Rotate270
                    },
                    reflect_x: value & 0x10u64 != 0,
                    reflect_y: value & 0x20u64 != 0,
                },
            )
        }
    }
}

impl KmsPlaneTransform {
    /// The transform a DRM `rotation` property value describes.
    pub fn try_from(value: u64) -> (r: Result<Self, KmsPropertyError>)
        ensures
            r == spec_plane_transform(value),
    {
        if value & !0x3Fu64 != 0 {
            return Err(KmsPropertyError::InvalidProperty { property: "rotation", value });
        }
        let rotation_bits = value & 0x0Fu64;
        let rotation = if rotation_bits == 1 {
            KmsRotation::Rotate0
        } else if rotation_bits == 2 {
            KmsRotation::Rotate90
        } else if rotation_bits == 4 {
            KmsRotation::Rotate180
        } else if rotation_bits == 8 {
            KmsRotation::Rotate270
        } else {
            return Err(KmsPropertyError::InvalidProperty { property: "rotation", value });
        };
        Ok(
            KmsPlaneTransform {
                rotation,
                reflect_x: value & 0x10u64 != 0,
                reflect_y: value & 0x20u64 != 0,
            },
        )
    }
}

/// The raw property values of a plane, as far as it exposes them.
#[derive(Debug, Clone, Copy, PartialEq, Eq)]
pub struct RawPlaneProperties {
    pub plane_type: Option<u64>,
    pub zpos: Option<u64>,
    pub source_x: Option<u64>,
    pub source_y: Option<u64>,
    pub source_width: Option<u64>,
    pub source_height: Option<u64>,
    pub destination_x: Option<u64>,
    pub destination_y: Option<u64>,
    pub destination_width: Option<u64>,
    pub destination_height: Option<u64>,
    pub rotation: Option<u64>,
    pub alpha: Option<u64>,
    pub pixel_blend_mode: Option<KmsPixelBlendMode>,
    pub color_encoding: Option<KmsColorEncoding>,
    pub color_range: Option<KmsColorRange>,
    pub hotspot_x: Option<u64>,
    pub hotspot_y: Option<u64>,
}

/// The interpreted state of a plane. A plane without a visible source or destination
/// area has no placement.
#[derive(Debug, Clone, Copy, PartialEq, Eq)]
pub struct KmsPlaneProperties {
    pub plane_type: KmsPlaneType,
    pub placement: Option<KmsPlanePlacement>,
    pub blend: KmsPlaneBlend,
    pub color: KmsPlaneColor,
    pub cursor_hotspot: Option<KmsCursorHotspot>,
}

pub open spec fn spec_required(value: Option<u64>, property: &'static str) -> Result<
    u64,
    KmsPropertyError,
> {
    match value {
        Some(v) => Ok(v),
        None => Err(KmsPropertyError::MissingProperty { property }),
    }
}

pub open spec fn spec_alpha(value: Option<u64>) -> Result<u16, KmsPropertyError> {
    match value {
        Some(a) => if a <= u16::MAX {
            Ok(a as u16)
        } else {
            Err(KmsPropertyError::InvalidProperty { property: "alpha", value: a })
        },
        None => Ok(u16::MAX),
    }
}

pub open spec fn spec_transform_of(value: Option<u64>) -> Result<
    KmsPlaneTransform,
    KmsPropertyError,
> {
    match value {
        Some(r) => spec_plane_transform(r),
        None => Ok(default_transform()),
    }
}

pub open spec fn spec_color_of(
    encoding: Option<KmsColorEncoding>,
    range: Option<KmsColorRange>,
) -> Result<KmsPlaneColor, KmsPropertyError> {
    match (encoding, range) {
        (Some(encoding), Some(range)) => Ok(KmsPlaneColor { encoding, range }),
        (None, None) => Ok(default_color()),
        (Some(_), None) => Err(KmsPropertyError::MissingProperty { property: "COLOR_RANGE" }),
        (None, Some(_)) => Err(KmsPropertyError::MissingProperty { property: "COLOR_ENCODING" }),
    }
}

pub open spec fn spec_hotspot_of(plane_type: KmsPlaneType, x: Option<u64>, y: Option<u64>) -> Result<
    Option<KmsCursorHotspot>,
    KmsPropertyError,
> {
    match plane_type {
        KmsPlaneType::Cursor => match (x, y) {
            (Some(x), Some(y)) => if x > u32::MAX {
                Err(KmsPropertyError::InvalidProperty { property: "HOTSPOT_X", value: x })
            } else if y > u32::MAX {
                Err(KmsPropertyError::InvalidProperty { property: "HOTSPOT_Y", value: y })
            } else {
                Ok(Some(KmsCursorHotspot { x: x as u32, y: y as u32 }))
            },
            (None, None) => Ok(Some(KmsCursorHotspot { x: 0, y: 0 })),
            (Some(_), None) => Err(KmsPropertyError::MissingProperty { property: "HOTSPOT_Y" }),
            (None, Some(_)) => Err(KmsPropertyError::MissingProperty { property: "HOTSPOT_X" }),
        },
        _ => Ok(None),
    }
}

pub open spec fn spec_placement_of(
    zpos: u64,
    source: KmsSourceRect,
    destination: KmsDestinationRect,
    transform: KmsPlaneTransform,
) -> Option<KmsPlanePlacement> {
    if source.width == 0 || source.height == 0 || destination.width == 0 || destination.height
        == 0 {
        None
    } else {
        Some(KmsPlanePlacement { zpos, source, destination, transform })
    }
}

/// The interpretation of raw plane properties; errors are reported in the order type,
/// zpos, source rectangle, destination rectangle, rotation, alpha, color, cursor hotspot.
pub open spec fn spec_plane_properties(v: RawPlaneProperties) -> Result<
    KmsPlaneProperties,
    KmsPropertyError,
> {
    match spec_required(v.plane_type, "type") {
        Err(e) => Err(e),
        Ok(t) => match spec_plane_type(t) {
            Err(e) => Err(e),
            Ok(plane_type) => match spec_required(v.zpos, "zpos") {
                Err(e) => Err(e),
                Ok(zpos) => match spec_unsigned_32(v.source_x, "SRC_X") {
                    Err(e) => Err(e),
                    Ok(sx) => match spec_unsigned_32(v.source_y, "SRC_Y") {
                        Err(e) => Err(e),
                        Ok(sy) => match spec_unsigned_32(v.source_width, "SRC_W") {
                            Err(e) => Err(e),
                            Ok(sw) => match spec_unsigned_32(v.source_height, "SRC_H") {
                                Err(e) => Err(e),
                                Ok(sh) => match spec_signed_32(v.destination_x, "CRTC_X") {
                                    Err(e) => Err(e),
                                    Ok(dx) => match spec_signed_32(v.destination_y, "CRTC_Y") {
                                        Err(e) => Err(e),
                                        Ok(dy) => match spec_unsigned_32(
                                            v.destination_width,
                                            "CRTC_W",
                                        ) {
                                            Err(e) => Err(e),
                                            Ok(dw) => match spec_unsigned_32(
                                                v.destination_height,
                                                "CRTC_H",
                                            ) {
                                                Err(e) => Err(e),
                                                Ok(dh) => spec_plane_properties_rest(
                                                    v,
                                                    plane_type,
                                                    zpos,
                                                    KmsSourceRect {
                                                        x: sx,
                                                        y: sy,
                                                        width: sw,
                                                        height: sh,
                                                    },
                                                    KmsDestinationRect {
                                                        x: dx,
                                                        y: dy,
                                                        width: dw,
                                                        height: dh,
                                                    },
                                                ),
                                            },
                                        },
                                    },
                                },
                            },
                        },
                    },
                },
            },
        },
    }
}

pub open spec fn spec_plane_properties_rest(
    v: RawPlaneProperties,
    plane_type: KmsPlaneType,
    zpos: u64,
    source: KmsSourceRect,
    destination: KmsDestinationRect,
) -> Result<KmsPlaneProperties, KmsPropertyError> {
    match spec_transform_of(v.rotation) {
        Err(e) => Err(e),
        Ok(transform) => match spec_alpha(v.alpha) {
            Err(e) => Err(e),
            Ok(alpha) => match spec_color_of(v.color_encoding, v.color_range) {
                Err(e) => Err(e),
                Ok(color) => match spec_hotspot_of(plane_type, v.hotspot_x, v.hotspot_y) {
                    Err(e) => Err(e),
                    Ok(cursor_hotspot) => Ok(
                        KmsPlaneProperties {
                            plane_type,
                            placement: spec_placement_of(zpos, source, destination, transform),
                            blend: KmsPlaneBlend {
                                alpha,
                                pixel_mode: match v.pixel_blend_mode {
                                    Some(m) => m,
                                    None => KmsPixelBlendMode::PreMultiplied,
                                },
                            },
                            color,
                            cursor_hotspot,
                        },
                    ),
                },
            },
        },
    }
}

impl KmsPlaneProperties {
    /// Interprets the raw property values of a plane.
    pub fn try_from(values: RawPlaneProperties) -> (r: Result<Self, KmsPropertyError>)
        ensures
            r == spec_plane_properties(values),
    {
        let plane_type = plane_type(required(values.plane_type, "type")?)?;
        let zpos = required(values.zpos, "zpos")?;
        let source = KmsSourceRect {
            x: unsigned_32(values.source_x, "SRC_X")?,
            y: unsigned_32(values.source_y, "SRC_Y")?,
            width: unsigned_32(values.source_width, "SRC_W")?,
            height: unsigned_32(values.source_height, "SRC_H")?,
        };
        let destination = KmsDestinationRect {
            x: signed_32(values.destination_x, "CRTC_X")?,
            y: signed_32(values.destination_y, "CRTC_Y")?,
            width: unsigned_32(values.destination_width, "CRTC_W")?,
            height: unsigned_32(values.destination_height, "CRTC_H")?,
        };
        let transform = match values.rotation {
            Some(rotation) => KmsPlaneTransform::try_from(rotation)?,
            None => KmsPlaneTransform::identity(),
        };
        let alpha = match values.alpha {
            Some(alpha) => {
                if alpha <= u16::MAX as u64 {
                    alpha as u16
                } else {
                    return Err(KmsPropertyError::InvalidProperty { property: "alpha", value: alpha });
                }
            },
            None => u16::MAX,
        };
        let blend = KmsPlaneBlend {
            alpha,
            pixel_mode: match values.pixel_blend_mode {
                Some(m) => m,
                None => KmsPixelBlendMode::PreMultiplied,
            },
        };
        let color = match (values.color_encoding, values.color_range) {
            (Some(encoding), Some(range)) => KmsPlaneColor { encoding, range },
            (None, None) => KmsPlaneColor::default_color(),
            (Some(_), None) => {
                return Err(KmsPropertyError::MissingProperty { property: "COLOR_RANGE" });
            },
            (None, Some(_)) => {
                return Err(KmsPropertyError::MissingProperty { property: "COLOR_ENCODING" });
            },
        };
        let cursor_hotspot = match plane_type {
            KmsPlaneType::Cursor => match (values.hotspot_x, values.hotspot_y) {
                (Some(x), Some(y)) => {
                    if x > u32::MAX as u64 {
                        return Err(KmsPropertyError::InvalidProperty { property: "HOTSPOT_X", value: x });
                    }
                    if y > u32::MAX as u64 {
                        return Err(KmsPropertyError::InvalidProperty { property: "HOTSPOT_Y", value: y });
                    }
                    Some(KmsCursorHotspot { x: x as u32, y: y as u32 })
                },
                (None, None) => Some(KmsCursorHotspot { x: 0, y: 0 }),
                (Some(_), None) => {
                    return Err(KmsPropertyError::MissingProperty { property: "HOTSPOT_Y" });
                },
                (None, Some(_)) => {
                    return Err(KmsPropertyError::MissingProperty { property: "HOTSPOT_X" });
                },
            },
            KmsPlaneType::Primary | KmsPlaneType::Overlay => None,
        };
        let placement = if source.width == 0 || source.height == 0 || destination.width == 0
            || destination.height == 0 {
            None
        } else {
            Some(KmsPlanePlacement { zpos, source, destination, transform })
        };
        Ok(KmsPlaneProperties { plane_type, placement, blend, color, cursor_hotspot })
    }
}

/// The plane properties whose values are read on every capture.
#[derive(Debug, Clone, Copy, PartialEq, Eq)]
pub enum KmsPlanePropertyKind {
    Zpos,
    SourceX,
    SourceY,
    SourceWidth,
    SourceHeight,
    DestinationX,
    DestinationY,
    DestinationWidth,
    DestinationHeight,
    Rotation,
    Alpha,
    PixelBlendMode,
    ColorEncoding,
    ColorRange,
    HotspotX,
    HotspotY,
}

/// What a DRM plane property is to the capture path.
#[derive(Debug, Clone, Copy, PartialEq, Eq)]
pub enum KmsPropertyRole {
    /// The `type` property, read once when the plane is discovered.
    PlaneType,
    /// A property read on every capture.
    Cached(KmsPlanePropertyKind),
}

pub open spec fn spec_classify_plane_property(name: Seq<char>) -> Option<KmsPropertyRole> {
    if name == "type"@ {
        Some(KmsPropertyRole::PlaneType)
    } else if name == "zpos"@ {
        Some(KmsPropertyRole::Cached(KmsPlanePropertyKind::Zpos))
    } else if name == "SRC_X"@ {
        Some(KmsPropertyRole::Cached(KmsPlanePropertyKind::SourceX))
    } else if name == "SRC_Y"@ {
        Some(KmsPropertyRole::Cached(KmsPlanePropertyKind::SourceY))
    } else if name == "SRC_W"@ {
        Some(KmsPropertyRole::Cached(KmsPlanePropertyKind::SourceWidth))
    } else if name == "SRC_H"@ {
        Some(KmsPropertyRole::Cached(KmsPlanePropertyKind::SourceHeight))
    } else if name == "CRTC_X"@ {
        Some(KmsPropertyRole::Cached(KmsPlanePropertyKind::DestinationX))
    } else if name == "CRTC_Y"@ {
        Some(KmsPropertyRole::Cached(KmsPlanePropertyKind::DestinationY))
    } else if name == "CRTC_W"@ {
        Some(KmsPropertyRole::Cached(KmsPlanePropertyKind::DestinationWidth))
    } else if name == "CRTC_H"@ {
        Some(KmsPropertyRole::Cached(KmsPlanePropertyKind::DestinationHeight))
    } else if name == "rotation"@ {
        Some(KmsPropertyRole::Cached(KmsPlanePropertyKind::Rotation))
    } else if name == "alpha"@ {
        Some(KmsPropertyRole::Cached(KmsPlanePropertyKind::Alpha))
    } else if name == "pixel blend mode"@ {
        Some(KmsPropertyRole::Cached(KmsPlanePropertyKind::PixelBlendMode))
    } else if name == "COLOR_ENCODING"@ {
        Some(KmsPropertyRole::Cached(KmsPlanePropertyKind::ColorEncoding))
    } else if name == "COLOR_RANGE"@ {
        Some(KmsPropertyRole::Cached(KmsPlanePropertyKind::ColorRange))
    } else if name == "HOTSPOT_X"@ {
        Some(KmsPropertyRole::Cached(KmsPlanePropertyKind::HotspotX))
    } else if name == "HOTSPOT_Y"@ {
        Some(KmsPropertyRole::Cached(KmsPlanePropertyKind::HotspotY))
    } else {
        None
    }
}

/// The role of a plane property by its DRM name; properties of no interest have none.
pub fn classify_plane_property(name: &str) -> (r: Option<KmsPropertyRole>)
    ensures
        r == spec_classify_plane_property(name@),
{
    if str_equals(name, "type") {
        Some(KmsPropertyRole::PlaneType)
    } else if str_equals(name, "zpos") {
        Some(KmsPropertyRole::Cached(KmsPlanePropertyKind::Zpos))
    } else if str_equals(name, "SRC_X") {
        Some(KmsPropertyRole::Cached(KmsPlanePropertyKind::SourceX))
    } else if str_equals(name, "SRC_Y") {
        Some(KmsPropertyRole::Cached(KmsPlanePropertyKind::SourceY))
    } else if str_equals(name, "SRC_W") {
        Some(KmsPropertyRole::Cached(KmsPlanePropertyKind::SourceWidth))
    } else if str_equals(name, "SRC_H") {
        Some(KmsPropertyRole::Cached(KmsPlanePropertyKind::SourceHeight))
    } else if str_equals(name, "CRTC_X") {
        Some(KmsPropertyRole::Cached(KmsPlanePropertyKind::DestinationX))
    } else if str_equals(name, "CRTC_Y") {
        Some(KmsPropertyRole::Cached(KmsPlanePropertyKind::DestinationY))
    } else if str_equals(name, "CRTC_W") {
        Some(KmsPropertyRole::Cached(KmsPlanePropertyKind::DestinationWidth))
    } else if str_equals(name, "CRTC_H") {
        Some(KmsPropertyRole::Cached(KmsPlanePropertyKind::DestinationHeight))
    } else if str_equals(name, "rotation") {
        Some(KmsPropertyRole::Cached(KmsPlanePropertyKind::Rotation))
    } else if str_equals(name, "alpha") {
        Some(KmsPropertyRole::Cached(KmsPlanePropertyKind::Alpha))
    } else if str_equals(name, "pixel blend mode") {
        Some(KmsPropertyRole::Cached(KmsPlanePropertyKind::PixelBlendMode))
    } else if str_equals(name, "COLOR_ENCODING") {
        Some(KmsPropertyRole::Cached(KmsPlanePropertyKind::ColorEncoding))
    } else if str_equals(name, "COLOR_RANGE") {
        Some(KmsPropertyRole::Cached(KmsPlanePropertyKind::ColorRange))
    } else if str_equals(name, "HOTSPOT_X") {
        Some(KmsPropertyRole::Cached(KmsPlanePropertyKind::HotspotX))
    } else if str_equals(name, "HOTSPOT_Y") {
        Some(KmsPropertyRole::Cached(KmsPlanePropertyKind::HotspotY))
    } else {
        None
    }
}

/// The raw property values of a plane of the given type, before any value is read.
pub open spec fn spec_raw_for_type(plane_type: KmsPlaneType) -> RawPlaneProperties {
    RawPlaneProperties {
        plane_type: Some(
            match plane_type {
                KmsPlaneType::Overlay => 0u64,
                KmsPlaneType::Primary => 1u64,
                KmsPlaneType::Cursor => 2u64,
            },
        ),
        zpos: None,
        source_x: None,
        source_y: None,
        source_width: None,
        source_height: None,
        destination_x: None,
        destination_y: None,
        destination_width: None,
        destination_height: None,
        rotation: None,
        alpha: None,
        pixel_blend_mode: None,
        color_encoding: None,
        color_range: None,
        hotspot_x: None,
        hotspot_y: None,
    }
}

/// The raw values after reading one property value; enum properties are interpreted by
/// the name DRM gives their value.
pub open spec fn spec_record(
    raw: RawPlaneProperties,
    kind: KmsPlanePropertyKind,
    value: u64,
    enum_name: Option<Seq<char>>,
) -> Result<RawPlaneProperties, KmsPropertyError> {
    match kind {
        KmsPlanePropertyKind::Zpos => Ok(RawPlaneProperties { zpos: Some(value), ..raw }),
        KmsPlanePropertyKind::SourceX => Ok(RawPlaneProperties { source_x: Some(value), ..raw }),
        KmsPlanePropertyKind::SourceY => Ok(RawPlaneProperties { source_y: Some(value), ..raw }),
        KmsPlanePropertyKind::SourceWidth => Ok(
            RawPlaneProperties { source_width: Some(value), ..raw },
        ),
        KmsPlanePropertyKind::SourceHeight => Ok(
            RawPlaneProperties { source_height: Some(value), ..raw },
        ),
        KmsPlanePropertyKind::DestinationX => Ok(
            RawPlaneProperties { destination_x: Some(value), ..raw },
        ),
        KmsPlanePropertyKind::DestinationY => Ok(
            RawPlaneProperties { destination_y: Some(value), ..raw },
        ),
        KmsPlanePropertyKind::DestinationWidth => Ok(
            RawPlaneProperties { destination_width: Some(value), ..raw },
        ),
        KmsPlanePropertyKind::DestinationHeight => Ok(
            RawPlaneProperties { destination_height: Some(value), ..raw },
        ),
        KmsPlanePropertyKind::Rotation => Ok(RawPlaneProperties { rotation: Some(value), ..raw }),
        KmsPlanePropertyKind::Alpha => Ok(RawPlaneProperties { alpha: Some(value), ..raw }),
        KmsPlanePropertyKind::PixelBlendMode => match spec_pixel_blend_mode(enum_name, value) {
            Ok(m) => Ok(RawPlaneProperties { pixel_blend_mode: Some(m), ..raw }),
            Err(e) => Err(e),
        },
        KmsPlanePropertyKind::ColorEncoding => match spec_color_encoding(enum_name, value) {
            Ok(c) => Ok(RawPlaneProperties { color_encoding: Some(c), ..raw }),
            Err(e) => Err(e),
        },
        KmsPlanePropertyKind::ColorRange => match spec_color_range(enum_name, value) {
            Ok(c) => Ok(RawPlaneProperties { color_range: Some(c), ..raw }),
            Err(e) => Err(e),
        },
        KmsPlanePropertyKind::HotspotX => Ok(RawPlaneProperties { hotspot_x: Some(value), ..raw }),
        KmsPlanePropertyKind::HotspotY => Ok(RawPlaneProperties { hotspot_y: Some(value), ..raw }),
    }
}

impl RawPlaneProperties {
    pub fn for_plane_type(plane_type: KmsPlaneType) -> (raw: Self)
        ensures
            raw == spec_raw_for_type(plane_type),
    {
        RawPlaneProperties {
            plane_type: Some(
                match plane_type {
                    KmsPlaneType::Overlay => 0u64,
                    KmsPlaneType::Primary => 1u64,
                    KmsPlaneType::Cursor => 2u64,
                },
            ),
            zpos: None,
            source_x: None,
            source_y: None,
            source_width: None,
            source_height: None,
            destination_x: None,
            destination_y: None,
            destination_width: None,
            destination_height: None,
            rotation: None,
            alpha: None,
            pixel_blend_mode: None,
            color_encoding: None,
            color_range: None,
            hotspot_x: None,
            hotspot_y: None,
        }
    }

    /// Records the value of one cached property.
    pub fn record(&mut self, kind: KmsPlanePropertyKind, value: u64, enum_name: Option<&str>) -> (r:
        Result<(), KmsPropertyError>)
        ensures
            match spec_record(*old(self), kind, value, opt_str_view(enum_name)) {
                Ok(raw) => r is Ok && *final(self) == raw,
                Err(e) => r == Err::<(), KmsPropertyError>(e),
            },
    {
        match kind {
            KmsPlanePropertyKind::Zpos => self.zpos = Some(value),
            KmsPlanePropertyKind::SourceX => self.source_x = Some(value),
            KmsPlanePropertyKind::SourceY => self.source_y = Some(value),
            KmsPlanePropertyKind::SourceWidth => self.source_width = Some(value),
            KmsPlanePropertyKind::SourceHeight => self.source_height = Some(value),
            KmsPlanePropertyKind::DestinationX => self.destination_x = Some(value),
            KmsPlanePropertyKind::DestinationY => self.destination_y = Some(value),
            KmsPlanePropertyKind::DestinationWidth => self.destination_width = Some(value),
            KmsPlanePropertyKind::DestinationHeight => self.destination_height = Some(value),
            KmsPlanePropertyKind::Rotation => self.rotation = Some(value),
            KmsPlanePropertyKind::Alpha => self.alpha = Some(value),
            KmsPlanePropertyKind::PixelBlendMode => {
                self.pixel_blend_mode = Some(pixel_blend_mode(enum_name, value)?);
            },
            KmsPlanePropertyKind::ColorEncoding => {
                self.color_encoding = Some(color_encoding(enum_name, value)?);
            },
            KmsPlanePropertyKind::ColorRange => {
                self.color_range = Some(color_range(enum_name, value)?);
            },
            KmsPlanePropertyKind::HotspotX => self.hotspot_x = Some(value),
            KmsPlanePropertyKind::HotspotY => self.hotspot_y = Some(value),
        }
        Ok(())
    }
}

/// A plane property found at discovery: its handle, DRM name and current value.
#[derive(Debug, Clone, PartialEq, Eq)]
pub struct KmsDiscoveredProperty {
    pub handle: u32,
    pub name: String,
    pub value: u64,
}

/// A cached plane property: the handle under which its value is read, and its meaning.
#[derive(Debug, Clone, Copy, PartialEq, Eq)]
pub struct KmsPlaneProperty {
    pub handle: u32,
    pub kind: KmsPlanePropertyKind,
}

/// A property value read at capture time, with the name DRM gives an enum value.
#[derive(Debug, Clone, PartialEq, Eq)]
pub struct KmsPropertyValue {
    pub handle: u32,
    pub value: u64,
    pub enum_name: Option<String>,
}

/// Discovery state after the given properties: the plane type found so far and the
/// cached properties in discovery order, or the first invalid plane type.
pub open spec fn spec_discover(props: Seq<KmsDiscoveredProperty>) -> Result<
    (Option<KmsPlaneType>, Seq<KmsPlaneProperty>),
    KmsPropertyError,
>
    decreases props.len(),
{
    if props.len() == 0 {
        Ok((None, Seq::empty()))
    } else {
        match spec_discover(props.drop_last()) {
            Err(e) => Err(e),
            Ok((found, cached)) => {
                let p = props.last();
                match spec_classify_plane_property(p.name@) {
                    Some(KmsPropertyRole::PlaneType) => match spec_plane_type(p.value) {
                        Ok(t) => Ok((Some(t), cached)),
                        Err(e) => Err(e),
                    },
                    Some(KmsPropertyRole::Cached(kind)) => Ok(
                        (found, cached.push(KmsPlaneProperty { handle: p.handle, kind })),
                    ),
                    None => Ok((found, cached)),
                }
            },
        }
    }
}

/// The plane type and the cached properties of a plane, from the properties DRM lists.
pub open spec fn spec_discover_plane_properties(props: Seq<KmsDiscoveredProperty>) -> Result<
    (KmsPlaneType, Seq<KmsPlaneProperty>),
    KmsPropertyError,
> {
    match spec_discover(props) {
        Err(e) => Err(e),
        Ok((None, _)) => Err(KmsPropertyError::MissingProperty { property: "type" }),
        Ok((Some(t), cached)) => Ok((t, cached)),
    }
}

/// Determines the type of a plane and which of its properties to read on every capture.
pub fn discover_plane_properties(properties: &[KmsDiscoveredProperty]) -> (r: Result<
    (KmsPlaneType, Vec<KmsPlaneProperty>),
    KmsPropertyError,
>)
    ensures
        match r {
            Ok((t, cached)) => spec_discover_plane_properties(properties@) == Ok::<
                (KmsPlaneType, Seq<KmsPlaneProperty>),
                KmsPropertyError,
            >((t, cached@)),
            Err(e) => spec_discover_plane_properties(properties@) == Err::<
                (KmsPlaneType, Seq<KmsPlaneProperty>),
                KmsPropertyError,
            >(e),
        },
{
    let mut discovered: Option<KmsPlaneType> = None;
    let mut cached: Vec<KmsPlaneProperty> = Vec::new();
    let mut i: usize = 0;
    while i < properties.len()
        invariant
            i <= properties@.len(),
            spec_discover(properties@.take(i as int)) == Ok::<
                (Option<KmsPlaneType>, Seq<KmsPlaneProperty>),
                KmsPropertyError,
            >((discovered, cached@)),
        decreases properties@.len() - i,
    {
        let property = &properties[i];
        proof {
            assert(properties@.take(i + 1).drop_last() =~= properties@.take(i as int));
            assert(properties@.take(i + 1).last() == properties@[i as int]);
        }
        match classify_plane_property(property.name.as_str()) {
            Some(KmsPropertyRole::PlaneType) => {
                match plane_type(property.value) {
                    Ok(t) => discovered = Some(t),
                    Err(e) => {
                        proof {
                            lemma_discover_error_persists(properties@, i + 1);
                        }
                        return Err(e);
                    },
                }
            },
            Some(KmsPropertyRole::Cached(kind)) => {
                cached.push(KmsPlaneProperty { handle: property.handle, kind });
            },
            None => {},
        }
        i = i + 1;
    }
    proof {
        assert(properties@.take(properties@.len() as int) =~= properties@);
    }
    match discovered {
        Some(t) => Ok((t, cached)),
        None => Err(KmsPropertyError::MissingProperty { property: "type" }),
    }
}

/// The meaning of the first cached property with the given handle.
pub open spec fn spec_find_kind(cached: Seq<KmsPlaneProperty>, handle: u32) -> Option<
    KmsPlanePropertyKind,
>
    decreases cached.len(),
{
    if cached.len() == 0 {
        None
    } else if cached[0].handle == handle {
        Some(cached[0].kind)
    } else {
        spec_find_kind(cached.drop_first(), handle)
    }
}

pub open spec fn opt_string_view(s: Option<String>) -> Option<Seq<char>> {
    match s {
        Some(s) => Some(s@),
        None => None,
    }
}

/// The raw values after reading the given property values in order; values of
/// properties that were not cached are skipped.
pub open spec fn spec_read_values(
    init: RawPlaneProperties,
    cached: Seq<KmsPlaneProperty>,
    values: Seq<KmsPropertyValue>,
) -> Result<RawPlaneProperties, KmsPropertyError>
    decreases values.len(),
{
    if values.len() == 0 {
        Ok(init)
    } else {
        match spec_read_values(init, cached, values.drop_last()) {
            Err(e) => Err(e),
            Ok(raw) => {
                let v = values.last();
                match spec_find_kind(cached, v.handle) {
                    None => Ok(raw),
                    Some(kind) => spec_record(raw, kind, v.value, opt_string_view(v.enum_name)),
                }
            },
        }
    }
}

/// The state of a plane from the property values read at capture time.
pub open spec fn spec_query_plane_properties(
    plane_type: KmsPlaneType,
    cached: Seq<KmsPlaneProperty>,
    values: Seq<KmsPropertyValue>,
) -> Result<KmsPlaneProperties, KmsPropertyError> {
    match spec_read_values(spec_raw_for_type(plane_type), cached, values) {
        Err(e) => Err(e),
        Ok(raw) => spec_plane_properties(raw),
    }
}

proof fn lemma_discover_error_persists(props: Seq<KmsDiscoveredProperty>, k: int)
    requires
        0 <= k <= props.len(),
        spec_discover(props.take(k)) is Err,
    ensures
        spec_discover(props) == spec_discover(props.take(k)),
    decreases props.len() - k,
{
    if k < props.len() {
        assert(props.take(k + 1).drop_last() =~= props.take(k));
        lemma_discover_error_persists(props, k + 1);
    } else {
        assert(props.take(k) =~= props);
    }
}

proof fn lemma_read_error_persists(
    init: RawPlaneProperties,
    cached: Seq<KmsPlaneProperty>,
    values: Seq<KmsPropertyValue>,
    k: int,
)
    requires
        0 <= k <= values.len(),
        spec_read_values(init, cached, values.take(k)) is Err,
    ensures
        spec_read_values(init, cached, values) == spec_read_values(init, cached, values.take(k)),
    decreases values.len() - k,
{
    if k < values.len() {
        assert(values.take(k + 1).drop_last() =~= values.take(k));
        lemma_read_error_persists(init, cached, values, k + 1);
    } else {
        assert(values.take(k) =~= values);
    }
}

fn find_kind(cached: &[KmsPlaneProperty], handle: u32) -> (r: Option<KmsPlanePropertyKind>)
    ensures
        r == spec_find_kind(cached@, handle),
{
    assert(cached@.skip(0) =~= cached@);
    let mut i: usize = 0;
    while i < cached.len()
        invariant
            i <= cached@.len(),
            spec_find_kind(cached@, handle) == spec_find_kind(cached@.skip(i as int), handle),
        decreases cached@.len() - i,
    {
        proof {
            assert(cached@.skip(i as int).drop_first() =~= cached@.skip(i + 1));
        }
        if cached[i].handle == handle {
            return Some(cached[i].kind);
        }
        i = i + 1;
    }
    proof {
        assert(cached@.skip(i as int).len() == 0);
    }
    None
}

/// Interprets the property values read from a plane of the given type whose cached
/// properties were discovered before.
pub fn query_plane_properties(
    plane_type: KmsPlaneType,
    cached: &[KmsPlaneProperty],
    values: &[KmsPropertyValue],
) -> (r: Result<KmsPlaneProperties, KmsPropertyError>)
    ensures
        r == spec_query_plane_properties(plane_type, cached@, values@),
{
    let mut raw = RawPlaneProperties::for_plane_type(plane_type);
    let mut i: usize = 0;
    while i < values.len()
        invariant
            i <= values@.len(),
            spec_read_values(spec_raw_for_type(plane_type), cached@, values@.take(i as int))
                == Ok::<RawPlaneProperties, KmsPropertyError>(raw),
        decreases values@.len() - i,
    {
        let v = &values[i];
        proof {
            assert(values@.take(i + 1).drop_last() =~= values@.take(i as int));
            assert(values@.take(i + 1).last() == values@[i as int]);
        }
        match find_kind(cached, v.handle) {
            None => {},
            Some(kind) => {
                let name: Option<&str> = match &v.enum_name {
                    Some(n) => Some(n.as_str()),
                    None => None,
                };
                assert(opt_str_view(name) == opt_string_view(v.enum_name));
                match raw.record(kind, v.value, name) {
                    Ok(()) => {},
                    Err(e) => {
                        proof {
                            lemma_read_error_persists(
                                spec_raw_for_type(plane_type),
                                cached@,
                                values@,
                                i + 1,
                            );
                        }
                        return Err(e);
                    },
                }
            },
        }
        i = i + 1;
    }
    proof {
        assert(values@.take(values@.len() as int) =~= values@);
    }
    KmsPlaneProperties::try_from(raw)
}


/// How a plane whose type, zpos and source and destination rectangles are
/// present and in range, and which has no rotation or hotspot property, is
/// read: an alpha above 16 bits is refused; color encoding and range come
/// together or not at all; otherwise the plane is opaque unless it has an
/// alpha, uses the default transform and, without color properties, the
/// default color; a cursor plane gets the hotspot (0, 0) and no other plane
/// gets one; the plane has no placement exactly when a rectangle is empty;
/// and a destination x of all ones is -1.
pub proof fn plane_property_defaults(v: RawPlaneProperties)
    requires
        v.plane_type matches Some(t) && t <= 2,
        v.zpos is Some,
        spec_unsigned_32(v.source_x, "SRC_X") is Ok,
        spec_unsigned_32(v.source_y, "SRC_Y") is Ok,
        spec_unsigned_32(v.source_width, "SRC_W") is Ok,
        spec_unsigned_32(v.source_height, "SRC_H") is Ok,
        spec_signed_32(v.destination_x, "CRTC_X") is Ok,
        spec_signed_32(v.destination_y, "CRTC_Y") is Ok,
        spec_unsigned_32(v.destination_width, "CRTC_W") is Ok,
        spec_unsigned_32(v.destination_height, "CRTC_H") is Ok,
        v.rotation is None,
        v.hotspot_x is None,
        v.hotspot_y is None,
    ensures
        v.alpha matches Some(a) && a > u16::MAX ==> spec_plane_properties(v) == Err::<
            KmsPlaneProperties,
            KmsPropertyError,
        >(KmsPropertyError::InvalidProperty { property: "alpha", value: v.alpha->0 }),
        !(v.alpha matches Some(a) && a > u16::MAX) && v.color_encoding is Some
            && v.color_range is None ==> spec_plane_properties(v) == Err::<
            KmsPlaneProperties,
            KmsPropertyError,
        >(KmsPropertyError::MissingProperty { property: "COLOR_RANGE" }),
        !(v.alpha matches Some(a) && a > u16::MAX) && v.color_encoding is None
            && v.color_range is Some ==> spec_plane_properties(v) == Err::<
            KmsPlaneProperties,
            KmsPropertyError,
        >(KmsPropertyError::MissingProperty { property: "COLOR_ENCODING" }),
        !(v.alpha matches Some(a) && a > u16::MAX) && (v.color_encoding is Some
            == v.color_range is Some) ==> {
            let r = spec_plane_properties(v);
            &&& r is Ok
            &&& r->Ok_0.blend.alpha == match v.alpha {
                Some(a) => a as u16,
                None => u16::MAX,
            }
            &&& v.color_encoding is None ==> r->Ok_0.color == default_color()
            &&& r->Ok_0.cursor_hotspot == if v.plane_type->0 == 2 {
                Some(KmsCursorHotspot { x: 0, y: 0 })
            } else {
                None
            }
            &&& (r->Ok_0.placement is None) == (v.source_width->0 == 0 || v.source_height->0 == 0
                || v.destination_width->0 == 0 || v.destination_height->0 == 0)
            &&& r->Ok_0.placement matches Some(p) ==> p.transform == default_transform()
                && p.zpos == v.zpos->0
            &&& v.destination_x == Some(u64::MAX) && r->Ok_0.placement is Some
                ==> r->Ok_0.placement->0.destination.x == -1
        },
{
}


/// How many quarter turns a plane rotation is.
pub open spec fn rotation_quarter_turns(r: KmsRotation) -> int {
    match r {
        KmsRotation::Rotate0 => 0,
        KmsRotation::Rotate90 => 1,
        KmsRotation::Rotate180 => 2,
        KmsRotation::Rotate270 => 3,
    }
}

/// DRM's rotation property sets bit `k` (`DRM_MODE_ROTATE_0` = 1 << 0 up to
/// `DRM_MODE_ROTATE_270` = 1 << 3) for a rotation of `k` quarter turns, and
/// bits 4 and 5 for reflection along x and y: every such value reads as
/// exactly that transform.
pub proof fn drm_rotation_flags_are_read_as_their_transform(k: u64, reflect: u64)
    requires
        k < 4,
        reflect < 4,
    ensures
        ({
            let r = spec_plane_transform((1u64 << k) | (reflect << 4u64));
            &&& r is Ok
            &&& rotation_quarter_turns(r->Ok_0.rotation) == k
            &&& r->Ok_0.reflect_x == (reflect % 2 == 1)
            &&& r->Ok_0.reflect_y == (reflect >= 2)
        }),
{
    let v = (1u64 << k) | (reflect << 4u64);
    assert(v & !0x3Fu64 == 0 && v & 0x0Fu64 == 1u64 << k && ((v & 0x10u64) != 0) == (reflect % 2 == 1)
        && ((v & 0x20u64) != 0) == (reflect >= 2)) by (bit_vector)
        requires
            k < 4,
            reflect < 4,
            v == (1u64 << k) | (reflect << 4u64),
    ;
    assert(k == 0 ==> 1u64 << k == 1) by (bit_vector);
    assert(k == 1 ==> 1u64 << k == 2) by (bit_vector);
    assert(k == 2 ==> 1u64 << k == 4) by (bit_vector);
    assert(k == 3 ==> 1u64 << k == 8) by (bit_vector);
}

/// A rotation property value that reads as a transform has exactly the bit
/// of that rotation's quarter turns set among bits 0 to 3, and no bit above 5.
pub proof fn a_read_rotation_comes_from_its_flag(value: u64)
    requires
        spec_plane_transform(value) is Ok,
    ensures
        value & 0x0Fu64 == 1u64 << (rotation_quarter_turns(spec_plane_transform(value)->Ok_0.rotation) as u64),
        value < 64,
{
    assert(1u64 << 0u64 == 1 && 1u64 << 1u64 == 2 && 1u64 << 2u64 == 4 && 1u64 << 3u64 == 8) by (bit_vector);
    assert(value & !0x3Fu64 == 0 ==> value < 64) by (bit_vector);
}

} // verus!
