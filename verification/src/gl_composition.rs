//! Integer values the OpenGL composition passes to its shaders and viewport.
use vstd::prelude::*;
use crate::geometry::PixelSize;
use crate::kms_plane::KmsPixelBlendMode;

verus! {

/// The shader's encoding of a KMS pixel blend mode: 0 ignores the pixel
/// alpha, 1 blends premultiplied colors, 2 blends by coverage.
pub fn pixel_blend_mode(mode: KmsPixelBlendMode) -> (value: i32)
    ensures
        value == (match mode {
            KmsPixelBlendMode::NoPixelAlpha => 0i32,
            KmsPixelBlendMode::PreMultiplied => 1i32,
            KmsPixelBlendMode::Coverage => 2i32,
        }),
{
    match mode {
        KmsPixelBlendMode::NoPixelAlpha => 0,
        KmsPixelBlendMode::PreMultiplied => 1,
        KmsPixelBlendMode::Coverage => 2,
    }
}

/// A composition target dimension that OpenGL cannot address.
#[derive(Debug, Clone, Copy, PartialEq, Eq)]
pub enum CompositionTargetError {
    WidthExceedsLimits { width: u32 },
    HeightExceedsLimits { height: u32 },
}

/// The viewport size of a composition target, as OpenGL's signed integers.
pub fn composition_target_size(size: PixelSize) -> (r: Result<(i32, i32), CompositionTargetError>)
    ensures
        match r {
            Ok((w, h)) => size.width <= i32::MAX && size.height <= i32::MAX && w == size.width && h
                == size.height,
            Err(CompositionTargetError::WidthExceedsLimits { width }) => size.width > i32::MAX
                && width == size.width,
            Err(CompositionTargetError::HeightExceedsLimits { height }) => size.width <= i32::MAX
                && size.height > i32::MAX && height == size.height,
        },
{
    if size.width > i32::MAX as u32 {
        return Err(CompositionTargetError::WidthExceedsLimits { width: size.width });
    }
    if size.height > i32::MAX as u32 {
        return Err(CompositionTargetError::HeightExceedsLimits { height: size.height });
    }
    Ok((size.width as i32, size.height as i32))
}

} // verus!
