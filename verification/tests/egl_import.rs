use rabbit_infra::dma_buf::{DmaBufPlane, DRM_FORMAT_MOD_INVALID, DRM_FORMAT_NV12, DRM_FORMAT_XRGB8888};
use rabbit_infra::egl_import::{
    color_space_hint, dma_buf_import_attributes, has_extension, sample_range_hint, EglImportError,
    EGL_HEIGHT, EGL_NONE, EGL_WIDTH, LINUX_DRM_FOURCC_EXT,
};
use rabbit_infra::geometry::PixelSize;
use rabbit_infra::gl_composition::{composition_target_size, pixel_blend_mode, CompositionTargetError};
use rabbit_infra::kms_plane::{KmsColorEncoding, KmsColorRange, KmsPixelBlendMode, KmsPlaneColor};
use rabbit_infra::video_caps::{
    ITU_REC2020_EXT, ITU_REC601_EXT, ITU_REC709_EXT, SAMPLE_RANGE_HINT_EXT, YUV_COLOR_SPACE_HINT_EXT,
    YUV_FULL_RANGE_EXT, YUV_NARROW_RANGE_EXT,
};

fn plane(object_index: usize, offset: u32, stride: u32, modifier: u64) -> DmaBufPlane {
    DmaBufPlane { object_index, offset, stride, modifier }
}

const SIZE: PixelSize = PixelSize { width: 1920, height: 1080 };

#[test]
fn single_plane_without_modifier_lists_size_format_and_plane() {
    let attributes = dma_buf_import_attributes(SIZE, DRM_FORMAT_XRGB8888, &[plane(0, 0, 7680, DRM_FORMAT_MOD_INVALID)], &[11], None, false)
        .expect("frame should import");
    assert_eq!(
        attributes,
        vec![
            EGL_WIDTH, 1920, EGL_HEIGHT, 1080, LINUX_DRM_FOURCC_EXT, DRM_FORMAT_XRGB8888 as usize,
            0x3272, 11, 0x3273, 0, 0x3274, 7680,
            EGL_NONE,
        ]
    );
}

#[test]
fn modifiers_are_split_into_halves_and_colors_become_hints() {
    let color = KmsPlaneColor { encoding: KmsColorEncoding::Bt709, range: KmsColorRange::Full };
    let modifier = 0x0100_0000_0000_0002u64;
    let attributes = dma_buf_import_attributes(
        SIZE,
        DRM_FORMAT_NV12,
        &[plane(0, 0, 2048, modifier), plane(1, 4096, 2048, modifier)],
        &[20, 21],
        Some(color),
        true,
    )
    .expect("frame should import");
    assert_eq!(
        attributes,
        vec![
            EGL_WIDTH, 1920, EGL_HEIGHT, 1080, LINUX_DRM_FOURCC_EXT, DRM_FORMAT_NV12 as usize,
            YUV_COLOR_SPACE_HINT_EXT, ITU_REC709_EXT, SAMPLE_RANGE_HINT_EXT, YUV_FULL_RANGE_EXT,
            0x3272, 20, 0x3273, 0, 0x3274, 2048, 0x3443, 2, 0x3444, 0x0100_0000,
            0x3275, 21, 0x3276, 4096, 0x3277, 2048, 0x3445, 2, 0x3446, 0x0100_0000,
            EGL_NONE,
        ]
    );
}

#[test]
fn frames_that_cannot_be_described_are_rejected() {
    assert_eq!(
        dma_buf_import_attributes(SIZE, DRM_FORMAT_XRGB8888, &[], &[1], None, true),
        Err(EglImportError::MissingDmaBufPlanes)
    );
    let five = vec![plane(0, 0, 1, DRM_FORMAT_MOD_INVALID); 5];
    assert_eq!(
        dma_buf_import_attributes(SIZE, DRM_FORMAT_XRGB8888, &five, &[1], None, true),
        Err(EglImportError::TooManyDmaBufPlanes { count: 5, maximum: 4 })
    );
    assert_eq!(
        dma_buf_import_attributes(SIZE, DRM_FORMAT_NV12, &[plane(0, 0, 1, DRM_FORMAT_MOD_INVALID), plane(1, 0, 1, DRM_FORMAT_MOD_INVALID)], &[1], None, true),
        Err(EglImportError::MissingDmaBufObject { plane_index: 1, object_index: 1 })
    );
    assert_eq!(
        dma_buf_import_attributes(SIZE, DRM_FORMAT_XRGB8888, &[plane(0, 0, 1, 0)], &[1], None, false),
        Err(EglImportError::UnsupportedFormat { format: DRM_FORMAT_XRGB8888, modifier: 0 })
    );
}

#[test]
fn color_hints_follow_the_plane_color() {
    assert_eq!(color_space_hint(KmsColorEncoding::Bt601), ITU_REC601_EXT);
    assert_eq!(color_space_hint(KmsColorEncoding::Bt709), ITU_REC709_EXT);
    assert_eq!(color_space_hint(KmsColorEncoding::Bt2020), ITU_REC2020_EXT);
    assert_eq!(sample_range_hint(KmsColorRange::Limited), YUV_NARROW_RANGE_EXT);
    assert_eq!(sample_range_hint(KmsColorRange::Full), YUV_FULL_RANGE_EXT);
}

#[test]
fn extensions_match_whole_names_only() {
    let extensions = b"EGL_KHR_image_base EGL_EXT_image_dma_buf_import\tEGL_EXT_image_dma_buf_import_modifiers";
    assert!(has_extension(extensions, "EGL_EXT_image_dma_buf_import"));
    assert!(has_extension(extensions, "EGL_EXT_image_dma_buf_import_modifiers"));
    assert!(has_extension(extensions, "EGL_KHR_image_base"));
    assert!(!has_extension(extensions, "EGL_KHR_image"));
    assert!(!has_extension(extensions, "EGL_ANDROID_native_fence_sync"));
    assert!(has_extension(b"", ""));
    assert!(!has_extension(b"A", ""));
}

#[test]
fn composition_values_fit_opengl() {
    assert_eq!(pixel_blend_mode(KmsPixelBlendMode::NoPixelAlpha), 0);
    assert_eq!(pixel_blend_mode(KmsPixelBlendMode::PreMultiplied), 1);
    assert_eq!(pixel_blend_mode(KmsPixelBlendMode::Coverage), 2);
    assert_eq!(composition_target_size(SIZE), Ok((1920, 1080)));
    assert_eq!(
        composition_target_size(PixelSize { width: 1 << 31, height: 1 }),
        Err(CompositionTargetError::WidthExceedsLimits { width: 1 << 31 })
    );
    assert_eq!(
        composition_target_size(PixelSize { width: 1, height: u32::MAX }),
        Err(CompositionTargetError::HeightExceedsLimits { height: u32::MAX })
    );
}
