use rabbit_infra::video_caps::{vpp_input_modifiers, NoVppModifier};
use rabbit_infra::dma_buf::{DRM_FORMAT_MOD_INVALID, DRM_FORMAT_NV12, DRM_FORMAT_R8, DRM_FORMAT_XRGB8888};
use rabbit_infra::geometry::{FrameRate, PixelSize};
use rabbit_infra::video_caps::{
    decoded_dma_buf_caps, dmabuf_caps, egl_yuv_color_attributes, gstreamer_colorimetry, h264_access_unit_caps,
    h264_rtp_caps, va_vpp_output_caps, CapsValue, DmaBufCapsError, ITU_REC709_EXT, SAMPLE_RANGE_HINT_EXT,
    YUV_COLOR_SPACE_HINT_EXT, YUV_NARROW_RANGE_EXT,
};

const FULL_HD: PixelSize = PixelSize { width: 1920, height: 1080 };

#[test]
fn decoded_output_caps_require_dma_buf_memory() {
    let caps = decoded_dma_buf_caps();

    assert_eq!(caps.memory_feature, Some("memory:DMABuf"));
    assert_eq!(caps.field("format"), Some(CapsValue::Text("DMA_DRM")));
}

#[test]
fn maps_stream_color_contract_to_linux_apis() {
    assert_eq!(gstreamer_colorimetry(), "bt709");
    assert_eq!(
        egl_yuv_color_attributes(),
        [YUV_COLOR_SPACE_HINT_EXT, ITU_REC709_EXT, SAMPLE_RANGE_HINT_EXT, YUV_NARROW_RANGE_EXT]
    );
}

#[test]
fn rtp_and_access_unit_caps_describe_h264() {
    let rtp = h264_rtp_caps();
    assert_eq!(rtp.media_type, "application/x-rtp");
    assert_eq!(rtp.field("media"), Some(CapsValue::Text("video")));
    assert_eq!(rtp.field("encoding-name"), Some(CapsValue::Text("H264")));
    assert_eq!(rtp.field("clock-rate"), Some(CapsValue::Int(90_000)));
    assert_eq!(rtp.field("missing"), None);

    let access_units = h264_access_unit_caps();
    assert_eq!(access_units.media_type, "video/x-h264");
    assert_eq!(access_units.field("alignment"), Some(CapsValue::Text("au")));
}

#[test]
fn dma_buf_caps_distinguish_full_range_rgb_from_limited_range_nv12() {
    let rate = FrameRate::new(120, 1);
    let rgb = dmabuf_caps(FULL_HD, DRM_FORMAT_XRGB8888, DRM_FORMAT_MOD_INVALID, rate).expect("XRGB caps");
    let nv12 = dmabuf_caps(FULL_HD, DRM_FORMAT_NV12, DRM_FORMAT_MOD_INVALID, rate).expect("NV12 caps");

    assert_eq!(rgb.field("colorimetry"), Some(CapsValue::Text("sRGB")));
    assert_eq!(rgb.field("drm-format"), Some(CapsValue::Text("XR24")));
    assert_eq!(nv12.field("colorimetry"), Some(CapsValue::Text("bt709")));
    assert_eq!(nv12.field("drm-format"), Some(CapsValue::Text("NV12")));
    assert_eq!(nv12.field("framerate"), Some(CapsValue::Fraction(120, 1)));
    assert_eq!(nv12.field("width"), Some(CapsValue::Int(1920)));
    assert_eq!(nv12.field("height"), Some(CapsValue::Int(1080)));
    assert_eq!(nv12.field("interlace-mode"), Some(CapsValue::Text("progressive")));
}

#[test]
fn dma_buf_caps_carry_explicit_modifiers_and_unknown_rates() {
    let caps = dmabuf_caps(FULL_HD, DRM_FORMAT_NV12, 0x0100_0000_0000_0002, None).expect("NV12 caps");

    assert_eq!(
        caps.field("drm-format"),
        Some(CapsValue::DrmFormat { fourcc: DRM_FORMAT_NV12, modifier: 0x0100_0000_0000_0002 })
    );
    assert_eq!(caps.field("framerate"), Some(CapsValue::Fraction(0, 1)));
}

#[test]
fn dma_buf_caps_reject_what_they_cannot_name() {
    assert_eq!(
        dmabuf_caps(FULL_HD, DRM_FORMAT_R8, DRM_FORMAT_MOD_INVALID, None).err(),
        Some(DmaBufCapsError::UnsupportedModifierlessFormat { format: DRM_FORMAT_R8 })
    );
    assert_eq!(
        dmabuf_caps(FULL_HD, DRM_FORMAT_R8, 0, None).err(),
        Some(DmaBufCapsError::UnsupportedColorimetry { format: DRM_FORMAT_R8 })
    );
    assert_eq!(
        dmabuf_caps(PixelSize { width: u32::MAX, height: 1 }, DRM_FORMAT_NV12, 0, None).err(),
        Some(DmaBufCapsError::WidthTooLarge)
    );
    assert_eq!(
        dmabuf_caps(PixelSize { width: 1, height: u32::MAX }, DRM_FORMAT_NV12, 0, None).err(),
        Some(DmaBufCapsError::HeightTooLarge)
    );
    assert_eq!(
        dmabuf_caps(FULL_HD, DRM_FORMAT_NV12, 0, FrameRate::new(u32::MAX, 1)).err(),
        Some(DmaBufCapsError::FrameRateNumeratorTooLarge)
    );
    assert_eq!(
        dmabuf_caps(FULL_HD, DRM_FORMAT_NV12, 0, FrameRate::new(1, u32::MAX)).err(),
        Some(DmaBufCapsError::FrameRateDenominatorTooLarge)
    );
}

#[test]
fn va_vpp_output_is_bt709_limited_range() {
    let output = va_vpp_output_caps(1920, 1080, (120, 1));

    assert_eq!(output.memory_feature, Some("memory:VAMemory"));
    assert_eq!(output.field("format"), Some(CapsValue::Text("NV12")));
    assert_eq!(output.field("colorimetry"), Some(CapsValue::Text("bt709")));
    assert_eq!(output.field("framerate"), Some(CapsValue::Fraction(120, 1)));
}

#[test]
fn vpp_modifiers_keep_caps_order_without_repeats() {

    let candidates = [
        (DRM_FORMAT_NV12, 0),
        (DRM_FORMAT_XRGB8888, 0x0100_0000_0000_0002),
        (DRM_FORMAT_XRGB8888, 0),
        (DRM_FORMAT_XRGB8888, 0x0100_0000_0000_0002),
    ];
    assert_eq!(vpp_input_modifiers(&candidates, DRM_FORMAT_XRGB8888), Ok(vec![0x0100_0000_0000_0002, 0]));
    assert_eq!(vpp_input_modifiers(&candidates, DRM_FORMAT_NV12), Ok(vec![0]));
    assert_eq!(vpp_input_modifiers(&candidates[..1], DRM_FORMAT_XRGB8888), Err(NoVppModifier { format: DRM_FORMAT_XRGB8888 }));
}
