use rabbit_infra::dma_buf::{
    combine_separate_nv12, decoded_plane, encoder_input_layout, input_signature_from_caps, nv12_chroma_size,
    CapsSignatureError, DecodedPlaneError, DmaBufInputSignature, DmaBufLayout, DmaBufPlane, DmaBufPool,
    EncoderInputError, FenceWaitFailed, PoolAcquire, PoolRelease, SeparateNv12Error, DRM_FORMAT_GR88, DRM_FORMAT_NV12, DRM_FORMAT_R8,
    DRM_FORMAT_XRGB8888,
};
use rabbit_infra::geometry::{FrameRate, PixelSize};

const SIZE: PixelSize = PixelSize { width: 1920, height: 1080 };

fn plane(object_index: usize, offset: u32, stride: u32, modifier: u64) -> DmaBufPlane {
    DmaBufPlane { object_index, offset, stride, modifier }
}

fn nv12(objects: Vec<usize>, planes: Vec<DmaBufPlane>) -> DmaBufLayout {
    DmaBufLayout { size: SIZE, format: DRM_FORMAT_NV12, object_sizes: objects, planes }
}

fn rate() -> FrameRate {
    FrameRate::new(60, 1).unwrap()
}

#[test]
fn accepts_dmabuf_video_frames() {
    let frame = nv12(vec![4096, 2048], vec![plane(0, 0, 1920, 5), plane(1, 16, 1920, 5)]);

    let layout = encoder_input_layout(&frame, false, rate(), None).expect("two-object NV12 should be accepted");

    assert_eq!(layout.offsets, vec![0, 4096 + 16]);
    assert_eq!(layout.strides, vec![1920, 1920]);
    assert_eq!(layout.total_size, 6144);
    assert_eq!(
        layout.signature,
        DmaBufInputSignature { size: SIZE, format: DRM_FORMAT_NV12, modifier: 5, frame_rate: rate() }
    );
}

#[test]
fn rejects_frames_the_encoder_cannot_take() {
    let good = nv12(vec![4096], vec![plane(0, 0, 1920, 5), plane(0, 2048, 1920, 5)]);
    assert_eq!(encoder_input_layout(&good, true, rate(), None).err(), Some(EncoderInputError::UnresolvedReadinessFence));

    let mut p010 = good.clone();
    p010.format = 0x3031_3050;
    assert_eq!(encoder_input_layout(&p010, false, rate(), None).err(), Some(EncoderInputError::UnsupportedFormat { format: 0x3031_3050 }));

    let mut one_plane = good.clone();
    one_plane.planes.pop();
    assert_eq!(encoder_input_layout(&one_plane, false, rate(), None).err(), Some(EncoderInputError::PlaneCount { expected: 2, actual: 1 }));

    let no_objects = nv12(vec![], good.planes.clone());
    assert_eq!(encoder_input_layout(&no_objects, false, rate(), None).err(), Some(EncoderInputError::NoObjects));

    let mixed = nv12(vec![4096], vec![plane(0, 0, 1920, 5), plane(0, 2048, 1920, 6)]);
    assert_eq!(encoder_input_layout(&mixed, false, rate(), None).err(), Some(EncoderInputError::MixedModifiers));

    let three = nv12(vec![1, 2, 3], good.planes.clone());
    assert_eq!(encoder_input_layout(&three, false, rate(), None).err(), Some(EncoderInputError::TooManyObjects { count: 3 }));

    let overflow = nv12(vec![usize::MAX, 1], good.planes.clone());
    assert_eq!(encoder_input_layout(&overflow, false, rate(), None).err(), Some(EncoderInputError::ObjectSizesOverflow));

    let missing = nv12(vec![4096], vec![plane(0, 0, 1920, 5), plane(1, 0, 1920, 5)]);
    assert_eq!(encoder_input_layout(&missing, false, rate(), None).err(), Some(EncoderInputError::MissingObject { plane: 1, object: 1 }));

    let outside = nv12(vec![4096], vec![plane(0, 4096, 1920, 5), plane(0, 0, 1920, 5)]);
    assert_eq!(encoder_input_layout(&outside, false, rate(), None).err(), Some(EncoderInputError::PlaneOffsetOutOfObject { plane: 0 }));

    let wide = nv12(vec![4096], vec![plane(0, 0, 1920, 5), plane(0, 0, u32::MAX, 5)]);
    assert_eq!(encoder_input_layout(&wide, false, rate(), None).err(), Some(EncoderInputError::StrideTooLarge { plane: 1 }));
}

#[test]
fn later_frames_must_match_the_negotiated_input() {
    let first = DmaBufLayout { size: SIZE, format: DRM_FORMAT_XRGB8888, object_sizes: vec![8_294_400], planes: vec![plane(0, 0, 7680, 0)] };
    let negotiated = encoder_input_layout(&first, false, rate(), None).unwrap().signature;
    assert!(encoder_input_layout(&first, false, rate(), Some(negotiated)).is_ok());

    let mut resized = first.clone();
    resized.size = PixelSize { width: 1280, height: 720 };
    match encoder_input_layout(&resized, false, rate(), Some(negotiated)) {
        Err(EncoderInputError::InputChanged { expected, actual }) => {
            assert_eq!(expected, negotiated);
            assert_eq!(actual.size, PixelSize { width: 1280, height: 720 });
        }
        other => panic!("expected an input change, got {other:?}"),
    }
}

#[test]
fn caps_signatures_require_non_negative_values() {
    assert_eq!(
        input_signature_from_caps(1920, 1080, DRM_FORMAT_NV12, 0, 60, 1),
        Ok(DmaBufInputSignature { size: SIZE, format: DRM_FORMAT_NV12, modifier: 0, frame_rate: rate() })
    );
    assert_eq!(input_signature_from_caps(1920, 1080, 0, 0, -1, 1), Err(CapsSignatureError::NegativeFrameRateNumerator));
    assert_eq!(input_signature_from_caps(1920, 1080, 0, 0, 1, -1), Err(CapsSignatureError::NegativeFrameRateDenominator));
    assert_eq!(input_signature_from_caps(-1, 1080, 0, 0, 1, 1), Err(CapsSignatureError::NegativeWidth));
    assert_eq!(input_signature_from_caps(1, -1, 0, 0, 1, 1), Err(CapsSignatureError::NegativeHeight));
    assert_eq!(input_signature_from_caps(1, 1, 0, 0, 0, 1), Err(CapsSignatureError::InvalidFrameRate));
}

#[test]
fn separate_luma_and_chroma_buffers_form_one_nv12_frame() {
    let chroma_size = nv12_chroma_size(SIZE);
    assert_eq!(chroma_size, PixelSize { width: 960, height: 540 });
    let luma = DmaBufLayout { size: SIZE, format: DRM_FORMAT_R8, object_sizes: vec![2_073_600], planes: vec![plane(0, 0, 1920, 3)] };
    let chroma = DmaBufLayout { size: chroma_size, format: DRM_FORMAT_GR88, object_sizes: vec![1_036_800], planes: vec![plane(0, 0, 1920, 3)] };

    let frame = combine_separate_nv12(SIZE, &luma, &chroma).expect("matching planes combine");

    assert_eq!(frame.format, DRM_FORMAT_NV12);
    assert_eq!(frame.object_sizes, vec![2_073_600, 1_036_800]);
    assert_eq!(frame.planes, vec![plane(0, 0, 1920, 3), plane(1, 0, 1920, 3)]);

    let mut other = chroma.clone();
    other.planes[0].modifier = 4;
    assert_eq!(combine_separate_nv12(SIZE, &luma, &other).err(), Some(SeparateNv12Error::MixedModifiers { luma: 3, chroma: 4 }));
    let mut two = luma.clone();
    two.planes.push(plane(0, 0, 1, 3));
    assert_eq!(combine_separate_nv12(SIZE, &two, &chroma).err(), Some(SeparateNv12Error::PlaneCount { luma: 2, chroma: 1 }));
}

#[test]
fn decoded_planes_live_in_exactly_one_memory() {
    assert_eq!(decoded_plane(1, 1, 64, 16, 1920, 9), Ok(plane(1, 80, 1920, 9)));
    assert_eq!(decoded_plane(0, 2, 0, 0, 1920, 9), Err(DecodedPlaneError::SpansMemories { count: 2 }));
    assert_eq!(decoded_plane(0, 1, usize::MAX, 1, 1920, 9), Err(DecodedPlaneError::OffsetOverflow));
    assert_eq!(decoded_plane(0, 1, u32::MAX as usize, 1, 1920, 9), Err(DecodedPlaneError::OffsetTooLarge));
    assert_eq!(decoded_plane(0, 1, 0, 0, -1, 9), Err(DecodedPlaneError::NegativeStride));
}

#[test]
fn pool_reuses_only_after_every_lease_holder_releases() {
    let mut pool: DmaBufPool<&str> = DmaBufPool::new(1);
    assert_eq!(pool.acquire(), PoolAcquire::Allocate);
    let slot = pool.store("frame");
    assert_eq!(slot, 0);

    assert_eq!(pool.acquire(), PoolAcquire::Exhausted);

    assert!(pool.release(slot, true, true));
    assert_eq!(pool.acquire(), PoolAcquire::Reuse(0));
    assert_eq!(pool.acquire(), PoolAcquire::Exhausted);
}

#[test]
fn invalidated_pool_slot_is_replaced() {
    let mut pool: DmaBufPool<u32> = DmaBufPool::new(1);
    assert_eq!(pool.acquire(), PoolAcquire::Allocate);
    let slot = pool.store(1);

    assert!(!pool.release(slot, false, true));

    assert_eq!(pool.acquire(), PoolAcquire::Allocate);
    assert_eq!(pool.store(2), slot);
    assert_eq!(pool.slots[slot], Some(2));
}

#[test]
fn a_failed_fence_wait_discards_the_slot() {
    let mut pool: DmaBufPool<u32> = DmaBufPool::new(2);
    let first = pool.store(1);
    let second = pool.store(2);

    assert!(!pool.release(first, true, false));
    assert!(pool.release(second, true, true));

    assert_eq!(pool.acquire(), PoolAcquire::Reuse(second));
    assert_eq!(pool.acquire(), PoolAcquire::Allocate);
}

use rabbit_infra::dma_buf::{decoded_frame_layout, DecodedFrameError, DecodedPlaneLocation};

fn located(memory_start: usize, memory_count: usize, memory_offset: usize, skip: usize, stride: i32) -> DecodedPlaneLocation {
    DecodedPlaneLocation { memory_start, memory_count, memory_offset, skip, stride }
}

#[test]
fn decoded_nv12_planes_are_located_in_their_memory_objects() {
    let size = PixelSize { width: 1920, height: 1088 };
    let layout = decoded_frame_layout(
        size,
        DRM_FORMAT_NV12,
        0,
        vec![3_133_440],
        &[located(0, 1, 0, 0, 2048), located(0, 1, 0, 2_228_224, 2048)],
    )
    .expect("decoded frame should be described");

    assert_eq!(layout.size, size);
    assert_eq!(layout.object_sizes, vec![3_133_440]);
    assert_eq!(layout.planes[1].offset, 2_228_224);
    assert_eq!(layout.planes[1].object_index, 0);
    assert_eq!(layout.planes[0].stride, 2048);
}

#[test]
fn decoded_frames_without_a_clean_plane_location_are_refused() {
    let size = PixelSize { width: 16, height: 16 };
    assert_eq!(decoded_frame_layout(size, DRM_FORMAT_NV12, 0, vec![1], &[]).unwrap_err(), DecodedFrameError::NoPlanes);
    assert_eq!(
        decoded_frame_layout(size, DRM_FORMAT_NV12, 0, vec![], &[located(0, 1, 0, 0, 16)]).unwrap_err(),
        DecodedFrameError::NoMemoryObjects
    );
    assert_eq!(
        decoded_frame_layout(size, DRM_FORMAT_NV12, 0, vec![1, 1], &[located(0, 1, 0, 0, 16), located(0, 2, 0, 0, 16)]).unwrap_err(),
        DecodedFrameError::Plane { plane_index: 1, error: DecodedPlaneError::SpansMemories { count: 2 } }
    );
    assert_eq!(
        decoded_frame_layout(size, DRM_FORMAT_NV12, 0, vec![1], &[located(0, 1, 0, 0, -16)]).unwrap_err(),
        DecodedFrameError::Plane { plane_index: 0, error: DecodedPlaneError::NegativeStride }
    );
}

#[test]
fn acquisition_applies_releases_in_order_and_stops_at_a_failed_fence() {
    let mut pool: DmaBufPool<u32> = DmaBufPool::new(3);
    let a = pool.store(1);
    let b = pool.store(2);
    let c = pool.store(3);
    let releases = [
        PoolRelease { slot: a, reusable: false, fence_ok: true },
        PoolRelease { slot: b, reusable: true, fence_ok: false },
        PoolRelease { slot: c, reusable: true, fence_ok: true },
    ];
    assert_eq!(pool.acquire_after_releases(&releases), Err(FenceWaitFailed { release: 1 }));
    assert_eq!(pool.slots, vec![None, None, Some(3)]);
    assert!(pool.available.is_empty());

    let mut pool: DmaBufPool<u32> = DmaBufPool::new(2);
    let a = pool.store(1);
    let b = pool.store(2);
    let releases = [
        PoolRelease { slot: b, reusable: true, fence_ok: true },
        PoolRelease { slot: a, reusable: true, fence_ok: true },
    ];
    assert_eq!(pool.acquire_after_releases(&releases), Ok(PoolAcquire::Reuse(b)));
    assert_eq!(pool.available, vec![a]);
    assert_eq!(pool.acquire_after_releases(&[]), Ok(PoolAcquire::Reuse(a)));
    assert_eq!(pool.acquire_after_releases(&[]), Ok(PoolAcquire::Exhausted));
    assert_eq!(
        pool.acquire_after_releases(&[PoolRelease { slot: a, reusable: false, fence_ok: true }]),
        Ok(PoolAcquire::Allocate)
    );
}
