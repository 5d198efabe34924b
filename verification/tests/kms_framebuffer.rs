use rabbit_infra::dma_buf::DmaBufPlane;
use rabbit_infra::kms_framebuffer::{
    framebuffer_planes, primary_framebuffer_handle_is_unavailable, same_descriptor, FramebufferCache,
    FramebufferDescriptor, HandleReferences, KmsPlaneCaptureError,
};
use rabbit_infra::kms_plane::KmsPlaneType;

fn descriptor(handles: [Option<u32>; 4], pitches: [u32; 4]) -> FramebufferDescriptor {
    FramebufferDescriptor {
        width: 1920,
        height: 1080,
        format: 0x3231_564e,
        handles,
        pitches,
        offsets: [0, 2_073_600, 0, 0],
        modifier: 0x0100_0000_0000_0002,
    }
}

#[test]
fn missing_primary_framebuffer_handle_is_fatal() {
    let missing_handle = [KmsPlaneCaptureError::MissingBufferHandle { plane_index: 0 }];

    assert!(primary_framebuffer_handle_is_unavailable(KmsPlaneType::Primary, &missing_handle));
    assert!(!primary_framebuffer_handle_is_unavailable(KmsPlaneType::Overlay, &missing_handle));
    assert!(!primary_framebuffer_handle_is_unavailable(KmsPlaneType::Cursor, &missing_handle));
}

#[test]
fn other_primary_export_errors_remain_plane_issues() {
    let other_error = [KmsPlaneCaptureError::CloneCachedBuffer];

    assert!(!primary_framebuffer_handle_is_unavailable(KmsPlaneType::Primary, &other_error));
}

#[test]
fn planes_sharing_a_handle_share_one_object() {
    let planes = framebuffer_planes(&descriptor([Some(7), Some(7), None, None], [1920, 1920, 0, 0]));

    assert_eq!(planes.handles, vec![7]);
    assert_eq!(planes.missing_handle, None);
    assert_eq!(
        planes.planes,
        vec![
            DmaBufPlane { object_index: 0, offset: 0, stride: 1920, modifier: 0x0100_0000_0000_0002 },
            DmaBufPlane { object_index: 0, offset: 2_073_600, stride: 1920, modifier: 0x0100_0000_0000_0002 },
        ]
    );
}

#[test]
fn distinct_handles_become_distinct_objects() {
    let planes = framebuffer_planes(&descriptor([Some(7), Some(9), Some(7), Some(11)], [1, 2, 3, 4]));

    assert_eq!(planes.handles, vec![7, 9, 11]);
    let objects: Vec<usize> = planes.planes.iter().map(|plane| plane.object_index).collect();
    assert_eq!(objects, vec![0, 1, 0, 2]);
}

#[test]
fn a_missing_handle_is_an_error_only_where_a_plane_is_expected() {
    assert_eq!(framebuffer_planes(&descriptor([None, None, None, None], [0; 4])).missing_handle, Some(0));
    assert_eq!(framebuffer_planes(&descriptor([Some(1), None, None, None], [4, 4, 0, 0])).missing_handle, Some(1));
    let planes = framebuffer_planes(&descriptor([Some(1), None, Some(2), None], [4, 0, 4, 0]));
    assert_eq!(planes.missing_handle, None);
    assert_eq!(planes.planes.len(), 1);
}

#[test]
fn handles_close_when_the_last_framebuffer_releases_them() {
    let mut references = HandleReferences::new();
    references.retain(&[1, 2]);
    references.retain(&[2, 3]);

    assert!(references.is_referenced(2));
    assert_eq!(references.unreferenced(&[1, 4, 2, 5]), vec![1, 3]);
    assert_eq!(references.release(&[1, 2]), vec![1]);
    assert!(references.is_referenced(2));
    assert_eq!(references.release(&[2, 3, 9]), vec![2, 3]);
    assert!(!references.is_referenced(2));
}

#[test]
fn cached_export_is_reused_only_while_the_framebuffer_is_unchanged() {
    let original = descriptor([Some(7), Some(7), None, None], [1920, 1920, 0, 0]);
    let moved = descriptor([Some(8), Some(8), None, None], [1920, 1920, 0, 0]);
    assert!(same_descriptor(&original, &original));
    assert!(!same_descriptor(&original, &moved));

    let mut cache = FramebufferCache::new();
    assert_eq!(cache.cached_key(42, &original), None);
    let (first, replaced) = cache.insert(42, original, vec![7]);
    assert_eq!(first, 0);
    assert!(replaced.is_none());
    assert_eq!(cache.cached_key(42, &original), Some(0));
    assert_eq!(cache.cached_key(43, &original), None);
    assert_eq!(cache.cached_key(42, &moved), None);

    let (second, replaced) = cache.insert(42, moved, vec![8]);
    assert_eq!(second, 1);
    assert_eq!(replaced, Some(vec![7]));
    assert_eq!(cache.cached_key(42, &moved), Some(1));
    assert_eq!(cache.evict(42), Some(vec![8]));
    assert_eq!(cache.evict(42), None);
    assert_eq!(cache.cached_key(42, &moved), None);
}

#[test]
fn framebuffer_generation_keys_wrap() {
    let d = descriptor([Some(1), None, None, None], [7680, 0, 0, 0]);
    let mut cache = FramebufferCache::new();
    cache.next_generation = u64::MAX;
    let (key, _) = cache.insert(1, d, vec![1]);
    assert_eq!(key, u64::MAX);
    assert_eq!(cache.next_generation, 0);
    let (key, _) = cache.insert(2, d, vec![1]);
    assert_eq!(key, 0);
}
