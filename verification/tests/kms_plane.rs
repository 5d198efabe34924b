use rabbit_infra::kms_plane::{
    classify_plane_property, discover_plane_properties, plane_type, query_plane_properties, KmsColorEncoding,
    KmsColorRange, KmsCursorHotspot, KmsDiscoveredProperty, KmsPixelBlendMode, KmsPlaneProperty,
    KmsPlanePropertyKind, KmsPlaneTransform, KmsPlaneType, KmsPropertyError, KmsPropertyRole, KmsRotation,
    RawPlaneProperties,
};
use rabbit_infra::kms_plane::KmsPlaneProperties;
use rabbit_infra::kms_snapshot::{assemble_plane_snapshot, KmsPlaneIssueKind, KnownPlane, PlaneState};

fn raw(plane: u64) -> RawPlaneProperties {
    RawPlaneProperties {
        plane_type: Some(plane),
        zpos: Some(1),
        source_x: Some(0),
        source_y: Some(0),
        source_width: Some(1920 << 16),
        source_height: Some(1080 << 16),
        destination_x: Some(0),
        destination_y: Some(0),
        destination_width: Some(1920),
        destination_height: Some(1080),
        rotation: None,
        alpha: None,
        pixel_blend_mode: None,
        color_encoding: None,
        color_range: None,
        hotspot_x: None,
        hotspot_y: None,
    }
}

#[test]
fn plane_type_values_follow_drm() {
    assert_eq!(plane_type(0), Ok(KmsPlaneType::Overlay));
    assert_eq!(plane_type(1), Ok(KmsPlaneType::Primary));
    assert_eq!(plane_type(2), Ok(KmsPlaneType::Cursor));
    assert_eq!(plane_type(3), Err(KmsPropertyError::InvalidProperty { property: "type", value: 3 }));
}

#[test]
fn rotation_bits_decode_to_a_transform() {
    assert_eq!(
        KmsPlaneTransform::try_from(0x02 | 0x10),
        Ok(KmsPlaneTransform { rotation: KmsRotation::Rotate90, reflect_x: true, reflect_y: false })
    );
    assert_eq!(
        KmsPlaneTransform::try_from(0x03),
        Err(KmsPropertyError::InvalidProperty { property: "rotation", value: 3 })
    );
    assert_eq!(
        KmsPlaneTransform::try_from(0x41),
        Err(KmsPropertyError::InvalidProperty { property: "rotation", value: 0x41 })
    );
}

#[test]
fn missing_optional_properties_take_their_defaults() {
    let properties = KmsPlaneProperties::try_from(raw(1)).expect("primary plane should interpret");
    assert_eq!(properties.plane_type, KmsPlaneType::Primary);
    let placement = properties.placement.expect("a visible plane has a placement");
    assert_eq!(placement.destination.width, 1920);
    assert_eq!(placement.transform.rotation, KmsRotation::Rotate0);
    assert_eq!(properties.blend.alpha, u16::MAX);
    assert_eq!(properties.blend.pixel_mode, KmsPixelBlendMode::PreMultiplied);
    assert_eq!(properties.color.encoding, KmsColorEncoding::Bt601);
    assert_eq!(properties.color.range, KmsColorRange::Limited);
    assert_eq!(properties.cursor_hotspot, None);

    let cursor = KmsPlaneProperties::try_from(raw(2)).expect("cursor plane should interpret");
    assert_eq!(cursor.cursor_hotspot, Some(KmsCursorHotspot { x: 0, y: 0 }));
}

#[test]
fn invalid_or_hidden_planes_are_reported() {
    let mut hidden = raw(0);
    hidden.destination_width = Some(0);
    assert_eq!(KmsPlaneProperties::try_from(hidden).unwrap().placement, None);

    let mut negative = raw(0);
    negative.destination_x = Some(u64::MAX);
    assert_eq!(KmsPlaneProperties::try_from(negative).unwrap().placement.unwrap().destination.x, -1);

    let mut missing = raw(0);
    missing.zpos = None;
    assert_eq!(KmsPlaneProperties::try_from(missing), Err(KmsPropertyError::MissingProperty { property: "zpos" }));

    let mut alpha = raw(0);
    alpha.alpha = Some(0x1_0000);
    assert_eq!(
        KmsPlaneProperties::try_from(alpha),
        Err(KmsPropertyError::InvalidProperty { property: "alpha", value: 0x1_0000 })
    );

    let mut color = raw(0);
    color.color_encoding = Some(KmsColorEncoding::Bt709);
    assert_eq!(
        KmsPlaneProperties::try_from(color),
        Err(KmsPropertyError::MissingProperty { property: "COLOR_RANGE" })
    );
}

#[test]
fn discovered_properties_are_cached_by_role() {
    assert_eq!(classify_plane_property("type"), Some(KmsPropertyRole::PlaneType));
    assert_eq!(classify_plane_property("CRTC_W"), Some(KmsPropertyRole::Cached(KmsPlanePropertyKind::DestinationWidth)));
    assert_eq!(classify_plane_property("FB_ID"), None);

    let discovered = vec![
        KmsDiscoveredProperty { handle: 10, name: String::from("FB_ID"), value: 0 },
        KmsDiscoveredProperty { handle: 11, name: String::from("type"), value: 2 },
        KmsDiscoveredProperty { handle: 12, name: String::from("zpos"), value: 5 },
    ];
    let (kind, cached) = discover_plane_properties(&discovered).expect("properties should be discovered");
    assert_eq!(kind, KmsPlaneType::Cursor);
    assert_eq!(cached, vec![KmsPlaneProperty { handle: 12, kind: KmsPlanePropertyKind::Zpos }]);

    assert_eq!(
        discover_plane_properties(&discovered[..1]),
        Err(KmsPropertyError::MissingProperty { property: "type" })
    );
    let _ = query_plane_properties;
}

#[test]
fn snapshots_order_active_planes_and_list_issues() {
    let known = [
        KnownPlane { id: 31, plane_type: KmsPlaneType::Cursor },
        KnownPlane { id: 30, plane_type: KmsPlaneType::Primary },
        KnownPlane { id: 32, plane_type: KmsPlaneType::Overlay },
        KnownPlane { id: 33, plane_type: KmsPlaneType::Overlay },
    ];
    let mut cursor = KmsPlaneProperties::try_from(raw(2)).unwrap();
    cursor.placement.as_mut().unwrap().zpos = 7;
    let primary = KmsPlaneProperties::try_from(raw(1)).unwrap();
    let states = [
        PlaneState::Active { framebuffer: 101, properties: Ok(cursor) },
        PlaneState::Active { framebuffer: 100, properties: Ok(primary) },
        PlaneState::QueryFailed,
        PlaneState::Active { framebuffer: 102, properties: Err(KmsPropertyError::MissingProperty { property: "zpos" }) },
    ];

    let (planes, issues) = assemble_plane_snapshot(&known, &states);

    let ids: Vec<u32> = planes.iter().map(|plane| plane.id).collect();
    assert_eq!(ids, vec![30, 31]);
    assert_eq!(planes[0].framebuffer, 100);
    assert_eq!(issues.len(), 2);
    assert_eq!(issues[0].plane_id, 32);
    assert_eq!(issues[0].error, KmsPlaneIssueKind::QueryPlane);
    assert_eq!(issues[1].error, KmsPlaneIssueKind::Property(KmsPropertyError::MissingProperty { property: "zpos" }));
}
