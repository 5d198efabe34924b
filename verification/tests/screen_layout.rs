use rabbit_infra::geometry::{FrameRate, PixelSize, ScreenId};
use rabbit_infra::screen_layout::{
    arrange_screens, gnome_output_geometry, logical_size, name_lt, niri_mapped_outputs, screen_transform,
    GnomeOutputError, GnomeOutputInfo, LayoutError, NiriLayoutError, NiriLogicalOutput, NiriOutputInfo,
    OutputTransform, PlacedOutput, ScreenRect, ScreenTransform,
};

fn placed(name: &str, x: i32, y: i32, width: u32, height: u32) -> PlacedOutput {
    PlacedOutput { name: String::from(name), x, y, width, height }
}

fn gnome(name: &str, mode: (i32, i32), position: (i32, i32), logical: (i32, i32), transform: OutputTransform) -> GnomeOutputInfo {
    GnomeOutputInfo {
        name: String::from(name),
        mode_width: mode.0,
        mode_height: mode.1,
        refresh_rate_millihertz: 60_000,
        logical_position: position,
        logical_size: Some(logical),
        integer_scale: 1,
        transform: Some(transform),
    }
}

#[test]
fn compositor_rotations_become_clockwise_screen_transforms() {
    assert_eq!(screen_transform(OutputTransform::Normal), ScreenTransform::Normal);
    assert_eq!(screen_transform(OutputTransform::Rotate90), ScreenTransform::Rotate270);
    assert_eq!(screen_transform(OutputTransform::Rotate270), ScreenTransform::Rotate90);
    assert_eq!(screen_transform(OutputTransform::Flipped90), ScreenTransform::Flipped270);
    assert_eq!(screen_transform(OutputTransform::Flipped270), ScreenTransform::Flipped90);
    assert_eq!(screen_transform(OutputTransform::Flipped180), ScreenTransform::Flipped180);
}

#[test]
fn normalizes_negative_coordinates_and_sorts_by_position() {
    let outputs = vec![placed("eDP-1", 0, 72, 1536, 864), placed("HDMI-A-1", -2048, 0, 2048, 1152)];

    let screens = arrange_screens(&outputs, 256).expect("outputs should arrange");

    assert_eq!(screens.len(), 2);
    assert_eq!(screens[0].id, ScreenId(0));
    assert_eq!(screens[0].source, 1);
    assert_eq!(screens[0].rect, ScreenRect { x: 0, y: 0, width: 2048, height: 1152 });
    assert_eq!(screens[1].id, ScreenId(1));
    assert_eq!(screens[1].source, 0);
    assert_eq!(screens[1].rect, ScreenRect { x: 2048, y: 72, width: 1536, height: 864 });
}

#[test]
fn ties_are_broken_by_y_then_name_then_input_order() {
    let outputs = vec![
        placed("DP-2", 0, 1080, 10, 10),
        placed("DP-1", 0, 1080, 10, 10),
        placed("DP-3", 0, 0, 10, 10),
        placed("DP-1", 0, 1080, 20, 20),
    ];

    let screens = arrange_screens(&outputs, 256).unwrap();
    let sources: Vec<usize> = screens.iter().map(|screen| screen.source).collect();

    assert_eq!(sources, vec![2, 1, 3, 0]);
}

#[test]
fn too_many_outputs_are_rejected() {
    let outputs: Vec<PlacedOutput> = (0..3).map(|i| placed("X", i, 0, 1, 1)).collect();
    assert_eq!(arrange_screens(&outputs, 2), Err(LayoutError::TooManyScreens { count: 3 }));
    assert_eq!(arrange_screens(&[], 0), Ok(Vec::new()));
}

#[test]
fn names_order_character_by_character() {
    assert!(name_lt("DP-1", "DP-2"));
    assert!(name_lt("DP", "DP-1"));
    assert!(!name_lt("DP-1", "DP-1"));
    assert!(!name_lt("eDP-1", "HDMI-A-1"));
    assert!(name_lt("HDMI-A-1", "eDP-1"));
}

#[test]
fn niri_skips_unmapped_outputs_and_uses_the_current_mode() {
    let logical = NiriLogicalOutput { x: -1920, y: 0, width: 1920, height: 1080, transform: OutputTransform::Rotate90 };
    let outputs = vec![
        NiriOutputInfo { name: String::from("DP-1"), logical: None, current_mode: None, mode_sizes: Vec::new() },
        NiriOutputInfo {
            name: String::from("DP-2"),
            logical: Some(logical),
            current_mode: Some(1),
            mode_sizes: vec![(1280, 720), (3840, 2160)],
        },
    ];

    let mapped = niri_mapped_outputs(&outputs).expect("mapped outputs");

    assert_eq!(mapped.len(), 1);
    assert_eq!(mapped[0].source, 1);
    assert_eq!(mapped[0].placed.name, "DP-2");
    assert_eq!(mapped[0].placed.x, -1920);
    assert_eq!(mapped[0].resolution, PixelSize { width: 3840, height: 2160 });
    assert_eq!(mapped[0].transform, ScreenTransform::Rotate270);
}

#[test]
fn niri_rejects_mapped_outputs_without_a_valid_mode() {
    let logical = NiriLogicalOutput { x: 0, y: 0, width: 1, height: 1, transform: OutputTransform::Normal };
    let missing = vec![NiriOutputInfo { name: String::from("A"), logical: Some(logical), current_mode: None, mode_sizes: Vec::new() }];
    assert_eq!(niri_mapped_outputs(&missing).err(), Some(NiriLayoutError::MissingCurrentMode { output: 0 }));

    let invalid = vec![NiriOutputInfo { name: String::from("A"), logical: Some(logical), current_mode: Some(2), mode_sizes: vec![(1, 1)] }];
    assert_eq!(niri_mapped_outputs(&invalid).err(), Some(NiriLayoutError::InvalidCurrentMode { output: 0, mode: 2 }));
}

#[test]
fn swaps_physical_axes_when_deriving_rotated_scale() {
    let geometry = gnome_output_geometry(&gnome("DP-1", (2560, 1440), (0, 0), (1152, 2048), OutputTransform::Rotate90))
        .expect("rotated GNOME output should convert");

    assert_eq!(geometry.logical_size, (1152, 2048));
    assert_eq!(geometry.transformed_size, (1440, 2560));
    assert_eq!(geometry.transform, ScreenTransform::Rotate270);
    assert_eq!(geometry.resolution, PixelSize { width: 2560, height: 1440 });
    assert_eq!(geometry.frame_rate, FrameRate { numerator: 60_000, denominator: 1_000 });
    assert_eq!(scale(geometry.transformed_size, geometry.logical_size), 1.25);
}

/// The fractional scale factor of a screen: physical over logical width.
fn scale(transformed: (u32, u32), logical: (u32, u32)) -> f64 {
    f64::from(transformed.0) / f64::from(logical.0)
}

#[test]
fn normalizes_negative_coordinates_and_preserves_fractional_scale() {
    let outputs = vec![
        gnome("HDMI-A-1", (2560, 1440), (-2048, 0), (2048, 1152), OutputTransform::Normal),
        gnome("eDP-1", (1920, 1080), (0, 72), (1536, 864), OutputTransform::Normal),
    ];
    let geometries: Vec<_> = outputs
        .iter()
        .map(|output| gnome_output_geometry(output).expect("GNOME outputs should convert"))
        .collect();
    let placed: Vec<PlacedOutput> = outputs
        .iter()
        .zip(&geometries)
        .map(|(output, geometry)| PlacedOutput {
            name: output.name.clone(),
            x: output.logical_position.0,
            y: output.logical_position.1,
            width: geometry.logical_size.0,
            height: geometry.logical_size.1,
        })
        .collect();

    let screens = arrange_screens(&placed, 256).expect("GNOME outputs should convert");

    assert_eq!(outputs[screens[0].source].name, "HDMI-A-1");
    assert_eq!(screens[0].rect.x, 0);
    let first = geometries[screens[0].source];
    assert_eq!(scale(first.transformed_size, first.logical_size), 1.25);
    assert_eq!(outputs[screens[1].source].name, "eDP-1");
    assert_eq!(screens[1].rect.x, 2048);
    assert_eq!(screens[1].rect.y, 72);
    let second = geometries[screens[1].source];
    assert_eq!(scale(second.transformed_size, second.logical_size), 1.25);
}

#[test]
fn gnome_outputs_are_validated_in_order() {
    let mut bad = gnome("A", (-1, 1080), (0, 0), (1, 1), OutputTransform::Normal);
    assert_eq!(gnome_output_geometry(&bad), Err(GnomeOutputError::InvalidModeWidth));
    bad.mode_width = 1920;
    bad.mode_height = 0;
    assert_eq!(gnome_output_geometry(&bad), Err(GnomeOutputError::ZeroSizedMode));
    bad.mode_height = 1080;
    bad.refresh_rate_millihertz = 0;
    assert_eq!(gnome_output_geometry(&bad), Err(GnomeOutputError::InvalidRefreshRate));
    bad.refresh_rate_millihertz = 60_000;
    bad.transform = None;
    assert_eq!(gnome_output_geometry(&bad), Err(GnomeOutputError::UnknownTransform));
    bad.transform = Some(OutputTransform::Normal);
    bad.logical_size = Some((0, 5));
    assert_eq!(gnome_output_geometry(&bad), Err(GnomeOutputError::ZeroSizedLogicalMode));
}

#[test]
fn logical_size_falls_back_to_the_integer_scale() {
    assert_eq!(logical_size(None, 2, (2561, 1440)), Ok((1281, 720)));
    assert_eq!(logical_size(None, 0, (2560, 1440)), Err(GnomeOutputError::InvalidScale));
    assert_eq!(logical_size(Some((-1, 5)), 1, (1, 1)), Err(GnomeOutputError::InvalidLogicalWidth));
    assert_eq!(logical_size(Some((5, -1)), 1, (1, 1)), Err(GnomeOutputError::InvalidLogicalHeight));
    assert_eq!(logical_size(Some((1536, 864)), 1, (1920, 1080)), Ok((1536, 864)));
}
