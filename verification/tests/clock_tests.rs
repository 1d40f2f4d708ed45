use analog_clock::angle::calculate_angle;
use analog_clock::angle::hour_hand_angle;
use analog_clock::eyes::pupil_center;
use analog_clock::eyes::EyeSocket;
use analog_clock::layout::compute_layout;
use analog_clock::layout::decrease_by_percentage;
use analog_clock::layout::LayoutConfig;
use analog_clock::scene::render_frame;
use analog_clock::scene::Color;
use analog_clock::scene::DrawCmd;
use analog_clock::timing::time_sample_of;
use analog_clock::timing::TimeSample;

// Angles are in pi/360 units: 180 units are a quarter turn.

#[test]
fn angle_twelve_points_up() {
    // Hour value 0 (the 12 o'clock position): straight up is -pi/2.
    assert_eq!(calculate_angle(0, 12, 180), -180);
}

#[test]
fn angle_three_points_right() {
    assert_eq!(calculate_angle(3, 12, 180), 0);
}

#[test]
fn angle_six_points_down() {
    assert_eq!(calculate_angle(6, 12, 180), 180);
}

#[test]
fn angle_nine_points_left() {
    assert_eq!(calculate_angle(9, 12, 180), 360);
}

#[test]
fn angle_full_turn_wraps_to_up() {
    // Value 12 is one full turn past value 0: the same direction, one turn on.
    assert_eq!(calculate_angle(12, 12, 180), 720 - 180);
}

#[test]
fn minute_angle_steps() {
    assert_eq!(calculate_angle(0, 60, 180), -180);
    assert_eq!(calculate_angle(15, 60, 180), 0);
    assert_eq!(calculate_angle(30, 60, 180), 180);
    assert_eq!(calculate_angle(45, 60, 180), 360);
}

#[test]
fn hour_hand_creeps_with_minutes() {
    // Half past two points where the fractional hour value 2.5 points:
    // 2.5 hours are 150 sixtieths, one pi/360 unit each.
    assert_eq!(hour_hand_angle(2, 30), -30);
    assert_eq!(hour_hand_angle(2, 30), calculate_angle(150, 720, 180));
    assert_ne!(hour_hand_angle(2, 30), hour_hand_angle(2, 0));
}

#[test]
fn time_sample_decomposes_epoch_seconds() {
    let t = time_sample_of(3723);
    assert_eq!(t, TimeSample { hours: 1, minutes: 2, seconds: 3 });
    let t = time_sample_of(45296);
    assert_eq!(t, TimeSample { hours: 0, minutes: 34, seconds: 56 });
    let t = time_sample_of(12 * 3600);
    assert_eq!(t, TimeSample { hours: 0, minutes: 0, seconds: 0 });
}

#[test]
fn shrink_matches_reference_fractions() {
    // 400 pixel radius shrunk by the minute fraction: 400 * 0.753690 = 301.476.
    assert_eq!(decrease_by_percentage(40_000, 246_310), 30_147);
    assert_eq!(decrease_by_percentage(40_000, 409_524), 23_619);
    assert_eq!(decrease_by_percentage(40_000, 144_600), 34_216);
    assert_eq!(decrease_by_percentage(0, 500_000), 0);
    assert_eq!(decrease_by_percentage(40_000, 0), 40_000);
}

#[test]
fn layout_unclamped_keeps_proportional_radii() {
    // 1000 x 800 pixels: both radii inside the floor and ceiling bounds.
    let cfg = LayoutConfig::reference();
    let (face, hands) = compute_layout(1000, 800, &cfg);
    assert_eq!(face.center_x, 50_000);
    assert_eq!(face.center_y, 40_000);
    assert_eq!(face.radius_x, 40_000);
    assert_eq!(face.radius_y, 36_500);
    assert_eq!(hands.hour_length, 23_619);
    assert_eq!(hands.minute_length, 30_147);
    assert_eq!(hands.second_length, 34_216);
}

#[test]
fn layout_at_floor_boundary_keeps_radii() {
    // 840 x 710 pixels put both proportional radii exactly on the floor:
    // the snap needs a radius strictly below the floor, so the proportional
    // values stand and the hand lengths stay derived.
    let cfg = LayoutConfig::reference();
    let (face, hands) = compute_layout(840, 710, &cfg);
    assert_eq!(face.radius_x, 32_000);
    assert_eq!(face.radius_y, 32_000);
    assert_eq!(hands.hour_length, 18_895);
    assert_eq!(hands.minute_length, 24_118);
    assert_eq!(hands.second_length, 27_372);
}

#[test]
fn layout_below_floor_snaps_to_absolute_lengths() {
    // Two pixels narrower: the horizontal radius falls below the floor, both
    // radii snap to it and the absolute floor hand lengths apply exactly:
    // 160.0, 255.10 and 280.0 pixels.
    let cfg = LayoutConfig::reference();
    let (face, hands) = compute_layout(838, 710, &cfg);
    assert_eq!(face.radius_x, 32_000);
    assert_eq!(face.radius_y, 32_000);
    assert_eq!(hands.hour_length, 16_000);
    assert_eq!(hands.minute_length, 25_510);
    assert_eq!(hands.second_length, 28_000);
}

#[test]
fn layout_tiny_window_snaps_both_radii() {
    let cfg = LayoutConfig::reference();
    let (face, hands) = compute_layout(300, 200, &cfg);
    assert_eq!(face.radius_x, 32_000);
    assert_eq!(face.radius_y, 32_000);
    assert_eq!(hands.hour_length, 16_000);
    assert_eq!(hands.minute_length, 25_510);
    assert_eq!(hands.second_length, 28_000);
}

#[test]
fn layout_wide_window_clamps_to_ceiling() {
    // 2000 pixels wide: the horizontal radius would be 900, the ceiling caps
    // it at 730 and the absolute ceiling hand lengths apply: 500.0, 585.0
    // and 670.0 pixels. The vertical radius is untouched.
    let cfg = LayoutConfig::reference();
    let (face, hands) = compute_layout(2000, 1500, &cfg);
    assert_eq!(face.radius_x, 73_000);
    assert_eq!(face.radius_y, 71_500);
    assert_eq!(hands.hour_length, 50_000);
    assert_eq!(hands.minute_length, 58_500);
    assert_eq!(hands.second_length, 67_000);
}

#[test]
fn layout_hands_ordered_and_inside_dial() {
    let cfg = LayoutConfig::reference();
    for width in [300u32, 838, 840, 1000, 1459, 1460, 1461, 2000, 5000] {
        for height in [200u32, 710, 800, 1500] {
            let (face, hands) = compute_layout(width, height, &cfg);
            assert!(face.radius_x > 0 && face.radius_y > 0);
            assert!(hands.hour_length > 0);
            assert!(hands.hour_length < hands.minute_length);
            assert!(hands.minute_length < hands.second_length);
            assert!(hands.second_length <= face.radius_x);
            assert!(face.radius_x <= 73_000);
        }
    }
}

#[test]
fn pupil_centered_when_pointer_on_socket_center() {
    let socket = EyeSocket {
        center_x: 32_000,
        center_y: 20_500,
        radius_x: 5_000,
        radius_y: 3_000,
        pupil_radius: 1_000,
    };
    assert_eq!(pupil_center(&socket, 32_000, 20_500), (32_000, 20_500));
}

#[test]
fn pupil_follows_pointer_on_axis() {
    let socket = EyeSocket {
        center_x: 0,
        center_y: 0,
        radius_x: 5_000,
        radius_y: 3_000,
        pupil_radius: 1_000,
    };
    // Pointer far to the right: the pupil sits six tenths of the horizontal
    // radius to the right.
    assert_eq!(pupil_center(&socket, 10_000, 0), (3_000, 0));
    assert_eq!(pupil_center(&socket, -10_000, 0), (-3_000, 0));
    assert_eq!(pupil_center(&socket, 0, 10_000), (0, 1_800));
    assert_eq!(pupil_center(&socket, 0, -10_000), (0, -1_800));
}

#[test]
fn pupil_follows_pointer_diagonally() {
    let socket = EyeSocket {
        center_x: 0,
        center_y: 0,
        radius_x: 5_000,
        radius_y: 3_000,
        pupil_radius: 1_000,
    };
    // A 3-4-5 triangle: distance 500, direction (3/5, 4/5).
    assert_eq!(pupil_center(&socket, 300, 400), (1_800, 1_440));
}

#[test]
fn pupil_stays_inside_socket() {
    let socket = EyeSocket {
        center_x: 1_000,
        center_y: -2_000,
        radius_x: 5_000,
        radius_y: 3_000,
        pupil_radius: 1_000,
    };
    let positions = [
        (1_000i64, -2_000i64),
        (1_001, -1_999),
        (1_000_000, 1_000_000),
        (-1_000_000_000, 1_000_000_000),
        (1_003, -2_004),
        (999, -2_001),
        (123_456, -654_321),
    ];
    for (px, py) in positions {
        let (ux, uy) = pupil_center(&socket, px, py);
        let dx = ux - 1_000;
        let dy = uy + 2_000;
        // Distance at most six tenths of the larger radius, squared and
        // scaled by 100 to stay in integers.
        assert!(100 * (dx * dx + dy * dy) <= 36 * 5_000 * 5_000);
    }
}

#[test]
fn frame_has_the_fixed_command_count() {
    let cfg = LayoutConfig::reference();
    let t = time_sample_of(0);
    let cmds = render_frame(840, 710, &t, 42_000, 35_500, &cfg);
    // 1 clear + 2 arcs + 1 face + 12 labels + 60 ticks + 3 hands + 1 pin
    // + 2 eyes of 2 commands each.
    assert_eq!(cmds.len(), 84);
    assert_eq!(
        cmds[0],
        DrawCmd::Clear { color: Color { red: 100, green: 100, blue: 200, alpha: 1000 } }
    );
    assert!(matches!(cmds[1], DrawCmd::Arc { start: 0, end: 360, .. }));
    assert!(matches!(cmds[2], DrawCmd::Arc { start: 360, end: 720, .. }));
    assert!(matches!(cmds[3], DrawCmd::Ellipse { .. }));
    assert!(matches!(cmds[4], DrawCmd::Label { value: 1, .. }));
    assert!(matches!(cmds[15], DrawCmd::Label { value: 12, .. }));
    assert!(matches!(cmds[16], DrawCmd::RadialLine { angle: -180, .. }));
    assert!(matches!(cmds[79], DrawCmd::Ellipse { width: 1600, height: 1600, .. }));
}

#[test]
fn frame_hands_point_where_the_time_says() {
    let cfg = LayoutConfig::reference();
    let t = TimeSample { hours: 2, minutes: 30, seconds: 45 };
    let cmds = render_frame(1000, 800, &t, 0, 0, &cfg);
    // Hour, minute, second hands sit after the 60 ticks.
    match cmds[76] {
        DrawCmd::RadialLine { angle, outer_x, .. } => {
            assert_eq!(angle, -30);
            assert_eq!(outer_x, 23_619);
        }
        _ => panic!("hour hand missing"),
    }
    match cmds[77] {
        DrawCmd::RadialLine { angle, outer_x, .. } => {
            assert_eq!(angle, 180);
            assert_eq!(outer_x, 30_147);
        }
        _ => panic!("minute hand missing"),
    }
    match cmds[78] {
        DrawCmd::RadialLine { angle, outer_x, color, .. } => {
            assert_eq!(angle, 360);
            assert_eq!(outer_x, 34_216);
            assert_eq!(color, Color { red: 1000, green: 0, blue: 0, alpha: 1000 });
        }
        _ => panic!("second hand missing"),
    }
}

#[test]
fn frame_render_is_deterministic() {
    let cfg = LayoutConfig::reference();
    let t = time_sample_of(987_654_321);
    let first = render_frame(1024, 768, &t, 12_345, -6_789, &cfg);
    let second = render_frame(1024, 768, &t, 12_345, -6_789, &cfg);
    assert_eq!(first, second);
}

#[test]
fn frame_pupils_track_the_pointer() {
    let cfg = LayoutConfig::reference();
    let t = time_sample_of(0);
    // Pointer exactly on the left socket center: dial center (420, 355)
    // pixels, socket 100 left and 150 up.
    let cmds = render_frame(840, 710, &t, 32_000, 20_500, &cfg);
    match cmds[81] {
        DrawCmd::Ellipse { left, top, width, height, .. } => {
            assert_eq!((left, top), (31_000, 19_500));
            assert_eq!((width, height), (2_000, 2_000));
        }
        _ => panic!("left pupil missing"),
    }
    // The right socket center is 200 pixels further right: the pupil moves
    // toward the pointer, fully left along the horizontal axis.
    match cmds[83] {
        DrawCmd::Ellipse { left, top, .. } => {
            assert_eq!((left, top), (52_000 - 3_000 - 1_000, 19_500));
        }
        _ => panic!("right pupil missing"),
    }
}
