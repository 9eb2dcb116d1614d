use orbit_cam::input::InputAccumulatorState;
use orbit_cam::orbit::{
    process_mouse_events, update_player, KeyState, PitchTrig, PlayerOrbitState, DIST_DEFAULT,
    DIST_MAX, DIST_MIN, PITCH_DEFAULT, PITCH_MAX, PITCH_MIN,
};
use orbit_cam::transform::{RotationFx, TransformFx, Vec2Fx, Vec3Fx};

fn no_keys() -> KeyState {
    KeyState { forward: false, back: false, right: false, left: false }
}

fn trig_of(pitch_fx: i64) -> PitchTrig {
    let pitch = pitch_fx as f64 / 1.0e6;
    PitchTrig {
        cos: (pitch.cos() * 1.0e6).round() as i64,
        sin: (pitch.sin() * 1.0e6).round() as i64,
    }
}

fn one_frame(
    player: &mut PlayerOrbitState,
    transform: &mut TransformFx,
    camera: &mut Option<TransformFx>,
    motion: &[Vec2Fx],
    wheel: &[i64],
    keys: KeyState,
    dt: i64,
) {
    let mut acc = InputAccumulatorState::default();
    let motion: Vec<Vec2Fx> = motion.to_vec();
    let wheel: Vec<i64> = wheel.to_vec();
    process_mouse_events(&mut acc, &motion, &wheel, dt, player);
    let clamped_pitch = player.camera_pitch.max(PITCH_MIN).min(PITCH_MAX);
    update_player(player, transform, camera, keys, dt, trig_of(clamped_pitch));
}

#[test]
fn default_state_matches_initial_values() {
    let state = PlayerOrbitState::default();
    assert_eq!(state.heading, 0);
    assert_eq!(state.camera_pitch, PITCH_DEFAULT);
    assert_eq!(state.camera_distance, DIST_DEFAULT);
    assert_eq!(state.camera_ref, None);
}

#[test]
fn with_camera_wires_the_reference() {
    let state = PlayerOrbitState::with_camera(42);
    assert_eq!(state.camera_ref, Some(42));
    assert_eq!(state.heading, 0);
    assert_eq!(state.camera_pitch, PITCH_DEFAULT);
    assert_eq!(state.camera_distance, DIST_DEFAULT);
}

#[test]
fn idle_frame_leaves_state_and_places_camera() {
    // One frame with zero look, zero zoom, dt = 1s, no keys: the state is
    // unchanged and the camera sits at normalize(0, cos 30deg, -sin 30deg) * 20.
    let mut player = PlayerOrbitState::with_camera(1);
    let mut transform = TransformFx::default();
    let mut camera = Some(TransformFx::default());
    one_frame(&mut player, &mut transform, &mut camera, &[], &[], no_keys(), 1_000_000);

    assert_eq!(player.heading, 0);
    assert_eq!(player.camera_pitch, PITCH_DEFAULT);
    assert_eq!(player.camera_distance, DIST_DEFAULT);
    assert_eq!(transform.position, Vec3Fx { x: 0, y: 0, z: 0 });

    let cam = camera.unwrap();
    // cos 30deg = 0.866025, sin 30deg = 0.5, distance 20.
    assert_eq!(cam.position, Vec3Fx { x: 0, y: 17_320_500, z: -10_000_000 });
    assert_eq!(cam.rotation, RotationFx::FaceOriginFrom(cam.position));
}

#[test]
fn zoom_burst_clamps_distance_to_minimum() {
    // zoom_delta = 5, dt = 1, zoom sensitivity 10: the distance falls by 50
    // units, far past the band, and clamps to 5.
    let mut player = PlayerOrbitState::with_camera(1);
    let mut transform = TransformFx::default();
    let mut camera = Some(TransformFx::default());
    one_frame(
        &mut player,
        &mut transform,
        &mut camera,
        &[],
        &[5_000_000],
        no_keys(),
        1_000_000,
    );
    assert_eq!(player.camera_distance, DIST_MIN);
}

#[test]
fn absent_camera_reference_skips_placement() {
    // The reference is unwired: the camera transform is untouched.
    let mut player = PlayerOrbitState::default();
    let mut transform = TransformFx::default();
    let before = TransformFx::default();
    let mut camera = Some(before);
    one_frame(&mut player, &mut transform, &mut camera, &[], &[], no_keys(), 1_000_000);
    assert_eq!(camera, Some(before));
}

#[test]
fn unresolved_camera_lookup_skips_placement() {
    // The reference is wired but does not resolve this frame: no camera
    // write, no error, and the player still updates.
    let mut player = PlayerOrbitState::with_camera(9);
    let mut transform = TransformFx::default();
    let mut camera: Option<TransformFx> = None;
    one_frame(
        &mut player,
        &mut transform,
        &mut camera,
        &[],
        &[5_000_000],
        no_keys(),
        1_000_000,
    );
    assert_eq!(camera, None);
    assert_eq!(player.camera_distance, DIST_MIN);
}

#[test]
fn look_input_integrates_heading_and_pitch() {
    let mut player = PlayerOrbitState::with_camera(1);
    let mut transform = TransformFx::default();
    let mut camera = Some(TransformFx::default());
    let motion = [Vec2Fx { x: 200_000, y: 100_000 }];
    one_frame(&mut player, &mut transform, &mut camera, &motion, &[], no_keys(), 1_000_000);
    // heading += look.x * dt; pitch -= look.y * dt.
    assert_eq!(player.heading, 200_000);
    assert_eq!(player.camera_pitch, PITCH_DEFAULT - 100_000);
    assert_eq!(transform.rotation, RotationFx::Yaw(-200_000));
}

#[test]
fn multiple_motion_events_last_wins_in_frame() {
    let mut player = PlayerOrbitState::default();
    let mut transform = TransformFx::default();
    let mut camera: Option<TransformFx> = None;
    let motion = [
        Vec2Fx { x: 900_000, y: 0 },
        Vec2Fx { x: -400_000, y: 0 },
        Vec2Fx { x: 50_000, y: 0 },
    ];
    one_frame(&mut player, &mut transform, &mut camera, &motion, &[], no_keys(), 1_000_000);
    assert_eq!(player.heading, 50_000);
}

#[test]
fn opposing_keys_cancel_movement() {
    let pairs = [
        KeyState { forward: true, back: true, right: false, left: false },
        KeyState { forward: false, back: false, right: true, left: true },
        KeyState { forward: true, back: true, right: true, left: true },
    ];
    for keys in pairs {
        let mut player = PlayerOrbitState::default();
        let mut transform = TransformFx::default();
        let mut camera: Option<TransformFx> = None;
        one_frame(&mut player, &mut transform, &mut camera, &[], &[], keys, 1_000_000);
        assert_eq!(transform.position, Vec3Fx { x: 0, y: 0, z: 0 });
    }
}

#[test]
fn single_key_moves_at_speed() {
    // Forward for one second at speed 10: ten units along the forward basis.
    let mut player = PlayerOrbitState::default();
    let mut transform = TransformFx::default();
    let mut camera: Option<TransformFx> = None;
    let keys = KeyState { forward: true, ..no_keys() };
    one_frame(&mut player, &mut transform, &mut camera, &[], &[], keys, 1_000_000);
    assert_eq!(transform.position, Vec3Fx { x: 0, y: 0, z: 10_000_000 });
}

#[test]
fn diagonal_movement_is_not_faster() {
    let mut single = PlayerOrbitState::default();
    let mut t_single = TransformFx::default();
    let mut camera: Option<TransformFx> = None;
    let keys = KeyState { forward: true, ..no_keys() };
    one_frame(&mut single, &mut t_single, &mut camera, &[], &[], keys, 1_000_000);

    let mut diag = PlayerOrbitState::default();
    let mut t_diag = TransformFx::default();
    let keys = KeyState { forward: true, right: true, ..no_keys() };
    one_frame(&mut diag, &mut t_diag, &mut camera, &[], &[], keys, 1_000_000);

    let sq = |p: Vec3Fx| (p.x as i128) * (p.x as i128) + (p.z as i128) * (p.z as i128);
    let sq_single = sq(t_single.position);
    let sq_diag = sq(t_diag.position);
    assert_eq!(sq_single, 100_000_000_000_000);
    // Same displacement magnitude to within one part in a million.
    assert!((sq_diag - sq_single).abs() < 100_000_000);
}

#[test]
fn back_and_left_move_negative() {
    let mut player = PlayerOrbitState::default();
    let mut transform = TransformFx::default();
    let mut camera: Option<TransformFx> = None;
    let keys = KeyState { back: true, ..no_keys() };
    one_frame(&mut player, &mut transform, &mut camera, &[], &[], keys, 1_000_000);
    assert_eq!(transform.position, Vec3Fx { x: 0, y: 0, z: -10_000_000 });

    let mut transform = TransformFx::default();
    let keys = KeyState { left: true, ..no_keys() };
    one_frame(&mut player, &mut transform, &mut camera, &[], &[], keys, 1_000_000);
    // right basis contribution is negated: left gives +x here.
    assert_eq!(transform.position, Vec3Fx { x: 10_000_000, y: 0, z: 0 });
}

#[test]
fn vertical_basis_component_is_discarded() {
    // A tilted forward basis: its vertical part must not leak into the
    // position; the movement stays in the plane.
    let mut player = PlayerOrbitState::default();
    let mut transform = TransformFx::default();
    transform.axis_z = Vec3Fx { x: 0, y: 500_000, z: 866_025 };
    let mut camera: Option<TransformFx> = None;
    let keys = KeyState { forward: true, ..no_keys() };
    one_frame(&mut player, &mut transform, &mut camera, &[], &[], keys, 1_000_000);
    assert_eq!(transform.position.y, 0);
    assert_eq!(transform.position.z, 8_660_250);
}

#[test]
fn bands_hold_over_any_frame_sequence() {
    // Wild look and zoom input over many frames: pitch and distance always
    // end the frame inside their bands.
    let mut player = PlayerOrbitState::with_camera(1);
    let mut transform = TransformFx::default();
    let mut camera = Some(TransformFx::default());
    let inputs: [(i64, i64); 6] = [
        (40_000_000, -900_000_000),
        (-70_000_000, 900_000_000),
        (0, 1),
        (1, 0),
        (999_000_000, -999_000_000),
        (-1, -1),
    ];
    for frame in 0..60 {
        let (look_y, zoom) = inputs[frame % inputs.len()];
        let motion = [Vec2Fx { x: 123_456, y: look_y }];
        one_frame(
            &mut player,
            &mut transform,
            &mut camera,
            &motion,
            &[zoom],
            no_keys(),
            16_667,
        );
        assert!(PITCH_MIN <= player.camera_pitch && player.camera_pitch <= PITCH_MAX);
        assert!(DIST_MIN <= player.camera_distance && player.camera_distance <= DIST_MAX);
    }
}

#[test]
fn camera_orbits_at_the_clamped_distance() {
    // Whatever pitch the input drives the camera to, the local camera
    // position keeps magnitude camera_distance (within fixed-point
    // tolerance).
    let mut player = PlayerOrbitState::with_camera(1);
    let mut transform = TransformFx::default();
    let mut camera = Some(TransformFx::default());
    let looks: [i64; 5] = [-3_000_000, 500_000, 2_500_000, -800_000, 40_000_000];
    for look_y in looks {
        let motion = [Vec2Fx { x: 0, y: look_y }];
        one_frame(
            &mut player,
            &mut transform,
            &mut camera,
            &motion,
            &[700_000],
            no_keys(),
            1_000_000,
        );
        let cam = camera.unwrap();
        let d = player.camera_distance as i128;
        let sq = (cam.position.x as i128) * (cam.position.x as i128)
            + (cam.position.y as i128) * (cam.position.y as i128)
            + (cam.position.z as i128) * (cam.position.z as i128);
        assert!((sq - d * d).abs() <= 2_000_000_000);
    }
}
