//! The orbit controller: per-frame integration of look/zoom input into the
//! player orbit state, keyboard-driven planar movement, and placement of
//! the orbiting camera.

use vstd::prelude::*;
use crate::fx::{
    SCALE, FX_MAX, sat_add_spec, fp_mul_spec, clamp_spec, sat_add, fp_mul, clamp_fx,
};
use crate::input::{InputAccumulatorState, last_motion_spec, last_wheel_spec};
use crate::transform::{Vec2Fx, Vec3Fx, RotationFx, TransformFx};

verus! {

/// Lower clamp bound of the camera pitch: one degree, in fixed-point
/// radians.
pub const PITCH_MIN: i64 = 17_453;

/// Upper clamp bound of the camera pitch: 179 degrees, in fixed-point
/// radians.
pub const PITCH_MAX: i64 = 3_124_139;

/// Initial camera pitch: 30 degrees, in fixed-point radians.
pub const PITCH_DEFAULT: i64 = 523_599;

/// Lower clamp bound of the camera distance: 5 world units.
pub const DIST_MIN: i64 = 5_000_000;

/// Upper clamp bound of the camera distance: 30 world units.
pub const DIST_MAX: i64 = 30_000_000;

/// Initial camera distance: 20 world units.
pub const DIST_DEFAULT: i64 = 20_000_000;

/// Scale factor on vertical look input: 1.0.
pub const LOOK_SENSITIVITY: i64 = 1_000_000;

/// Scale factor on scroll input: 10.0.
pub const ZOOM_SENSITIVITY: i64 = 10_000_000;

/// Player movement speed, world units per second: 10.0.
pub const MOVE_SPEED: i64 = 10_000_000;

/// 1/sqrt(2) in fixed point: the component magnitude of a normalized
/// diagonal movement intent.
pub const INV_SQRT2: i64 = 707_107;

/// The player's orbit state, mutated once per frame by the two components.
#[derive(Clone, Copy, PartialEq, Debug)]
pub struct PlayerOrbitState {
    /// Accumulated left/right look input, fixed-point radians, unbounded
    /// (the host's trigonometry wraps it implicitly).
    pub heading: i64,
    /// Camera pitch, fixed-point radians, clamped to
    /// `[PITCH_MIN, PITCH_MAX]` on every update.
    pub camera_pitch: i64,
    /// Camera orbit distance, fixed-point world units, clamped to
    /// `[DIST_MIN, DIST_MAX]` on every update.
    pub camera_distance: i64,
    /// Stable identifier of the camera entity; `None` until scene setup
    /// wires the camera up, then never reassigned.
    pub camera_ref: Option<u64>,
}

/// The immediate pressed state of the four movement keys.
#[derive(Clone, Copy, PartialEq, Eq, Structural, Debug)]
pub struct KeyState {
    pub forward: bool,
    pub back: bool,
    pub right: bool,
    pub left: bool,
}

/// Mathematical view of the three orbit scalars.
pub ghost struct OrbitModel {
    pub heading: int,
    pub pitch: int,
    pub distance: int,
}

/// One frame's aggregated input, as mathematical integers.
pub ghost struct FrameInput {
    pub look_x: int,
    pub look_y: int,
    pub zoom: int,
    pub dt: int,
}

impl PlayerOrbitState {
    /// The state's mathematical view.
    pub open spec fn model(self) -> OrbitModel {
        OrbitModel {
            heading: self.heading as int,
            pitch: self.camera_pitch as int,
            distance: self.camera_distance as int,
        }
    }

    /// The heading stays off the one `i64` value whose negation does not
    /// fit; every library operation keeps it so.
    pub open spec fn wf(self) -> bool {
        -(FX_MAX as int) <= self.heading as int
    }

    /// A state wired to the camera entity `camera`, with the initial
    /// heading, pitch and distance.
    pub fn with_camera(camera: u64) -> (s: PlayerOrbitState)
        ensures
            s.heading == 0,
            s.camera_pitch == PITCH_DEFAULT,
            s.camera_distance == DIST_DEFAULT,
            s.camera_ref == Some(camera),
            s.wf(),
    {
        PlayerOrbitState {
            heading: 0,
            camera_pitch: PITCH_DEFAULT,
            camera_distance: DIST_DEFAULT,
            camera_ref: Some(camera),
        }
    }
}

impl Default for PlayerOrbitState {
    /// The initial orbit state: heading zero, pitch 30 degrees, distance
    /// 20 world units, no camera wired yet.
    fn default() -> (s: PlayerOrbitState)
        ensures
            s.heading == 0,
            s.camera_pitch == PITCH_DEFAULT,
            s.camera_distance == DIST_DEFAULT,
            s.camera_ref == None::<u64>,
            s.wf(),
    {
        PlayerOrbitState {
            heading: 0,
            camera_pitch: PITCH_DEFAULT,
            camera_distance: DIST_DEFAULT,
            camera_ref: None,
        }
    }
}

/// Look/zoom integration: one frame of aggregated input folded into the
/// orbit scalars (no clamping; that happens in the update step).
pub open spec fn integrate_spec(m: OrbitModel, inp: FrameInput) -> OrbitModel {
    OrbitModel {
        heading: sat_add_spec(m.heading, fp_mul_spec(inp.look_x, inp.dt)),
        pitch: sat_add_spec(
            m.pitch,
            -fp_mul_spec(fp_mul_spec(inp.look_y, inp.dt), LOOK_SENSITIVITY as int),
        ),
        distance: sat_add_spec(
            m.distance,
            -fp_mul_spec(fp_mul_spec(inp.zoom, inp.dt), ZOOM_SENSITIVITY as int),
        ),
    }
}

/// The clamp step: pitch and distance pulled into their bands, heading
/// untouched.
pub open spec fn clamp_bands_spec(m: OrbitModel) -> OrbitModel {
    OrbitModel {
        heading: m.heading,
        pitch: clamp_spec(m.pitch, PITCH_MIN as int, PITCH_MAX as int),
        distance: clamp_spec(m.distance, DIST_MIN as int, DIST_MAX as int),
    }
}

/// Pitch and distance lie inside their clamp bands.
pub open spec fn bands_ok(m: OrbitModel) -> bool {
    &&& PITCH_MIN <= m.pitch <= PITCH_MAX
    &&& DIST_MIN <= m.distance <= DIST_MAX
}

/// One whole frame: integration followed by the clamp step.
pub open spec fn frame_spec(m: OrbitModel, inp: FrameInput) -> OrbitModel {
    clamp_bands_spec(integrate_spec(m, inp))
}

/// A run of whole frames, first input first.
pub open spec fn run_frames_spec(m: OrbitModel, inputs: Seq<FrameInput>) -> OrbitModel
    decreases inputs.len(),
{
    if inputs.len() == 0 {
        m
    } else {
        frame_spec(run_frames_spec(m, inputs.drop_last()), inputs.last())
    }
}

/// The signed contribution of one key axis: the positive key and the
/// negative key each contribute one unit, so opposing keys cancel.
pub open spec fn axis_value(pos: bool, neg: bool) -> int {
    (if pos { 1int } else { 0int }) - (if neg { 1int } else { 0int })
}

/// The movement intent from the four keys, normalized to (fixed-point)
/// unit length: a diagonal intent gets component magnitude `INV_SQRT2`
/// instead of 1, so diagonal movement is no faster than axis movement.
pub open spec fn intent_spec(k: KeyState) -> (int, int) {
    let x = axis_value(k.right, k.left);
    let y = axis_value(k.forward, k.back);
    if x != 0 && y != 0 {
        (x * (INV_SQRT2 as int), y * (INV_SQRT2 as int))
    } else {
        (x * (SCALE as int), y * (SCALE as int))
    }
}

/// The movement intent scaled by `dt * MOVE_SPEED`.
pub open spec fn scaled_intent_spec(k: KeyState, dt: int) -> (int, int) {
    let xy = intent_spec(k);
    (
        fp_mul_spec(fp_mul_spec(xy.0, dt), MOVE_SPEED as int),
        fp_mul_spec(fp_mul_spec(xy.1, dt), MOVE_SPEED as int),
    )
}

/// The world-space planar displacement of one frame: the scaled intent
/// projected onto the player's forward and right basis vectors, read from
/// the orientation before this frame's rotation write, with the vertical
/// component of each basis vector discarded.
pub open spec fn displacement_spec(t: TransformFx, k: KeyState, dt: int) -> (int, int) {
    let m = scaled_intent_spec(k, dt);
    (
        sat_add_spec(
            fp_mul_spec(t.axis_z.x as int, m.1),
            -fp_mul_spec(t.axis_x.x as int, m.0),
        ),
        sat_add_spec(
            fp_mul_spec(t.axis_z.z as int, m.1),
            -fp_mul_spec(t.axis_x.z as int, m.0),
        ),
    )
}

/// The camera's local position on the orbit sphere: radius `d`, pitch with
/// cosine `c` and sine `s`, all fixed point.  The unnormalized direction
/// `(0, cos, -sin)` already has unit length, so the position is the
/// direction scaled by the distance.
///
/// Known limitation, kept deliberately: the offset depends on pitch and
/// distance alone.  Horizontal look input turns the player's facing, not
/// the camera's azimuth; the camera follows the player horizontally only
/// through the parent/child relation.
pub open spec fn camera_offset_spec(d: int, c: int, s: int) -> (int, int, int) {
    (0, fp_mul_spec(d, c), -fp_mul_spec(d, s))
}

/// The cosine and sine of the clamped camera pitch, fixed point, supplied
/// by the host each frame; the controller consumes them as plain data.
#[derive(Clone, Copy, PartialEq, Eq, Structural, Debug)]
pub struct PitchTrig {
    pub cos: i64,
    pub sin: i64,
}

impl PlayerOrbitState {
    /// Look/zoom integration (step 1): fold one frame's aggregated input
    /// into heading, pitch and distance.  No clamping here; `update_player`
    /// reapplies the bands every frame before any value is used.
    pub fn apply_look_zoom(&mut self, look: Vec2Fx, zoom_delta: i64, dt: i64)
        ensures
            final(self).model() == integrate_spec(
                old(self).model(),
                FrameInput {
                    look_x: look.x as int,
                    look_y: look.y as int,
                    zoom: zoom_delta as int,
                    dt: dt as int,
                },
            ),
            final(self).camera_ref == old(self).camera_ref,
            final(self).wf(),
    {
        let look_term: i64 = fp_mul(look.x, dt);
        self.heading = sat_add(self.heading, look_term);

        let pitch_term: i64 = fp_mul(fp_mul(look.y, dt), LOOK_SENSITIVITY);
        self.camera_pitch = sat_add(self.camera_pitch, -pitch_term);

        let zoom_term: i64 = fp_mul(fp_mul(zoom_delta, dt), ZOOM_SENSITIVITY);
        self.camera_distance = sat_add(self.camera_distance, -zoom_term);
    }
}

/// The input aggregator's per-frame entry point: drain both event queues
/// (last event wins), then integrate the resulting look/zoom deltas into
/// the player's orbit state.
pub fn process_mouse_events(
    state: &mut InputAccumulatorState,
    motion_events: &Vec<Vec2Fx>,
    wheel_events: &Vec<i64>,
    dt: i64,
    player: &mut PlayerOrbitState,
)
    requires
        old(state).motion_cursor <= motion_events@.len(),
        old(state).wheel_cursor <= wheel_events@.len(),
    ensures
        final(state).motion_cursor == motion_events@.len(),
        final(state).wheel_cursor == wheel_events@.len(),
        final(player).model() == integrate_spec(
            old(player).model(),
            FrameInput {
                look_x: last_motion_spec(motion_events@, old(state).motion_cursor as int).x as int,
                look_y: last_motion_spec(motion_events@, old(state).motion_cursor as int).y as int,
                zoom: last_wheel_spec(wheel_events@, old(state).wheel_cursor as int) as int,
                dt: dt as int,
            },
        ),
        final(player).camera_ref == old(player).camera_ref,
        final(player).wf(),
{
    let (look, zoom_delta) = state.aggregate(motion_events, wheel_events);
    player.apply_look_zoom(look, zoom_delta, dt);
}

/// The orbit controller's per-frame entry point.  Clamps pitch and distance
/// into their bands, applies keyboard movement to the player position,
/// rewrites the player orientation as a pure yaw of `-heading`, and, where
/// the camera reference is wired and resolved, places the camera on the
/// orbit sphere facing the player; an unresolved camera skips that last
/// step for this frame only.
///
/// `camera` is the resolved camera transform: `None` where the reference
/// lookup failed this frame.  `pitch_trig` is the host-supplied cosine and
/// sine of the clamped camera pitch.
pub fn update_player(
    player: &mut PlayerOrbitState,
    transform: &mut TransformFx,
    camera: &mut Option<TransformFx>,
    keys: KeyState,
    dt: i64,
    pitch_trig: PitchTrig,
)
    requires
        old(player).wf(),
    ensures
        final(player).model() == clamp_bands_spec(old(player).model()),
        final(player).camera_ref == old(player).camera_ref,
        final(player).wf(),
        bands_ok(final(player).model()),
        final(transform).position.x as int == sat_add_spec(
            old(transform).position.x as int,
            displacement_spec(*old(transform), keys, dt as int).0,
        ),
        final(transform).position.y == old(transform).position.y,
        final(transform).position.z as int == sat_add_spec(
            old(transform).position.z as int,
            displacement_spec(*old(transform), keys, dt as int).1,
        ),
        (final(transform).rotation matches RotationFx::Yaw(y)
            && y as int == -(old(player).heading as int)),
        final(transform).axis_x == old(transform).axis_x,
        final(transform).axis_z == old(transform).axis_z,
        old(player).camera_ref is None || *old(camera) is None
            ==> *final(camera) == *old(camera),
        (old(player).camera_ref is Some && *old(camera) is Some) ==> {
            let cam0 = (*old(camera))->Some_0;
            let cam1 = (*final(camera))->Some_0;
            let off = camera_offset_spec(
                clamp_spec(old(player).model().distance, DIST_MIN as int, DIST_MAX as int),
                pitch_trig.cos as int,
                pitch_trig.sin as int,
            );
            &&& *final(camera) is Some
            &&& cam1.position.x as int == off.0
            &&& cam1.position.y as int == off.1
            &&& cam1.position.z as int == off.2
            &&& cam1.rotation == RotationFx::FaceOriginFrom(cam1.position)
            &&& cam1.axis_x == cam0.axis_x
            &&& cam1.axis_z == cam0.axis_z
        },
{
    // Movement intent from the four keys, each contributing one unit.
    let mut movement = Vec2Fx::zero();
    if keys.forward { movement.y = movement.y + 1; }
    if keys.back { movement.y = movement.y - 1; }
    if keys.right { movement.x = movement.x + 1; }
    if keys.left { movement.x = movement.x - 1; }

    // Normalize to fixed-point unit length so diagonal movement is not
    // faster than axis movement.
    let unit: i64 = if movement.x != 0 && movement.y != 0 { INV_SQRT2 } else { SCALE };
    movement.x = movement.x * unit;
    movement.y = movement.y * unit;

    // Scale by elapsed time and movement speed.
    let move_x: i64 = fp_mul(fp_mul(movement.x, dt), MOVE_SPEED);
    let move_y: i64 = fp_mul(fp_mul(movement.y, dt), MOVE_SPEED);

    // Clamp step: reapplied every frame, since integration can push both
    // values out of their bands.
    player.camera_pitch = clamp_fx(player.camera_pitch, PITCH_MIN, PITCH_MAX);
    player.camera_distance = clamp_fx(player.camera_distance, DIST_MIN, DIST_MAX);

    // Project the scaled intent onto last frame's forward and right basis
    // vectors, flattened to the movement plane, and move the player.
    let fwd_x: i64 = fp_mul(transform.axis_z.x, move_y);
    let fwd_z: i64 = fp_mul(transform.axis_z.z, move_y);
    let right_x: i64 = fp_mul(transform.axis_x.x, move_x);
    let right_z: i64 = fp_mul(transform.axis_x.z, move_x);
    transform.position.x = sat_add(transform.position.x, sat_add(fwd_x, -right_x));
    transform.position.z = sat_add(transform.position.z, sat_add(fwd_z, -right_z));

    // The player's orientation is a pure yaw of the negated heading.
    transform.rotation = RotationFx::Yaw(-player.heading);

    // Camera placement, skipped for this frame where the reference is
    // unwired or did not resolve.
    if player.camera_ref.is_some() {
        match camera {
            Some(cam) => {
                let cam_pos = Vec3Fx {
                    x: 0,
                    y: fp_mul(player.camera_distance, pitch_trig.cos),
                    z: -fp_mul(player.camera_distance, pitch_trig.sin),
                };
                cam.position = cam_pos;
                cam.rotation = RotationFx::FaceOriginFrom(cam_pos);
            }
            None => {}
        }
    }
}

} // verus!
