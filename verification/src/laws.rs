//! Library-wide laws of the controller, stated over the spec-level model
//! and proved once and for all.

use vstd::prelude::*;
use crate::fx::{
    SCALE, FX_MAX, abs_of, fp_mul_spec, lemma_abs_mul, lemma_mul_abs_bound, lemma_fp_mul_close,
};
use crate::orbit::{
    OrbitModel, FrameInput, KeyState, bands_ok, run_frames_spec, axis_value, intent_spec,
    scaled_intent_spec, displacement_spec, camera_offset_spec, INV_SQRT2, DIST_MIN, DIST_MAX,
};
use crate::transform::TransformFx;

verus! {

/// Clamp invariant: whatever the starting scalars and whatever look/zoom
/// input arrives, after any positive number of whole frames the camera
/// pitch lies in its one-to-179-degree band and the camera distance in its
/// five-to-thirty-unit band.
pub proof fn lemma_clamp_invariant(m: OrbitModel, inputs: Seq<FrameInput>)
    requires
        inputs.len() >= 1,
    ensures
        bands_ok(run_frames_spec(m, inputs)),
{
}

/// The squared fixed-point magnitude of a movement intent.
pub open spec fn intent_sq_mag(k: KeyState) -> int {
    let xy = intent_spec(k);
    xy.0 * xy.0 + xy.1 * xy.1
}

/// Movement normalization: an intent from two orthogonal movement keys has
/// the same magnitude as an intent from a single key, to within one part
/// in a million of the squared fixed-point unit length.  The same frame
/// scaling (`dt * MOVE_SPEED`) and basis projection apply to both, so the
/// per-frame displacement magnitudes agree to the same relative tolerance.
pub proof fn lemma_diagonal_intent_magnitude(diag: KeyState, single: KeyState)
    requires
        axis_value(diag.right, diag.left) != 0,
        axis_value(diag.forward, diag.back) != 0,
        (axis_value(single.right, single.left) == 0)
            != (axis_value(single.forward, single.back) == 0),
    ensures
        abs_of(intent_sq_mag(diag) - intent_sq_mag(single)) < SCALE as int,
{
    let i = INV_SQRT2 as int;
    let s = SCALE as int;
    let dx = axis_value(diag.right, diag.left);
    let dy = axis_value(diag.forward, diag.back);
    assert((dx * i) * (dx * i) == i * i) by (nonlinear_arith)
        requires
            dx == 1 || dx == -1,
    ;
    assert((dy * i) * (dy * i) == i * i) by (nonlinear_arith)
        requires
            dy == 1 || dy == -1,
    ;
    let sx = axis_value(single.right, single.left);
    let sy = axis_value(single.forward, single.back);
    assert((sx * s) * (sx * s) + (sy * s) * (sy * s) == s * s) by (nonlinear_arith)
        requires
            (sx == 0) != (sy == 0),
            sx == 1 || sx == -1 || sx == 0,
            sy == 1 || sy == -1 || sy == 0,
    ;
    assert(i * i == 500_000_309_449int) by (nonlinear_arith)
        requires
            i == 707_107,
    ;
}

/// Movement normalization over a whole frame: for any equal elapsed time,
/// the squared magnitude of the scaled movement intent from two orthogonal
/// keys differs from a single key's by at most one part in ten thousand of
/// the elapsed time squared, plus a fixed-point rounding term — diagonal
/// movement covers the same distance per frame as axis movement.  The
/// basis projection applies the same linear map to both intents.
pub proof fn lemma_diagonal_frame_magnitude(diag: KeyState, single: KeyState, dt: int)
    requires
        axis_value(diag.right, diag.left) != 0,
        axis_value(diag.forward, diag.back) != 0,
        (axis_value(single.right, single.left) == 0)
            != (axis_value(single.forward, single.back) == 0),
        0 <= dt <= 100_000_000_000_000_000,
    ensures
        ({
            let d = scaled_intent_spec(diag, dt);
            let n = scaled_intent_spec(single, dt);
            abs_of((d.0 * d.0 + d.1 * d.1) - (n.0 * n.0 + n.1 * n.1)) * 10_000
                <= dt * dt + 3_000_000 * dt + 2_000_000
        }),
{
    let s = SCALE as int;
    let i = INV_SQRT2 as int;
    let dx = axis_value(diag.right, diag.left);
    let dy = axis_value(diag.forward, diag.back);
    let sx = axis_value(single.right, single.left);
    let sy = axis_value(single.forward, single.back);
    let v = i * dt;
    let dtsq = dt * dt;

    // The single-key intent scales exactly: the inner product by `dt` and
    // the outer one by the movement speed both divide out the unit.
    lemma_fp_mul_unit_axis(sx, dt);
    lemma_fp_mul_unit_axis(sy, dt);
    lemma_fp_mul_spec_zero_left(crate::orbit::MOVE_SPEED as int);
    if sx == 0 {
        lemma_fp_mul_by_speed(sy * dt);
        assert(abs_of(sy * dt) == dt) by (nonlinear_arith)
            requires
                sy == 1 || sy == -1,
                dt >= 0,
        ;
    } else {
        lemma_fp_mul_by_speed(sx * dt);
        assert(abs_of(sx * dt) == dt) by (nonlinear_arith)
            requires
                sx == 1 || sx == -1,
                dt >= 0,
        ;
    }
    let n = scaled_intent_spec(single, dt);
    assert(n.0 * n.0 + n.1 * n.1 == 100 * dtsq) by (nonlinear_arith)
        requires
            (sx == 0) != (sy == 0),
            sx == 1 || sx == -1 || sx == 0,
            sy == 1 || sy == -1 || sy == 0,
            sx != 0 ==> n.0 == 10 * (sx * dt) && n.1 == 0,
            sy != 0 ==> n.1 == 10 * (sy * dt) && n.0 == 0,
            dtsq == dt * dt,
    ;

    // The diagonal intent components lose less than one fixed-point step
    // each to truncation.
    assert(abs_of(dx * i) == i && abs_of(dy * i) == i) by (nonlinear_arith)
        requires
            dx == 1 || dx == -1,
            dy == 1 || dy == -1,
            i == 707_107,
    ;
    let ux = fp_mul_spec(dx * i, dt);
    let uy = fp_mul_spec(dy * i, dt);
    lemma_fp_mul_close(dx * i, dt);
    lemma_fp_mul_close(dy * i, dt);
    lemma_abs_mul(dx * i, dt);
    lemma_abs_mul(dy * i, dt);
    assert(abs_of((dx * i) * dt) == v && abs_of((dy * i) * dt) == v);
    assert(abs_of(s * ux) <= v + s && abs_of(s * uy) <= v + s);
    assert(abs_of(ux) * 10 <= FX_MAX as int && abs_of(uy) * 10 <= FX_MAX as int)
        by (nonlinear_arith)
        requires
            abs_of(s * ux) <= v + s,
            abs_of(s * uy) <= v + s,
            s == 1_000_000,
            v == 707_107 * dt,
            0 <= dt <= 100_000_000_000_000_000,
    ;
    lemma_fp_mul_by_speed(ux);
    lemma_fp_mul_by_speed(uy);
    let d = scaled_intent_spec(diag, dt);
    assert(d.0 == 10 * ux && d.1 == 10 * uy);

    // Squares of close values are close, and the scale divides out of the
    // difference of squared magnitudes.
    lemma_close_squares(s * ux, (dx * i) * dt, s, v);
    lemma_close_squares(s * uy, (dy * i) * dt, s, v);
    lemma_square_scale(s, ux);
    lemma_square_scale(s, uy);
    assert(((dx * i) * dt) * ((dx * i) * dt) == v * v) by (nonlinear_arith)
        requires
            dx == 1 || dx == -1,
            v == i * dt,
    ;
    assert(((dy * i) * dt) * ((dy * i) * dt) == v * v) by (nonlinear_arith)
        requires
            dy == 1 || dy == -1,
            v == i * dt,
    ;
    assert(abs_of((s * s) * (ux * ux) - v * v) <= s * (2 * v + s));
    assert(abs_of((s * s) * (uy * uy) - v * v) <= s * (2 * v + s));
    assert(v * v == 500_000_309_449 * dtsq) by (nonlinear_arith)
        requires
            v == 707_107 * dt,
            dtsq == dt * dt,
    ;
    let dsq = d.0 * d.0 + d.1 * d.1;
    assert(dsq == 100 * (ux * ux) + 100 * (uy * uy)) by (nonlinear_arith)
        requires
            d.0 == 10 * ux,
            d.1 == 10 * uy,
            dsq == d.0 * d.0 + d.1 * d.1,
    ;
    let diff = dsq - (n.0 * n.0 + n.1 * n.1);
    assert(abs_of((s * s) * diff)
        <= 61_889_800 * dtsq + 282_842_800_000_000 * dt + 200_000_000_000_000)
        by (nonlinear_arith)
        requires
            abs_of((s * s) * (ux * ux) - v * v) <= s * (2 * v + s),
            abs_of((s * s) * (uy * uy) - v * v) <= s * (2 * v + s),
            v * v == 500_000_309_449 * dtsq,
            dsq == 100 * (ux * ux) + 100 * (uy * uy),
            diff == dsq - 100 * dtsq,
            s == 1_000_000,
            v == 707_107 * dt,
            dt >= 0,
            dtsq == dt * dt,
    ;
    assert(abs_of(diff) * 10_000 <= dtsq + 3_000_000 * dt + 2_000_000) by (nonlinear_arith)
        requires
            abs_of((s * s) * diff)
                <= 61_889_800 * dtsq + 282_842_800_000_000 * dt + 200_000_000_000_000,
            s == 1_000_000,
            dt >= 0,
            dtsq >= 0,
    ;
}

/// Movement cancellation: pressing opposing keys together contributes
/// nothing on that axis, and with both axes cancelled the frame's planar
/// displacement is exactly zero whatever the elapsed time and whatever
/// the player's basis vectors.
pub proof fn lemma_opposing_keys_cancel(t: TransformFx, k: KeyState, dt: int)
    ensures
        k.forward == k.back ==> scaled_intent_spec(k, dt).1 == 0,
        k.right == k.left ==> scaled_intent_spec(k, dt).0 == 0,
        (k.forward == k.back && k.right == k.left) ==> displacement_spec(t, k, dt) == (
            0int,
            0int,
        ),
{
    lemma_fp_mul_spec_zero_left(dt);
    lemma_fp_mul_spec_zero_left(crate::orbit::MOVE_SPEED as int);
    if k.forward == k.back && k.right == k.left {
        lemma_fp_mul_spec_zero_right(t.axis_x.x as int);
        lemma_fp_mul_spec_zero_right(t.axis_x.z as int);
        lemma_fp_mul_spec_zero_right(t.axis_z.x as int);
        lemma_fp_mul_spec_zero_right(t.axis_z.z as int);
        assert(displacement_spec(t, k, dt) == (0int, 0int));
    }
}

/// Camera orbit radius: the camera's local position computed from a
/// clamped distance and a host-supplied cosine/sine pair of the pitch has
/// squared magnitude within `2 * 10^9` fixed-point steps of the squared
/// distance — a relative error below one part in ten thousand over the
/// whole distance band.  The cosine/sine pair is only asked to be a
/// rounded fixed-point image of a point on the unit circle.
pub proof fn lemma_orbit_radius(d: int, c: int, s: int)
    requires
        DIST_MIN <= d <= DIST_MAX,
        abs_of(c) <= SCALE as int,
        abs_of(s) <= SCALE as int,
        abs_of(c * c + s * s - (SCALE as int) * (SCALE as int)) <= 2 * (SCALE as int) + 2,
    ensures
        ({
            let off = camera_offset_spec(d, c, s);
            abs_of(off.0 * off.0 + off.1 * off.1 + off.2 * off.2 - d * d) <= 2_000_000_000
        }),
{
    let sc = SCALE as int;
    let y = fp_mul_spec(d, c);
    let z = fp_mul_spec(d, s);

    // The two fixed-point products are within one truncation step of the
    // exact scaled products.
    lemma_mul_abs_bound(d, c, 30_000_000, 1_000_000);
    lemma_mul_abs_bound(d, s, 30_000_000, 1_000_000);
    lemma_abs_mul(d, c);
    lemma_abs_mul(d, s);
    lemma_fp_mul_close(d, c);
    lemma_fp_mul_close(d, s);
    let a1 = sc * y;
    let b1 = d * c;
    let a2 = sc * z;
    let b2 = d * s;
    assert(abs_of(a1 - b1) <= sc);
    assert(abs_of(a2 - b2) <= sc);
    assert(abs_of(b1) <= 30_000_000_000_000int);
    assert(abs_of(b2) <= 30_000_000_000_000int);

    // Squares of close values are close.
    lemma_close_squares(a1, b1, sc, 30_000_000_000_000int);
    lemma_close_squares(a2, b2, sc, 30_000_000_000_000int);
    assert(abs_of(a1 * a1 - b1 * b1) <= 60_000_001_000_000_000_000int);
    assert(abs_of(a2 * a2 - b2 * b2) <= 60_000_001_000_000_000_000int);

    // The exact squared products sum to the squared distance scaled by the
    // squared unit, up to the unit-circle rounding of the cosine/sine pair.
    let t = d * d;
    lemma_square_distrib(d, c);
    lemma_square_distrib(d, s);
    assert(b1 * b1 + b2 * b2 == t * (c * c) + t * (s * s));
    assert(t * (c * c) + t * (s * s) == t * (sc * sc) + t * (c * c + s * s - sc * sc))
        by (nonlinear_arith);
    assert(abs_of(t) <= 900_000_000_000_000int) by {
        lemma_abs_mul(d, d);
        lemma_mul_abs_bound(d, d, 30_000_000, 30_000_000);
    }
    lemma_mul_abs_bound(t, c * c + s * s - sc * sc, 900_000_000_000_000int, 2_000_002int);
    assert(abs_of(b1 * b1 + b2 * b2 - t * (sc * sc)) <= 1_800_001_800_000_000_000_000int);

    // Assemble: the scaled squared magnitude is close to the scaled
    // squared distance, and the scale divides out.
    assert(abs_of(a1 * a1 + a2 * a2 - t * (sc * sc)) <= 1_920_001_802_000_000_000_000int);
    lemma_square_scale(sc, y);
    lemma_square_scale(sc, z);
    assert(a1 * a1 + a2 * a2 == (sc * sc) * (y * y + z * z)) by (nonlinear_arith)
        requires
            a1 * a1 == (sc * sc) * (y * y),
            a2 * a2 == (sc * sc) * (z * z),
    ;
    assert(abs_of((sc * sc) * (y * y + z * z - t)) <= 1_920_001_802_000_000_000_000int)
        by (nonlinear_arith)
        requires
            abs_of((sc * sc) * (y * y + z * z) - t * (sc * sc))
                <= 1_920_001_802_000_000_000_000int,
    ;
    assert(abs_of(y * y + z * z - t) <= 2_000_000_000int) by (nonlinear_arith)
        requires
            abs_of((sc * sc) * (y * y + z * z - t)) <= 1_920_001_802_000_000_000_000int,
            sc == 1_000_000,
    ;
    assert(camera_offset_spec(d, c, s).1 == y);
    assert(camera_offset_spec(d, c, s).2 == -z);
    assert((-z) * (-z) == z * z) by (nonlinear_arith);
}

/// A unit-length axis intent scaled by a nonnegative time is exact: the
/// fixed-point unit divides out.
proof fn lemma_fp_mul_unit_axis(a: int, dt: int)
    requires
        a == 1 || a == -1 || a == 0,
        0 <= dt <= FX_MAX as int,
    ensures
        fp_mul_spec(a * (SCALE as int), dt) == a * dt,
{
    let s = SCALE as int;
    vstd::arithmetic::div_mod::lemma_div_multiples_vanish(dt, s);
    if a == 0 {
        lemma_fp_mul_spec_zero_left(dt);
    } else if a == 1 {
        assert(abs_of(a * s) == s);
        assert(abs_of(a * s) * abs_of(dt) == s * dt);
    } else {
        assert(abs_of(a * s) == s);
        assert(abs_of(a * s) * abs_of(dt) == s * dt);
    }
}

/// Scaling by the movement speed multiplies a fixed-point value by ten
/// exactly, as long as the result cannot saturate.
proof fn lemma_fp_mul_by_speed(x: int)
    requires
        abs_of(x) * 10 <= FX_MAX as int,
    ensures
        fp_mul_spec(x, crate::orbit::MOVE_SPEED as int) == 10 * x,
{
    let s = SCALE as int;
    let ms = crate::orbit::MOVE_SPEED as int;
    assert(abs_of(x) * abs_of(ms) == s * (10 * abs_of(x))) by (nonlinear_arith)
        requires
            abs_of(ms) == 10_000_000,
            s == 1_000_000,
    ;
    vstd::arithmetic::div_mod::lemma_div_multiples_vanish(10 * abs_of(x), s);
}

/// A zero left factor gives a zero fixed-point product.
proof fn lemma_fp_mul_spec_zero_left(b: int)
    ensures
        fp_mul_spec(0, b) == 0,
{
    assert(abs_of(0) * abs_of(b) == 0) by (nonlinear_arith);
    vstd::arithmetic::div_mod::lemma_div_multiples_vanish(0, SCALE as int);
    assert((SCALE as int) * 0 == 0);
}

/// A zero right factor gives a zero fixed-point product.
proof fn lemma_fp_mul_spec_zero_right(a: int)
    ensures
        fp_mul_spec(a, 0) == 0,
{
    assert(abs_of(a) * abs_of(0) == 0) by (nonlinear_arith);
    vstd::arithmetic::div_mod::lemma_div_multiples_vanish(0, SCALE as int);
    assert((SCALE as int) * 0 == 0);
}

/// Squares of close, bounded values are close.
proof fn lemma_close_squares(u: int, v: int, err: int, cap: int) by (nonlinear_arith)
    requires
        abs_of(u - v) <= err,
        abs_of(v) <= cap,
        0 <= err,
        0 <= cap,
    ensures
        abs_of(u * u - v * v) <= err * (2 * cap + err),
{
}

/// A square of a product is the product of the squares.
proof fn lemma_square_distrib(a: int, b: int) by (nonlinear_arith)
    ensures
        (a * b) * (a * b) == (a * a) * (b * b),
{
}

/// A square of a scaled value is the squared scale times the square.
proof fn lemma_square_scale(k: int, y: int) by (nonlinear_arith)
    ensures
        (k * y) * (k * y) == (k * k) * (y * y),
{
}

} // verus!
