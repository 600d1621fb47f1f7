//! The calibration engine: three readings in, a bounded, grid-aligned offset out.
use vstd::prelude::*;
use vstd::arithmetic::div_mod::lemma_mod_multiples_basic;

verus! {

/// Largest offset, in hundredths of a degree, that a valve accepts either way.
pub const CALIBRATION_LIMIT: i32 = 500;

/// The grid, in hundredths of a degree, on which a valve accepts offsets.
pub const CALIBRATION_STEP: i32 = 50;

/// Marker for the calibration engine; the engine itself is a set of free functions.
pub struct Calibrator {}

/// The whole degrees of `x` hundredths, rounded toward zero.
pub open spec fn whole_degrees(x: int) -> int {
    if x >= 0 { x / 100 } else { -((-x) / 100) }
}

/// What is left of `x` hundredths once the whole degrees are taken out; it has the sign of `x`.
pub open spec fn fraction_of(x: int) -> int {
    x - 100 * whole_degrees(x)
}

/// The fraction rounded onto the half-degree grid: up to a third of a degree
/// drops, up to two thirds becomes a half, above that a whole degree.
pub open spec fn fraction_bucket(f: int) -> int {
    if -33 <= f && f <= 33 {
        0
    } else if 33 < f && f <= 66 {
        50
    } else if -66 <= f && f < -33 {
        -50
    } else if f > 0 {
        100
    } else {
        -100
    }
}

/// The offset that makes the valve show what the sensor reads, before clamping.
pub open spec fn unclamped_calibration(sensor: int, old_calibration: int, shown: int) -> int {
    let raw = sensor - (shown - old_calibration);
    100 * whole_degrees(raw) + fraction_bucket(fraction_of(raw))
}

/// The new offset: the unclamped one, held to at most five degrees either way.
pub open spec fn calibration_of(sensor: int, old_calibration: int, shown: int) -> int {
    let c = unclamped_calibration(sensor, old_calibration, shown);
    if -500 <= c && c <= 500 {
        c
    } else if c > 0 {
        500
    } else {
        -500
    }
}

/// Rounds a fraction of a degree, in hundredths, onto the half-degree grid.
pub fn round_to_correct_fraction(fraction: i32) -> (r: i32)
    ensures
        r == fraction_bucket(fraction as int),
{
    if -33 <= fraction && fraction <= 33 {
        0
    } else if 33 < fraction && fraction <= 66 {
        50
    } else if -66 <= fraction && fraction < -33 {
        -50
    } else if fraction > 0 {
        100
    } else {
        -100
    }
}

/// The calibration offset that makes the valve display the sensor's reading,
/// on the half-degree grid and within five degrees either way.
/// All values are hundredths of a degree.
pub fn compute_new_calibration(temp_sensor: i32, temp_calibration_old: i32, temp_show_on_valve_old: i32) -> (r: i32)
    ensures
        r as int == calibration_of(temp_sensor as int, temp_calibration_old as int, temp_show_on_valve_old as int),
        -CALIBRATION_LIMIT <= r <= CALIBRATION_LIMIT,
        r % CALIBRATION_STEP == 0,
{
    let raw: i64 = temp_sensor as i64 - (temp_show_on_valve_old as i64 - temp_calibration_old as i64);
    let whole: i64 = if raw >= 0 { raw / 100 } else { -((-raw) / 100) };
    let fraction: i64 = raw - 100 * whole;
    assert(-100 < fraction < 100) by (nonlinear_arith)
        requires
            whole == (if raw >= 0 { raw / 100 } else { -((-raw) / 100) }),
            fraction == raw - 100 * whole,
    ;
    let bucket: i32 = round_to_correct_fraction(fraction as i32);
    let candidate: i64 = 100 * whole + bucket as i64;
    let r: i32 = if -500 <= candidate && candidate <= 500 {
        candidate as i32
    } else if candidate > 0 {
        500
    } else {
        -500
    };
    proof {
        lemma_calibration_on_grid(temp_sensor as int, temp_calibration_old as int, temp_show_on_valve_old as int);
    }
    r
}

/// Every offset the engine returns lies within five degrees either way and on
/// the half-degree grid.
pub proof fn lemma_calibration_on_grid(sensor: int, old_calibration: int, shown: int)
    ensures
        -500 <= calibration_of(sensor, old_calibration, shown) <= 500,
        calibration_of(sensor, old_calibration, shown) % 50 == 0,
{
    let raw = sensor - (shown - old_calibration);
    let w = whole_degrees(raw);
    let b = fraction_bucket(fraction_of(raw));
    let k: int = if b == 0 { 0 } else if b == 50 { 1 } else if b == -50 { -1 } else if b == 100 { 2 } else { -2 };
    assert(100 * w + b == (2 * w + k) * 50);
    lemma_mod_multiples_basic(2 * w + k, 50);
    lemma_mod_multiples_basic(10, 50);
    lemma_mod_multiples_basic(-10, 50);
}

/// The engine depends on its three inputs alone: equal inputs give equal offsets.
pub proof fn lemma_calibration_deterministic(
    sensor_a: int,
    old_calibration_a: int,
    shown_a: int,
    sensor_b: int,
    old_calibration_b: int,
    shown_b: int,
)
    requires
        sensor_a == sensor_b,
        old_calibration_a == old_calibration_b,
        shown_a == shown_b,
    ensures
        calibration_of(sensor_a, old_calibration_a, shown_a) == calibration_of(sensor_b, old_calibration_b, shown_b),
{
}

/// Whether a newly computed offset differs from the applied one by a full grid
/// step, so that it is worth sending to the valve.
pub open spec fn worth_publishing(new_calibration: int, old_calibration: int) -> bool {
    new_calibration - old_calibration > 49 || old_calibration - new_calibration > 49
}

/// Decides whether `new_calibration` is sent: only when it is more than 0.49°
/// away from `old_calibration`.
pub fn should_publish(new_calibration: i32, old_calibration: i32) -> (r: bool)
    ensures
        r == worth_publishing(new_calibration as int, old_calibration as int),
{
    let diff: i64 = new_calibration as i64 - old_calibration as i64;
    diff > 49 || diff < -49
}

} // verus!
