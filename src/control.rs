//! The per-camera control component and the motion it drives.
//!
//! All quantities are fixed-point values in millionths (see `fixed`): angles
//! in radians, lengths in world units, durations in seconds, mouse motion in
//! pixels and wheel motion in lines.
use crate::fixed::{
    clamp,
    div_trunc,
    fx_mul,
    fx_mul_spec,
    lemma_fraction_between,
    norm_squared,
    sat_add,
    sat_sub,
    saturate,
    unit_axis,
    Vec2,
    Vec3,
    UNIT,
};
use vstd::arithmetic::div_mod::{lemma_fundamental_div_mod, lemma_mod_pos_bound};
use vstd::prelude::*;

verus! {

/// Smallest factor applied to the speed by the mouse wheel: `0.1`.
pub const MIN_SPEED_SCALAR: i64 = 100_000;

/// Largest factor applied to the speed by the mouse wheel: `10.0`.
pub const MAX_SPEED_SCALAR: i64 = 10_000_000;

/// Bound on the pitch, either way: a third of pi, in micro-radians.
pub const PITCH_LIMIT: i64 = 1_047_198;

/// A configuration that the control component cannot work with.
#[derive(Clone, Copy, Debug, PartialEq, Eq, Structural)]
pub enum ConfigError {
    /// The interpolation rate is outside `[0.0, 1.0)`.
    LerpRateOutOfRange,
}

/// Free-flying camera control, attached to one camera.
#[derive(Clone, Copy, Debug, PartialEq, Eq, Structural)]
pub struct Prank3d {
    /// Whether user input may be applied to this camera.
    pub is_active: bool,
    /// Speed at which the camera moves, in units per second.
    pub speed: i64,
    /// Factor on `speed`, adjusted with the mouse wheel; it is squared before use.
    pub speed_scalar: i64,
    /// Share of the distance to `translation` left after one second; zero
    /// disables interpolation. Must lie in `[0.0, 1.0)`.
    pub lerp_rate: i64,
    /// Mouse sensitivity, per axis.
    pub sensitivity: Vec2,
    /// The position the camera approaches.
    pub translation: Vec3,
}

/// The unit axes of a camera's orientation, in world space.
#[derive(Clone, Copy, Debug, PartialEq, Eq, Structural)]
pub struct CameraFrame {
    pub forward: Vec3,
    pub right: Vec3,
    pub up: Vec3,
}

/// Yaw and pitch of a camera, in radians; roll is always zero.
#[derive(Clone, Copy, Debug, PartialEq, Eq, Structural)]
pub struct Orientation {
    pub yaw: i64,
    pub pitch: i64,
}

/// Movement keys held during a tick.
#[derive(Clone, Copy, Debug, PartialEq, Eq, Structural)]
pub struct FlyKeys {
    pub forward: bool,
    pub back: bool,
    pub left: bool,
    pub right: bool,
    pub up: bool,
    pub down: bool,
    /// Keep the key movement horizontal (up and down keys still apply).
    pub level: bool,
}

/// Input gathered over one tick in fly mode.
#[derive(Clone, Copy, Debug, PartialEq, Eq, Structural)]
pub struct FlyInput {
    pub keys: FlyKeys,
    /// Mouse motion, summed over the tick.
    pub motion: Vec2,
    /// Vertical wheel motion, summed over the tick.
    pub wheel: i64,
}

/// Whether `rate` is an interpolation rate in `[0.0, 1.0)`.
pub open spec fn valid_lerp_rate(rate: int) -> bool {
    0 <= rate < UNIT
}

/// The speed scalar after a tick with wheel motion `wheel`: it moves by a
/// tenth of the wheel motion and stays within `[0.1, 10.0]`.
pub open spec fn wheel_step(scalar: int, wheel: int) -> int {
    clamp(scalar + div_trunc(wheel, 10), MIN_SPEED_SCALAR as int, MAX_SPEED_SCALAR as int)
}

/// The speed scalar after one tick for each of `wheels`, in order.
pub open spec fn scalar_after(scalar: int, wheels: Seq<i64>) -> int
    decreases wheels.len(),
{
    if wheels.len() == 0 {
        scalar
    } else {
        wheel_step(scalar_after(scalar, wheels.drop_last()), wheels.last() as int)
    }
}

/// The distance covered per second: the speed times the square of its scalar.
pub open spec fn travel_speed(scalar: int, speed: int) -> int {
    fx_mul_spec(fx_mul_spec(scalar, scalar), speed)
}

/// One coordinate after moving along unit coordinate `u` for `dt` seconds at
/// `factor` units per second.
pub open spec fn advance(t: int, factor: int, u: int, dt: int) -> int {
    saturate(t + fx_mul_spec(fx_mul_spec(factor, u), dt))
}

/// The angle swept by mouse motion `m` at sensitivity `s` over `dt` seconds.
pub open spec fn sweep(s: int, m: int, dt: int) -> int {
    fx_mul_spec(fx_mul_spec(s, m), dt)
}

/// The yaw after turning: unbounded, saturating only at the bounds of `i64`.
pub open spec fn yaw_after(yaw: int, s: int, m: int, dt: int) -> int {
    saturate(yaw - sweep(s, m, dt))
}

/// The pitch after turning, held within `[-PITCH_LIMIT, PITCH_LIMIT]`.
pub open spec fn pitch_after(pitch: int, s: int, m: int, dt: int) -> int {
    clamp(pitch - sweep(s, m, dt), -PITCH_LIMIT as int, PITCH_LIMIT as int)
}

/// `+1`, `-1` or `0`, from a pair of opposite keys.
pub open spec fn key_axis(pos: bool, neg: bool) -> int {
    (if pos {
        1int
    } else {
        0int
    }) - (if neg {
        1int
    } else {
        0int
    })
}

/// One coordinate of the movement direction, before normalization, from the
/// forward and right coordinates of the camera's frame.
pub open spec fn horizontal_axis(keys: FlyKeys, forward: int, right: int) -> int {
    key_axis(keys.forward, keys.back) * forward + key_axis(keys.right, keys.left) * right
}

/// The movement direction, before normalization: forward and back along the
/// camera's forward axis, left and right along its right axis, the vertical
/// part of those dropped when moving level, then up and down along the world
/// vertical.
pub open spec fn direction_spec(keys: FlyKeys, frame: CameraFrame) -> (int, int, int) {
    let h = if keys.level {
        0
    } else {
        horizontal_axis(keys, frame.forward.y as int, frame.right.y as int)
    };
    (
        horizontal_axis(keys, frame.forward.x as int, frame.right.x as int),
        h + key_axis(keys.up, keys.down) * UNIT,
        horizontal_axis(keys, frame.forward.z as int, frame.right.z as int),
    )
}

/// Unit coordinate `i` of the movement direction: `0`, `1` or `2` for x, y, z.
pub open spec fn unit_direction(keys: FlyKeys, frame: CameraFrame, i: int) -> int {
    let d = direction_spec(keys, frame);
    let n = norm_squared(d.0, d.1, d.2);
    if i == 0 {
        unit_axis(d.0, n)
    } else if i == 1 {
        unit_axis(d.1, n)
    } else {
        unit_axis(d.2, n)
    }
}

/// One coordinate moved from `c` toward `p` by the share `1 - decay` of the
/// distance, rounded toward `c`.
pub open spec fn lerp_axis(c: int, p: int, decay: int) -> int {
    c + div_trunc((p - c) * (UNIT - decay), UNIT as int)
}

/// One coordinate after one tick of interpolation for each of `decays`.
pub open spec fn lerp_ticks(c: int, p: int, decays: Seq<int>) -> int
    decreases decays.len(),
{
    if decays.len() == 0 {
        c
    } else {
        lerp_axis(lerp_ticks(c, p, decays.drop_last()), p, decays.last())
    }
}

/// The distance between two coordinates.
pub open spec fn distance(a: int, b: int) -> int {
    if a >= b {
        a - b
    } else {
        b - a
    }
}

impl CameraFrame {
    /// Each axis has coordinates within `[-1, 1]`, as a unit vector has.
    pub open spec fn wf(self) -> bool {
        self.forward.within(UNIT as int) && self.right.within(UNIT as int) && self.up.within(
            UNIT as int,
        )
    }
}

impl FlyKeys {
    /// The movement direction these keys ask for, before normalization.
    pub fn direction(&self, frame: &CameraFrame) -> (r: Vec3)
        requires
            frame.wf(),
        ensures
            (r.x as int, r.y as int, r.z as int) == direction_spec(*self, *frame),
    {
        let f: i64 = if self.forward {
            1
        } else {
            0
        } - if self.back {
            1
        } else {
            0
        };
        let s: i64 = if self.right {
            1
        } else {
            0
        } - if self.left {
            1
        } else {
            0
        };
        let v: i64 = if self.up {
            1
        } else {
            0
        } - if self.down {
            1
        } else {
            0
        };
        assert(f == key_axis(self.forward, self.back));
        assert(s == key_axis(self.right, self.left));
        assert(v == key_axis(self.up, self.down));
        let x = f * frame.forward.x + s * frame.right.x;
        let h = if self.level {
            0
        } else {
            f * frame.forward.y + s * frame.right.y
        };
        let y = h + v * UNIT;
        let z = f * frame.forward.z + s * frame.right.z;
        Vec3 { x, y, z }
    }
}

impl Prank3d {
    /// Checks that the interpolation rate lies in `[0.0, 1.0)`.
    pub fn check_lerp_rate(&self) -> (r: Result<(), ConfigError>)
        ensures
            r is Ok <==> valid_lerp_rate(self.lerp_rate as int),
            r is Err ==> r == Err::<(), ConfigError>(ConfigError::LerpRateOutOfRange),
    {
        if 0 <= self.lerp_rate && self.lerp_rate < UNIT {
            Ok(())
        } else {
            Err(ConfigError::LerpRateOutOfRange)
        }
    }

    /// First setup once the component is attached to a camera at
    /// `translation`: the camera starts out approaching where it stands.
    /// Fails, changing nothing, where the interpolation rate is out of range.
    pub fn initialize(&mut self, translation: Vec3) -> (r: Result<(), ConfigError>)
        ensures
            r is Ok <==> valid_lerp_rate(old(self).lerp_rate as int),
            r is Err ==> r == Err::<(), ConfigError>(ConfigError::LerpRateOutOfRange),
            r is Err ==> *final(self) == *old(self),
            r is Ok ==> final(self).translation == translation,
            final(self).is_active == old(self).is_active,
            final(self).speed == old(self).speed,
            final(self).speed_scalar == old(self).speed_scalar,
            final(self).lerp_rate == old(self).lerp_rate,
            final(self).sensitivity == old(self).sensitivity,
    {
        match self.check_lerp_rate() {
            Ok(()) => {
                self.translation = translation;
                Ok(())
            },
            Err(e) => Err(e),
        }
    }

    /// Adjusts the speed scalar by a tick's wheel motion.
    pub fn apply_wheel(&mut self, wheel: i64)
        ensures
            final(self).speed_scalar == wheel_step(old(self).speed_scalar as int, wheel as int),
            MIN_SPEED_SCALAR <= final(self).speed_scalar <= MAX_SPEED_SCALAR,
            final(self).is_active == old(self).is_active,
            final(self).speed == old(self).speed,
            final(self).lerp_rate == old(self).lerp_rate,
            final(self).sensitivity == old(self).sensitivity,
            final(self).translation == old(self).translation,
    {
        let s: i128 = self.speed_scalar as i128 + (wheel / 10) as i128;
        self.speed_scalar = crate::fixed::clamp_wide(s, MIN_SPEED_SCALAR, MAX_SPEED_SCALAR);
    }

    /// The orientation after a tick of mouse motion `motion` lasting `dt`:
    /// the yaw turns freely, the pitch stays within `PITCH_LIMIT` either way.
    pub fn turn(&self, orientation: Orientation, motion: Vec2, dt: i64) -> (r: Orientation)
        ensures
            r.yaw == yaw_after(orientation.yaw as int, self.sensitivity.x as int, motion.x as int, dt as int),
            r.pitch == pitch_after(
                orientation.pitch as int,
                self.sensitivity.y as int,
                motion.y as int,
                dt as int,
            ),
            -PITCH_LIMIT <= r.pitch <= PITCH_LIMIT,
    {
        let yaw_sweep = fx_mul(fx_mul(self.sensitivity.x, motion.x), dt);
        let pitch_sweep = fx_mul(fx_mul(self.sensitivity.y, motion.y), dt);
        let yaw = sat_sub(orientation.yaw, yaw_sweep);
        let pitch = crate::fixed::clamp_wide(
            orientation.pitch as i128 - pitch_sweep as i128,
            -PITCH_LIMIT,
            PITCH_LIMIT,
        );
        Orientation { yaw, pitch }
    }

    /// One tick in fly mode, lasting `dt` seconds, for a camera whose frame
    /// is `frame` and whose orientation is `orientation`.
    ///
    /// The wheel adjusts the speed scalar first; the target translation then
    /// moves along the normalized key direction at the speed times the square
    /// of the new scalar; mouse motion turns the camera. Returns the new
    /// orientation.
    pub fn fly(&mut self, orientation: Orientation, frame: &CameraFrame, input: &FlyInput, dt: i64) -> (r:
        Orientation)
        requires
            frame.wf(),
        ensures
            final(self).speed_scalar == wheel_step(old(self).speed_scalar as int, input.wheel as int),
            MIN_SPEED_SCALAR <= final(self).speed_scalar <= MAX_SPEED_SCALAR,
            final(self).translation.x == advance(
                old(self).translation.x as int,
                travel_speed(final(self).speed_scalar as int, old(self).speed as int),
                unit_direction(input.keys, *frame, 0),
                dt as int,
            ),
            final(self).translation.y == advance(
                old(self).translation.y as int,
                travel_speed(final(self).speed_scalar as int, old(self).speed as int),
                unit_direction(input.keys, *frame, 1),
                dt as int,
            ),
            final(self).translation.z == advance(
                old(self).translation.z as int,
                travel_speed(final(self).speed_scalar as int, old(self).speed as int),
                unit_direction(input.keys, *frame, 2),
                dt as int,
            ),
            r.yaw == yaw_after(
                orientation.yaw as int,
                old(self).sensitivity.x as int,
                input.motion.x as int,
                dt as int,
            ),
            r.pitch == pitch_after(
                orientation.pitch as int,
                old(self).sensitivity.y as int,
                input.motion.y as int,
                dt as int,
            ),
            -PITCH_LIMIT <= r.pitch <= PITCH_LIMIT,
            final(self).is_active == old(self).is_active,
            final(self).speed == old(self).speed,
            final(self).lerp_rate == old(self).lerp_rate,
            final(self).sensitivity == old(self).sensitivity,
    {
        self.apply_wheel(input.wheel);
        let factor = fx_mul(fx_mul(self.speed_scalar, self.speed_scalar), self.speed);
        let unit = input.keys.direction(frame).normalize_or_zero();
        let t = self.translation;
        self.translation =
        Vec3 {
            x: sat_add(t.x, fx_mul(fx_mul(factor, unit.x), dt)),
            y: sat_add(t.y, fx_mul(fx_mul(factor, unit.y), dt)),
            z: sat_add(t.z, fx_mul(fx_mul(factor, unit.z), dt)),
        };
        self.turn(orientation, input.motion, dt)
    }

    /// One tick in offset mode, lasting `dt` seconds, for a camera standing
    /// at `translation` with frame `frame`: the camera moves within its view
    /// plane, right with the mouse's horizontal motion and up against its
    /// vertical motion, each scaled by the sensitivity. It takes the new
    /// position at once; the target translation follows it exactly.
    pub fn offset(&mut self, translation: Vec3, frame: &CameraFrame, motion: Vec2, dt: i64) -> (r: Vec3)
        ensures
            r.x == saturate(
                translation.x + saturate(
                    fx_mul_spec(sweep(old(self).sensitivity.x as int, motion.x as int, dt as int), frame.right.x as int)
                        - fx_mul_spec(sweep(old(self).sensitivity.y as int, motion.y as int, dt as int), frame.up.x as int),
                ),
            ),
            r.y == saturate(
                translation.y + saturate(
                    fx_mul_spec(sweep(old(self).sensitivity.x as int, motion.x as int, dt as int), frame.right.y as int)
                        - fx_mul_spec(sweep(old(self).sensitivity.y as int, motion.y as int, dt as int), frame.up.y as int),
                ),
            ),
            r.z == saturate(
                translation.z + saturate(
                    fx_mul_spec(sweep(old(self).sensitivity.x as int, motion.x as int, dt as int), frame.right.z as int)
                        - fx_mul_spec(sweep(old(self).sensitivity.y as int, motion.y as int, dt as int), frame.up.z as int),
                ),
            ),
            final(self).translation == r,
            final(self).is_active == old(self).is_active,
            final(self).speed == old(self).speed,
            final(self).speed_scalar == old(self).speed_scalar,
            final(self).lerp_rate == old(self).lerp_rate,
            final(self).sensitivity == old(self).sensitivity,
    {
        let a = fx_mul(fx_mul(self.sensitivity.x, motion.x), dt);
        let b = fx_mul(fx_mul(self.sensitivity.y, motion.y), dt);
        let r = Vec3 {
            x: sat_add(translation.x, sat_sub(fx_mul(a, frame.right.x), fx_mul(b, frame.up.x))),
            y: sat_add(translation.y, sat_sub(fx_mul(a, frame.right.y), fx_mul(b, frame.up.y))),
            z: sat_add(translation.z, sat_sub(fx_mul(a, frame.right.z), fx_mul(b, frame.up.z))),
        };
        self.translation = r;
        r
    }

    /// The camera's position after one tick of interpolation from `current`
    /// toward the target translation, where `decay` is the rate raised to the
    /// tick's duration: each coordinate covers the share `1 - decay` of its
    /// distance to the target.
    pub fn interpolate(&self, current: Vec3, decay: i64) -> (r: Vec3)
        requires
            0 <= decay <= UNIT,
        ensures
            r.x == lerp_axis(current.x as int, self.translation.x as int, decay as int),
            r.y == lerp_axis(current.y as int, self.translation.y as int, decay as int),
            r.z == lerp_axis(current.z as int, self.translation.z as int, decay as int),
    {
        Vec3 {
            x: lerp_coordinate(current.x, self.translation.x, decay),
            y: lerp_coordinate(current.y, self.translation.y, decay),
            z: lerp_coordinate(current.z, self.translation.z, decay),
        }
    }
}

/// One coordinate of `interpolate`.
fn lerp_coordinate(c: i64, p: i64, decay: i64) -> (r: i64)
    requires
        0 <= decay <= UNIT,
    ensures
        r == lerp_axis(c as int, p as int, decay as int),
{
    proof {
        lemma_fraction_between(p - c, UNIT - decay, UNIT as int);
    }
    let d: i128 = p as i128 - c as i128;
    let f: i128 = (UNIT - decay) as i128;
    assert(-0x2_0000_0000_0000_0000_0000_0000int <= d * f <= 0x2_0000_0000_0000_0000_0000_0000int)
        by (nonlinear_arith)
        requires
            -0x1_0000_0000_0000_0000int <= d <= 0x1_0000_0000_0000_0000int,
            0 <= f <= 1_000_000,
    ;
    let step: i128 = (d * f) / (UNIT as i128);
    (c as i128 + step) as i64
}

/// Over any run of ticks, the wheel keeps the speed scalar within
/// `[0.1, 10.0]`: after at least one tick whatever the scalar started at, and
/// from the start where it started in range.
pub proof fn lemma_speed_scalar_in_range(scalar: int, wheels: Seq<i64>)
    requires
        wheels.len() > 0 || MIN_SPEED_SCALAR <= scalar <= MAX_SPEED_SCALAR,
    ensures
        MIN_SPEED_SCALAR <= scalar_after(scalar, wheels) <= MAX_SPEED_SCALAR,
    decreases wheels.len(),
{
    if wheels.len() > 0 {
        assert(scalar_after(scalar, wheels) == wheel_step(
            scalar_after(scalar, wheels.drop_last()),
            wheels.last() as int,
        ));
    }
}

/// One tick of interpolation moves a coordinate toward the target without
/// passing it: it stays on its side of the target and gets no farther away.
/// A coordinate at the target stays there, and a decay of zero snaps it onto
/// the target.
pub proof fn lemma_lerp_step(c: int, p: int, decay: int)
    requires
        0 <= decay <= UNIT,
    ensures
        c <= p ==> c <= lerp_axis(c, p, decay) <= p,
        p <= c ==> p <= lerp_axis(c, p, decay) <= c,
        distance(lerp_axis(c, p, decay), p) <= distance(c, p),
        c == p ==> lerp_axis(c, p, decay) == c,
        decay == 0 ==> lerp_axis(c, p, decay) == p,
{
    lemma_fraction_between(p - c, UNIT - decay, UNIT as int);
}

proof fn lemma_lerp_ticks_prefix(c: int, p: int, decays: Seq<int>, k: int)
    requires
        0 <= k < decays.len(),
    ensures
        lerp_ticks(c, p, decays.take(k + 1)) == lerp_axis(lerp_ticks(c, p, decays.take(k)), p, decays[k]),
{
    assert(decays.take(k + 1).drop_last() =~= decays.take(k));
}

/// Repeated ticks of interpolation converge on the target monotonically:
/// every tick leaves a coordinate no farther from the target, on the side it
/// started on, and a coordinate that starts at the target never drifts.
pub proof fn lemma_interpolation_converges(c: int, p: int, decays: Seq<int>)
    requires
        forall|i: int| 0 <= i < decays.len() ==> 0 <= #[trigger] decays[i] <= UNIT,
    ensures
        forall|k: int|
            0 <= k < decays.len() ==> distance(#[trigger] lerp_ticks(c, p, decays.take(k + 1)), p)
                <= distance(lerp_ticks(c, p, decays.take(k)), p),
        forall|k: int|
            0 <= k <= decays.len() ==> (c <= p ==> c <= #[trigger] lerp_ticks(c, p, decays.take(k))
                <= p) && (p <= c ==> p <= lerp_ticks(c, p, decays.take(k)) <= c),
        c == p ==> lerp_ticks(c, p, decays) == p,
    decreases decays.len(),
{
    assert forall|k: int| 0 <= k < decays.len() implies distance(
        #[trigger] lerp_ticks(c, p, decays.take(k + 1)),
        p,
    ) <= distance(lerp_ticks(c, p, decays.take(k)), p) by {
        lemma_lerp_ticks_prefix(c, p, decays, k);
        lemma_lerp_step(lerp_ticks(c, p, decays.take(k)), p, decays[k]);
    }
    lemma_lerp_ticks_sides(c, p, decays, decays.len() as int);
    assert forall|k: int| 0 <= k <= decays.len() implies (c <= p ==> c <= #[trigger] lerp_ticks(
        c,
        p,
        decays.take(k),
    ) <= p) && (p <= c ==> p <= lerp_ticks(c, p, decays.take(k)) <= c) by {
        lemma_lerp_ticks_sides(c, p, decays, k);
    }
    assert(decays.take(decays.len() as int) =~= decays);
}

proof fn lemma_lerp_ticks_sides(c: int, p: int, decays: Seq<int>, k: int)
    requires
        0 <= k <= decays.len(),
        forall|i: int| 0 <= i < decays.len() ==> 0 <= #[trigger] decays[i] <= UNIT,
    ensures
        c <= p ==> c <= lerp_ticks(c, p, decays.take(k)) <= p,
        p <= c ==> p <= lerp_ticks(c, p, decays.take(k)) <= c,
    decreases k,
{
    if k == 0 {
        assert(decays.take(0).len() == 0);
    } else {
        lemma_lerp_ticks_sides(c, p, decays, k - 1);
        lemma_lerp_ticks_prefix(c, p, decays, k - 1);
        lemma_lerp_step(lerp_ticks(c, p, decays.take(k - 1)), p, decays[k - 1]);
    }
}

/// The distance left after one tick of interpolation, times `UNIT`, lies
/// within `UNIT` above the exact share `decay` of the distance before.
proof fn lemma_tick_distance(c: int, p: int, decay: int)
    requires
        0 <= decay <= UNIT,
    ensures
        distance(c, p) * decay <= UNIT * distance(lerp_axis(c, p, decay), p),
        UNIT * distance(lerp_axis(c, p, decay), p) < distance(c, p) * decay + UNIT,
{
    let u = UNIT as int;
    let d = distance(c, p);
    let x = d * (u - decay);
    assert(x >= 0) by (nonlinear_arith)
        requires
            x == d * (u - decay),
            d >= 0,
            u - decay >= 0,
    ;
    let f = x / u;
    lemma_fundamental_div_mod(x, u);
    lemma_mod_pos_bound(x, u);
    assert(u * f <= x < u * f + u);
    lemma_lerp_step(c, p, decay);
    if c <= p {
        assert((p - c) * (u - decay) == x);
        assert(lerp_axis(c, p, decay) == c + f);
    } else {
        assert((p - c) * (u - decay) == -x) by (nonlinear_arith)
            requires
                d == c - p,
                x == d * (u - decay),
        ;
        if x == 0 {
            assert(f == 0);
        }
        assert(lerp_axis(c, p, decay) == c - f);
    }
    assert(distance(lerp_axis(c, p, decay), p) == d - f);
    assert(x == d * u - d * decay) by (nonlinear_arith)
        requires
            x == d * (u - decay),
    ;
    assert(u * (d - f) == d * u - u * f) by (nonlinear_arith);
    assert(d * u == u * d) by (nonlinear_arith);
}

/// Two ticks of interpolation agree with one tick whose decay is the
/// product of theirs, as the decays `r^dt1` and `r^dt2` of two ticks
/// multiply to the decay `r^(dt1 + dt2)` of their summed duration. Both end
/// on the side of the target where they started; rounding puts the two
/// ticks no closer to the target than the one, and at most two millionths
/// plus a millionth of the starting distance farther.
pub proof fn lemma_two_ticks_as_one(c: int, p: int, d1: int, d2: int)
    requires
        0 <= d1 <= UNIT,
        0 <= d2 <= UNIT,
    ensures
        0 <= fx_mul_spec(d1, d2) <= UNIT,
        c <= p ==> lerp_axis(c, p, fx_mul_spec(d1, d2)) <= p && lerp_axis(lerp_axis(c, p, d1), p, d2) <= p,
        p <= c ==> p <= lerp_axis(c, p, fx_mul_spec(d1, d2)) && p <= lerp_axis(lerp_axis(c, p, d1), p, d2),
        distance(lerp_axis(c, p, fx_mul_spec(d1, d2)), p) <= distance(
            lerp_axis(lerp_axis(c, p, d1), p, d2),
            p,
        ),
        distance(lerp_axis(lerp_axis(c, p, d1), p, d2), p) <= distance(
            lerp_axis(c, p, fx_mul_spec(d1, d2)),
            p,
        ) + 2 + distance(c, p) / (UNIT as int),
{
    let u = UNIT as int;
    lemma_fraction_between(d1, d2, u);
    assert(d1 * d2 >= 0) by (nonlinear_arith)
        requires
            d1 >= 0,
            d2 >= 0,
    ;
    let d12 = d1 * d2 / u;
    assert(fx_mul_spec(d1, d2) == d12);
    lemma_fundamental_div_mod(d1 * d2, u);
    lemma_mod_pos_bound(d1 * d2, u);
    assert(u * d12 <= d1 * d2 < u * d12 + u);

    let c1 = lerp_axis(c, p, d1);
    let two = lerp_axis(c1, p, d2);
    let one = lerp_axis(c, p, d12);
    lemma_lerp_step(c, p, d1);
    lemma_lerp_step(c1, p, d2);
    lemma_lerp_step(c, p, d12);
    lemma_tick_distance(c, p, d1);
    lemma_tick_distance(c1, p, d2);
    lemma_tick_distance(c, p, d12);
    let d = distance(c, p);
    let e1 = distance(c1, p);
    let e2 = distance(two, p);
    let e = distance(one, p);
    assert(e <= e2) by (nonlinear_arith)
        requires
            u == 1_000_000,
            d >= 0,
            d * d1 <= u * e1,
            e1 * d2 <= u * e2,
            u * e < d * d12 + u,
            u * d12 <= d1 * d2,
            0 <= d2,
    ;
    let q = d / u;
    lemma_fundamental_div_mod(d, u);
    lemma_mod_pos_bound(d, u);
    assert(e2 <= e + 2 + q) by (nonlinear_arith)
        requires
            u == 1_000_000,
            d >= 0,
            0 <= d2 <= u,
            u * e1 < d * d1 + u,
            u * e2 < e1 * d2 + u,
            d * d12 <= u * e,
            d1 * d2 < u * d12 + u,
            d == u * q + d % u,
            0 <= d % u < u,
    ;
}

impl Default for Prank3d {
    /// Active, at speed 25 with scalar 1, interpolation rate 0.001 and
    /// sensitivity 0.08 on both axes, approaching the origin.
    fn default() -> (r: Prank3d)
        ensures
            r.is_active,
            r.speed == 25 * UNIT,
            r.speed_scalar == UNIT,
            r.lerp_rate == 1_000,
            r.sensitivity == (Vec2 { x: 80_000, y: 80_000 }),
            r.translation == (Vec3 { x: 0, y: 0, z: 0 }),
    {
        Prank3d {
            is_active: true,
            speed: 25 * UNIT,
            speed_scalar: UNIT,
            lerp_rate: 1_000,
            sensitivity: Vec2 { x: 80_000, y: 80_000 },
            translation: Vec3 { x: 0, y: 0, z: 0 },
        }
    }
}

} // verus!
