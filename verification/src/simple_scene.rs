//! The orbit camera's two angles and their per-frame update.
//!
//! Angles are whole nanoradians and elapsed time is whole nanoseconds, so an
//! angular speed of one radian per second is one nanoradian per nanosecond.

use crate::actions::{Actions, Direction};
use vstd::prelude::*;

verus! {

/// A full turn, 2π, rounded down to whole nanoradians.
pub const TWO_PI: i64 = 6_283_185_307;

/// A quarter turn, π/2, rounded down to whole nanoradians.
pub const FRAC_PI_2: i64 = 1_570_796_326;

/// A sixteenth of a turn, π/8, rounded down to whole nanoradians.
pub const FRAC_PI_8: i64 = 392_699_081;

/// The margin that keeps the elevation off the horizon and off the pole,
/// where the look direction would be ill-defined: 2⁻²³ of a radian, rounded
/// down to whole nanoradians.
pub const EPSILON: i64 = 119;

/// The lowest elevation the camera takes.
pub const ELEVATION_MIN: i64 = EPSILON;

/// The highest elevation the camera takes.
pub const ELEVATION_MAX: i64 = FRAC_PI_2 - EPSILON;

/// Angular speed of the orbit, in nanoradians per nanosecond.
pub const ORBIT_SPEED: i64 = 1;

/// An azimuth and an elevation, in nanoradians.
pub struct AnglePair {
    pub azimuth: int,
    pub elevation: int,
}

/// `azimuth` brought into `[0, TWO_PI)` by whole turns.
pub open spec fn wrap_azimuth(azimuth: int) -> int {
    azimuth % (TWO_PI as int)
}

/// `elevation` brought into `[ELEVATION_MIN, ELEVATION_MAX]`.
pub open spec fn clamp_elevation(elevation: int) -> int {
    if elevation < ELEVATION_MIN {
        ELEVATION_MIN as int
    } else if elevation > ELEVATION_MAX {
        ELEVATION_MAX as int
    } else {
        elevation
    }
}

/// The angle that one intent component sweeps in `elapsed` nanoseconds.
pub open spec fn sweep(component: int, elapsed: int) -> int {
    component * ORBIT_SPEED * elapsed
}

/// The angles after orbiting from `angle` along `intent` for `elapsed`
/// nanoseconds: the azimuth advances by the x component and wraps, the
/// elevation advances by the y component and is clamped.
pub open spec fn orbit(angle: AnglePair, intent: Direction, elapsed: int) -> AnglePair {
    AnglePair {
        azimuth: wrap_azimuth(angle.azimuth + sweep(intent.x as int, elapsed)),
        elevation: clamp_elevation(angle.elevation + sweep(intent.y as int, elapsed)),
    }
}

/// Whether `angle` is one that a camera can hold.
pub open spec fn in_range(angle: AnglePair) -> bool {
    &&& 0 <= angle.azimuth < TWO_PI
    &&& ELEVATION_MIN <= angle.elevation <= ELEVATION_MAX
}

/// The angles after `frames` frames of `elapsed` nanoseconds each, all with
/// the same `intent`.
pub open spec fn orbit_frames(
    angle: AnglePair,
    intent: Direction,
    elapsed: int,
    frames: nat,
) -> AnglePair
    decreases frames,
{
    if frames == 0 {
        angle
    } else {
        orbit_frames(orbit(angle, intent, elapsed), intent, elapsed, (frames - 1) as nat)
    }
}

/// A clamped elevation lies strictly between the horizon and the pole, and
/// clamping leaves an elevation alone exactly when it is already within the
/// margins.
pub proof fn lemma_clamp_elevation(elevation: int)
    ensures
        0 < clamp_elevation(elevation) < FRAC_PI_2,
        ELEVATION_MIN <= clamp_elevation(elevation) <= ELEVATION_MAX,
        clamp_elevation(elevation) == elevation <==> ELEVATION_MIN <= elevation <= ELEVATION_MAX,
{
}

/// A wrapped azimuth lies in `[0, TWO_PI)`, differs from the azimuth by whole
/// turns, and wrapping leaves an azimuth alone exactly when it is already in
/// that range.
pub proof fn lemma_wrap_azimuth(azimuth: int)
    ensures
        0 <= wrap_azimuth(azimuth) < TWO_PI,
        (azimuth - wrap_azimuth(azimuth)) % (TWO_PI as int) == 0,
        wrap_azimuth(azimuth) == azimuth <==> 0 <= azimuth < TWO_PI,
{
}

/// Orbiting always ends on angles that a camera can hold, wherever it
/// started and whatever the intent and the elapsed time.
pub proof fn lemma_orbit_in_range(angle: AnglePair, intent: Direction, elapsed: int)
    ensures
        in_range(orbit(angle, intent, elapsed)),
        0 < orbit(angle, intent, elapsed).elevation < FRAC_PI_2,
{
}

/// A camera at the upper margin that is pushed further up stays exactly
/// there, and likewise at the lower margin.
pub proof fn lemma_margin_holds(angle: AnglePair, intent: Direction, elapsed: nat)
    ensures
        angle.elevation == ELEVATION_MAX && intent.y >= 0 ==> orbit(
            angle,
            intent,
            elapsed as int,
        ).elevation == ELEVATION_MAX,
        angle.elevation == ELEVATION_MIN && intent.y <= 0 ==> orbit(
            angle,
            intent,
            elapsed as int,
        ).elevation == ELEVATION_MIN,
{
    let component = intent.y as int;
    assert(component >= 0 ==> component * ORBIT_SPEED * elapsed >= 0) by (nonlinear_arith)
        requires
            ORBIT_SPEED == 1,
            elapsed >= 0,
    ;
    assert(component <= 0 ==> component * ORBIT_SPEED * elapsed <= 0) by (nonlinear_arith)
        requires
            ORBIT_SPEED == 1,
            elapsed >= 0,
    ;
}

/// The sweep of several equal frames is the sweep of their whole duration.
proof fn lemma_sweep_frames(component: int, elapsed: int, frames: nat)
    ensures
        sweep(component, frames * elapsed) == frames * sweep(component, elapsed),
        frames > 0 ==> sweep(component, frames * elapsed) == sweep(component, elapsed) + sweep(
            component,
            (frames - 1) * elapsed,
        ),
{
    assert(component * ORBIT_SPEED * (frames * elapsed) == frames * (component * ORBIT_SPEED
        * elapsed)) by (nonlinear_arith);
    assert(component * ORBIT_SPEED * (frames * elapsed) == component * ORBIT_SPEED * elapsed
        + component * ORBIT_SPEED * ((frames - 1) * elapsed)) by (nonlinear_arith);
}

/// Frame-rate independence: from angles that a camera can hold, any number
/// of equal frames with one intent ends where a single frame of their whole
/// duration ends.
pub proof fn lemma_frames_compose(angle: AnglePair, intent: Direction, elapsed: int, frames: nat)
    requires
        in_range(angle),
    ensures
        orbit_frames(angle, intent, elapsed, frames) == orbit(angle, intent, frames * elapsed),
    decreases frames,
{
    if frames == 0 {
        lemma_sweep_frames(intent.x as int, elapsed, 0);
        lemma_sweep_frames(intent.y as int, elapsed, 0);
    } else {
        let next = orbit(angle, intent, elapsed);
        let rest = (frames - 1) as nat;
        lemma_frames_compose(next, intent, elapsed, rest);
        lemma_sweep_frames(intent.x as int, elapsed, frames);
        lemma_sweep_frames(intent.y as int, elapsed, frames);
        let dx = sweep(intent.x as int, elapsed);
        let dy = sweep(intent.y as int, elapsed);
        let rx = sweep(intent.x as int, rest * elapsed);
        let ry = sweep(intent.y as int, rest * elapsed);
        assert(wrap_azimuth(wrap_azimuth(angle.azimuth + dx) + rx) == wrap_azimuth(
            angle.azimuth + dx + rx,
        )) by {
            vstd::arithmetic::div_mod::lemma_add_mod_noop_right(
                rx,
                angle.azimuth + dx,
                TWO_PI as int,
            );
        }
        lemma_sweep_frames(intent.y as int, elapsed, rest);
        assert(ry == rest * dy);
        assert(dy >= 0 ==> ry >= 0) by (nonlinear_arith)
            requires
                ry == rest * dy,
                rest >= 0,
        ;
        assert(dy <= 0 ==> ry <= 0) by (nonlinear_arith)
            requires
                ry == rest * dy,
                rest >= 0,
        ;
        assert(clamp_elevation(clamp_elevation(angle.elevation + dy) + ry) == clamp_elevation(
            angle.elevation + dy + ry,
        ));
    }
}

/// A sustained push settles the camera at a margin: once the frames add up
/// to at least the way to the upper margin the elevation is exactly
/// `ELEVATION_MAX`, and once they add up to at least the way down to the
/// lower margin it is exactly `ELEVATION_MIN`.
pub proof fn lemma_sustained_push_settles(
    angle: AnglePair,
    intent: Direction,
    elapsed: int,
    frames: nat,
)
    requires
        in_range(angle),
    ensures
        angle.elevation + frames * sweep(intent.y as int, elapsed) >= ELEVATION_MAX
            ==> orbit_frames(angle, intent, elapsed, frames).elevation == ELEVATION_MAX,
        angle.elevation + frames * sweep(intent.y as int, elapsed) <= ELEVATION_MIN
            ==> orbit_frames(angle, intent, elapsed, frames).elevation == ELEVATION_MIN,
{
    lemma_frames_compose(angle, intent, elapsed, frames);
    lemma_sweep_frames(intent.y as int, elapsed, frames);
}

/// Where the camera sits on its orbit: the azimuth around the vertical axis
/// and the elevation above the horizontal plane. The azimuth is always in
/// `[0, TWO_PI)` and the elevation in `[ELEVATION_MIN, ELEVATION_MAX]`.
#[derive(Clone, Copy, Debug)]
pub struct CameraAngle {
    azimuth: i64,
    elevation: i64,
}

impl View for CameraAngle {
    type V = AnglePair;

    closed spec fn view(&self) -> AnglePair {
        AnglePair { azimuth: self.azimuth as int, elevation: self.elevation as int }
    }
}

/// `base + sweep(component, elapsed)`, which always fits.
fn advance(base: i64, component: i32, elapsed: u64) -> (sum: i128)
    ensures
        sum == base + sweep(component as int, elapsed as int),
{
    assert(component * ORBIT_SPEED == component) by (nonlinear_arith)
        requires
            ORBIT_SPEED == 1,
    ;
    let step: i128 = component as i128 * ORBIT_SPEED as i128;
    assert(-0x8000_0000 * 0xffff_ffff_ffff_ffff <= step * elapsed <= 0x8000_0000
        * 0xffff_ffff_ffff_ffff) by (nonlinear_arith)
        requires
            -0x8000_0000 <= step <= 0x8000_0000,
            0 <= elapsed <= 0xffff_ffff_ffff_ffff,
    ;
    base as i128 + step * (elapsed as i128)
}

/// The wrapped azimuth, as a machine integer.
fn wrap(azimuth: i128) -> (wrapped: i64)
    ensures
        wrapped == wrap_azimuth(azimuth as int),
        0 <= wrapped < TWO_PI,
{
    match azimuth.checked_rem_euclid(TWO_PI as i128) {
        Some(wrapped) => wrapped as i64,
        None => 0,
    }
}

/// The clamped elevation, as a machine integer.
fn clamp(elevation: i128) -> (clamped: i64)
    ensures
        clamped == clamp_elevation(elevation as int),
        0 < clamped < FRAC_PI_2,
{
    if elevation < ELEVATION_MIN as i128 {
        ELEVATION_MIN
    } else if elevation > ELEVATION_MAX as i128 {
        ELEVATION_MAX
    } else {
        elevation as i64
    }
}

impl CameraAngle {
    #[verifier::type_invariant]
    spec fn well_formed(self) -> bool {
        in_range(self@)
    }

    /// The camera angle nearest to the given pair: the azimuth wrapped, the
    /// elevation clamped.
    pub fn new(azimuth: i64, elevation: i64) -> (angle: CameraAngle)
        ensures
            angle@.azimuth == wrap_azimuth(azimuth as int),
            angle@.elevation == clamp_elevation(elevation as int),
            in_range(angle@),
    {
        CameraAngle { azimuth: wrap(azimuth as i128), elevation: clamp(elevation as i128) }
    }

    /// Where the camera starts: azimuth zero, a sixteenth of a turn up.
    pub fn initial() -> (angle: CameraAngle)
        ensures
            angle@.azimuth == 0,
            angle@.elevation == FRAC_PI_8,
    {
        CameraAngle { azimuth: 0, elevation: FRAC_PI_8 }
    }

    /// The azimuth, in nanoradians.
    pub fn azimuth(&self) -> (azimuth: i64)
        ensures
            azimuth == self@.azimuth,
            in_range(self@),
    {
        proof {
            use_type_invariant(self);
        }
        self.azimuth
    }

    /// The elevation, in nanoradians. It lies strictly between the horizon and
    /// the pole.
    pub fn elevation(&self) -> (elevation: i64)
        ensures
            elevation == self@.elevation,
            in_range(self@),
            0 < elevation < FRAC_PI_2,
    {
        proof {
            use_type_invariant(self);
        }
        self.elevation
    }
}

/// Advances the camera by one frame of `elapsed` nanoseconds. Without an
/// orbit action the angles stay as they are and the result is `false`: the
/// camera needs no new transform. With one, the angles orbit along it and the
/// result is `true`.
pub fn move_camera(
    elapsed: u64,
    actions: &Actions,
    camera_angle: &mut CameraAngle,
) -> (moved: bool)
    ensures
        moved == actions.camera_orbit.is_some(),
        final(camera_angle)@ == match actions.camera_orbit {
            Some(intent) => orbit(old(camera_angle)@, intent, elapsed as int),
            None => old(camera_angle)@,
        },
        in_range(final(camera_angle)@),
        0 < final(camera_angle)@.elevation < FRAC_PI_2,
{
    proof {
        use_type_invariant(&*camera_angle);
    }
    match actions.camera_orbit {
        None => false,
        Some(intent) => {
            let azimuth: i64 = wrap(advance(camera_angle.azimuth, intent.x, elapsed));
            let elevation: i64 = clamp(advance(camera_angle.elevation, intent.y, elapsed));
            *camera_angle = CameraAngle { azimuth, elevation };
            true
        },
    }
}

} // verus!
