//! The pose estimator: open-loop integration of the arbitrated command into a
//! planar pose.
use crate::fixed::{
    div_round_toward_zero, div_toward_zero, elapsed, elapsed_spec, saturate, saturate_spec,
    MIN_STEP_NS,
};
use crate::messages::{Odometry, VelocityCommand, VelocityCommandView};
use vstd::arithmetic::div_mod::{
    lemma_fundamental_div_mod, lemma_fundamental_div_mod_converse, lemma_mod_bound,
    lemma_small_mod,
};
use vstd::prelude::*;

verus! {

/// How often the estimator ticks unless configured otherwise.
pub const TICK_HZ: u64 = 50;

/// Half a turn in microradians, to the nearest one.
pub const HALF_TURN_URAD: i64 = 3_141_593;

/// A full turn in microradians: exactly twice the half turn.
pub const FULL_TURN_URAD: i64 = 6_283_186;

/// Velocity in millionths per second, times a ratio in millionths, times
/// nanoseconds, gives this many counts per millionth of a unit.
pub const TRAVEL_SCALE: i128 = 1_000_000_000_000_000;

/// The angle that `k` full turns make up.
pub open spec fn whole_turns(k: int) -> int {
    k * FULL_TURN_URAD
}

/// The angle in `(-half turn, half turn]` that differs from `theta` by whole turns.
pub open spec fn normalize_angle_spec(theta: int) -> int {
    (theta + HALF_TURN_URAD - 1) % (FULL_TURN_URAD as int) - HALF_TURN_URAD + 1
}

/// Angle normalization law: the result lies in `(-half turn, half turn]`, differs
/// from the input by a whole number of turns, and is the input itself when that
/// already lies in the range.
pub proof fn lemma_normalize_angle(theta: int)
    ensures
        -HALF_TURN_URAD < normalize_angle_spec(theta) <= HALF_TURN_URAD,
        exists|k: int| theta - normalize_angle_spec(theta) == #[trigger] whole_turns(k),
        -HALF_TURN_URAD < theta <= HALF_TURN_URAD ==> normalize_angle_spec(theta) == theta,
{
    let shifted = theta + HALF_TURN_URAD - 1;
    let full = FULL_TURN_URAD as int;
    lemma_fundamental_div_mod(shifted, full);
    lemma_mod_bound(shifted, full);
    let k = shifted / full;
    assert(theta - normalize_angle_spec(theta) == k * FULL_TURN_URAD) by (nonlinear_arith)
        requires
            shifted == full * k + shifted % full,
            normalize_angle_spec(theta) == shifted % full - HALF_TURN_URAD + 1,
            shifted == theta + HALF_TURN_URAD - 1,
            full == FULL_TURN_URAD,
    ;
    assert(theta - normalize_angle_spec(theta) == whole_turns(k));
    if -HALF_TURN_URAD < theta <= HALF_TURN_URAD {
        lemma_small_mod(shifted as nat, full as nat);
    }
}

/// Only one angle in `(-half turn, half turn]` differs from `theta` by whole turns.
pub proof fn lemma_normalize_angle_unique(theta: int, other: int, k: int)
    requires
        -HALF_TURN_URAD < other <= HALF_TURN_URAD,
        theta - other == whole_turns(k),
    ensures
        other == normalize_angle_spec(theta),
{
    let shifted = theta + HALF_TURN_URAD - 1;
    let full = FULL_TURN_URAD as int;
    let r = other + HALF_TURN_URAD - 1;
    assert(shifted == k * full + r);
    lemma_fundamental_div_mod_converse(shifted, full, k, r);
}

/// Wraps an angle into `(-half turn, half turn]`.
pub fn normalize_angle(theta_urad: i128) -> (wrapped: i64)
    ensures
        wrapped as int == normalize_angle_spec(theta_urad as int),
        -HALF_TURN_URAD < wrapped <= HALF_TURN_URAD,
{
    let full: u128 = FULL_TURN_URAD as u128;
    let offset: i128 = (HALF_TURN_URAD - 1) as i128;
    proof {
        lemma_normalize_angle(theta_urad as int);
    }
    let remainder: u128 = if theta_urad >= 0 {
        let shifted: u128 = theta_urad as u128 + offset as u128;
        shifted % full
    } else if theta_urad + offset >= 0 {
        let shifted: u128 = (theta_urad + offset) as u128;
        shifted % full
    } else {
        let below: u128 = (-(theta_urad + offset)) as u128;
        let back: u128 = below % full;
        proof {
            let q = (below / full) as int;
            lemma_fundamental_div_mod(below as int, full as int);
            if back == 0 {
                assert(theta_urad + offset == (-q) * full + 0) by (nonlinear_arith)
                    requires
                        below == full * q + back,
                        back == 0,
                        below == -(theta_urad + offset),
                ;
                lemma_fundamental_div_mod_converse(
                    theta_urad + offset,
                    full as int,
                    -q,
                    0,
                );
            } else {
                assert(theta_urad + offset == (-q - 1) * full + (full - back)) by (nonlinear_arith)
                    requires
                        below == full * q + back,
                        below == -(theta_urad + offset),
                ;
                lemma_fundamental_div_mod_converse(
                    theta_urad + offset,
                    full as int,
                    -q - 1,
                    full - back,
                );
            }
        }
        if back == 0 {
            0
        } else {
            full - back
        }
    };
    (remainder as i128 - offset) as i64
}

/// A planar pose: position in micrometres, heading in microradians.
#[derive(Debug, Clone, Copy, PartialEq, Eq, Structural)]
pub struct Pose {
    pub x_um: i64,
    pub y_um: i64,
    pub theta_urad: i64,
}

/// The cosine and sine of a heading, in millionths.
#[derive(Debug, Clone, Copy, PartialEq, Eq, Structural)]
pub struct Heading {
    pub cos_ppm: i32,
    pub sin_ppm: i32,
}

/// A coordinate after moving for `dt_ns` at `rate`, where `rate` is a velocity in
/// millionths per second times a ratio in millionths: the displacement is
/// rounded toward zero and the sum held to the `i64` range.
pub open spec fn advance_spec(position: int, rate: int, dt_ns: u64) -> int {
    saturate_spec(position + div_toward_zero(rate * dt_ns, TRAVEL_SCALE as int))
}

/// The heading after turning for `dt_ns` at `omega_urad_s`, wrapped.
pub open spec fn turn_spec(theta_urad: int, omega_urad_s: int, dt_ns: u64) -> int {
    normalize_angle_spec(theta_urad + div_toward_zero(omega_urad_s * dt_ns, 1_000_000_000))
}

/// The world-frame rate along x, in millionths squared per second.
pub open spec fn rate_x_spec(heading: Heading, vx_um_s: int, vy_um_s: int) -> int {
    vx_um_s * heading.cos_ppm - vy_um_s * heading.sin_ppm
}

/// The world-frame rate along y, in millionths squared per second.
pub open spec fn rate_y_spec(heading: Heading, vx_um_s: int, vy_um_s: int) -> int {
    vx_um_s * heading.sin_ppm + vy_um_s * heading.cos_ppm
}

/// The pose after moving for `dt_ns` with the given body-frame velocity, where
/// `heading` holds the cosine and sine of the heading before the step.
pub open spec fn integrate_spec(
    pose: Pose,
    heading: Heading,
    cmd: VelocityCommandView,
    dt_ns: u64,
) -> Pose {
    Pose {
        x_um: advance_spec(
            pose.x_um as int,
            rate_x_spec(heading, cmd.vx_um_s, cmd.vy_um_s),
            dt_ns,
        ) as i64,
        y_um: advance_spec(
            pose.y_um as int,
            rate_y_spec(heading, cmd.vx_um_s, cmd.vy_um_s),
            dt_ns,
        ) as i64,
        theta_urad: turn_spec(pose.theta_urad as int, cmd.omega_urad_s, dt_ns) as i64,
    }
}

/// Moves one coordinate; see [`advance_spec`].
fn advance(position: i64, rate: i128, dt_ns: u64) -> (moved: i64)
    requires
        -0x1_0000_0000_0000_0000_0000_0000 <= rate <= 0x1_0000_0000_0000_0000_0000_0000,
    ensures
        moved as int == advance_spec(position as int, rate as int, dt_ns),
{
    match rate.checked_mul(dt_ns as i128) {
        Some(product) => {
            let travelled = div_round_toward_zero(product, TRAVEL_SCALE);
            assert(-0x8000_0000_0000_0000_0000_0000_0000 < travelled
                < 0x8000_0000_0000_0000_0000_0000_0000) by (nonlinear_arith)
                requires
                    travelled == div_toward_zero(product as int, 1_000_000_000_000_000),
                    -0x8000_0000_0000_0000_0000_0000_0000_0000 <= product
                        <= 0x7fff_ffff_ffff_ffff_ffff_ffff_ffff_ffff,
            ;
            saturate(position as i128 + travelled)
        },
        None => {
            let ghost product = rate as int * dt_ns as int;
            if rate > 0 {
                assert(position + div_toward_zero(product, 1_000_000_000_000_000) > i64::MAX)
                    by (nonlinear_arith)
                    requires
                        product > 0x7fff_ffff_ffff_ffff_ffff_ffff_ffff_ffff,
                        position >= -0x8000_0000_0000_0000,
                ;
                i64::MAX
            } else {
                assert(product < i128::MIN) by (nonlinear_arith)
                    requires
                        product == rate as int * dt_ns as int,
                        rate <= 0,
                        dt_ns >= 0,
                        product > i128::MAX || product < i128::MIN,
                ;
                assert(position + div_toward_zero(product, 1_000_000_000_000_000) < i64::MIN)
                    by (nonlinear_arith)
                    requires
                        product < -0x8000_0000_0000_0000_0000_0000_0000_0000,
                        position <= 0x7fff_ffff_ffff_ffff,
                ;
                i64::MIN
            }
        },
    }
}

/// A product is bounded by the product of its factors' bounds.
proof fn lemma_rate_bound(v: int, ratio: int)
    requires
        -0x8000_0000_0000_0000 <= v <= 0x8000_0000_0000_0000,
        -0x8000_0000 <= ratio <= 0x8000_0000,
    ensures
        -0x4000_0000_0000_0000_0000_0000 <= v * ratio <= 0x4000_0000_0000_0000_0000_0000,
{
    assert(-0x4000_0000_0000_0000_0000_0000 <= v * ratio <= 0x4000_0000_0000_0000_0000_0000)
        by (nonlinear_arith)
        requires
            -0x8000_0000_0000_0000 <= v <= 0x8000_0000_0000_0000,
            -0x8000_0000 <= ratio <= 0x8000_0000,
    ;
}

/// One integration step: the position moves along the heading held before the
/// step, then the heading turns and is wrapped.
pub fn integrate(pose: Pose, heading: Heading, cmd: &VelocityCommand, dt_ns: u64) -> (next: Pose)
    ensures
        next == integrate_spec(pose, heading, cmd@, dt_ns),
        -HALF_TURN_URAD < next.theta_urad <= HALF_TURN_URAD,
{
    let vx: i128 = cmd.vx_um_s as i128;
    let vy: i128 = cmd.vy_um_s as i128;
    let cos: i128 = heading.cos_ppm as i128;
    let sin: i128 = heading.sin_ppm as i128;
    proof {
        lemma_rate_bound(vx as int, cos as int);
        lemma_rate_bound(vy as int, sin as int);
        lemma_rate_bound(vx as int, sin as int);
        lemma_rate_bound(vy as int, cos as int);
    }
    let rate_x: i128 = vx * cos - vy * sin;
    let rate_y: i128 = vx * sin + vy * cos;
    assert(-0x8000_0000_0000_0000_0000_0000_0000_0000 < (cmd.omega_urad_s as int) * (dt_ns as int)
        < 0x7fff_ffff_ffff_ffff_ffff_ffff_ffff_ffff) by (nonlinear_arith)
        requires
            -0x8000_0000_0000_0000 <= cmd.omega_urad_s as int <= 0x7fff_ffff_ffff_ffff,
            0 <= dt_ns as int <= 0xffff_ffff_ffff_ffff,
    ;
    let swept: i128 = cmd.omega_urad_s as i128 * (dt_ns as i128);
    let turned: i128 = div_round_toward_zero(swept, 1_000_000_000);
    assert(-0x8000_0000_0000_0000_0000_0000_0000 < turned < 0x8000_0000_0000_0000_0000_0000_0000)
        by (nonlinear_arith)
        requires
            turned == div_toward_zero(swept as int, 1_000_000_000),
            -0x8000_0000_0000_0000_0000_0000_0000_0000 < swept
                <= 0x7fff_ffff_ffff_ffff_ffff_ffff_ffff_ffff,
    ;
    Pose {
        x_um: advance(pose.x_um, rate_x, dt_ns),
        y_um: advance(pose.y_um, rate_y, dt_ns),
        theta_urad: normalize_angle(pose.theta_urad as i128 + turned),
    }
}

/// Rest law: the zero command moves nothing; a pose whose heading is already
/// wrapped comes out of the step as it went in, whatever the heading's cosine
/// and sine and however long the step.
pub proof fn lemma_rest_keeps_pose(pose: Pose, heading: Heading, cmd: VelocityCommandView, dt_ns: u64)
    requires
        cmd.is_stopped(),
        -HALF_TURN_URAD < pose.theta_urad <= HALF_TURN_URAD,
    ensures
        integrate_spec(pose, heading, cmd, dt_ns) == pose,
{
    lemma_normalize_angle(pose.theta_urad as int);
    assert(rate_x_spec(heading, 0, 0) * dt_ns == 0) by (nonlinear_arith)
        requires
            rate_x_spec(heading, 0, 0) == 0 * heading.cos_ppm - 0 * heading.sin_ppm,
    ;
    assert(rate_y_spec(heading, 0, 0) * dt_ns == 0) by (nonlinear_arith)
        requires
            rate_y_spec(heading, 0, 0) == 0 * heading.sin_ppm + 0 * heading.cos_ppm,
    ;
    assert(cmd.omega_urad_s * dt_ns == 0) by (nonlinear_arith)
        requires
            cmd.omega_urad_s == 0,
    ;
}

/// The rolling state of the pose estimator.
#[derive(Debug)]
pub struct PoseEstimator {
    /// The arbitrated command received last.
    pub last_cmd: VelocityCommand,
    /// The pose accumulated so far.
    pub pose: Pose,
    /// When the previous tick ran.
    pub last_update_ns: u64,
}

impl PoseEstimator {
    /// An estimator at the origin, heading zero, holding the zero command.
    pub fn new(now_ns: u64, stamp_ns: u64) -> (estimator: PoseEstimator)
        ensures
            estimator.last_cmd@ == VelocityCommandView::zero("state_estimator"@, stamp_ns),
            estimator.pose == (Pose { x_um: 0, y_um: 0, theta_urad: 0 }),
            estimator.last_update_ns == now_ns,
    {
        PoseEstimator {
            last_cmd: VelocityCommand::zero("state_estimator", stamp_ns),
            pose: Pose { x_um: 0, y_um: 0, theta_urad: 0 },
            last_update_ns: now_ns,
        }
    }

    /// Takes in an arbitrated command; it replaces the previous one.
    pub fn on_command(&mut self, cmd: VelocityCommand)
        ensures
            final(self).last_cmd@ == cmd@,
            final(self).pose == old(self).pose,
            final(self).last_update_ns == old(self).last_update_ns,
    {
        self.last_cmd = cmd;
    }

    /// The interval a tick at `now_ns` integrates over: the time since the
    /// previous tick, but never less than the minimum step.
    pub open spec fn step_ns(&self, now_ns: u64) -> u64 {
        if elapsed_spec(now_ns, self.last_update_ns) < MIN_STEP_NS as nat {
            MIN_STEP_NS
        } else {
            elapsed_spec(now_ns, self.last_update_ns) as u64
        }
    }

    /// One tick: integrates the command held over the time since the previous
    /// tick and reports the new pose with the velocity that produced it.
    /// `heading` holds the cosine and sine of the heading before the tick.
    pub fn tick(&mut self, heading: Heading, frame_id: &str, now_ns: u64, stamp_ns: u64) -> (odom:
        Odometry)
        ensures
            final(self).last_cmd@ == old(self).last_cmd@,
            final(self).last_update_ns == now_ns,
            final(self).pose == integrate_spec(
                old(self).pose,
                heading,
                old(self).last_cmd@,
                old(self).step_ns(now_ns),
            ),
            odom.timestamp_ns == stamp_ns,
            odom.x_um == final(self).pose.x_um,
            odom.y_um == final(self).pose.y_um,
            odom.theta_urad == final(self).pose.theta_urad,
            odom.vx_um_s == old(self).last_cmd.vx_um_s,
            odom.vy_um_s == old(self).last_cmd.vy_um_s,
            odom.omega_urad_s == old(self).last_cmd.omega_urad_s,
            odom.frame_id@ == frame_id@,
    {
        let since_update = elapsed(now_ns, self.last_update_ns);
        let dt_ns = if since_update < MIN_STEP_NS {
            MIN_STEP_NS
        } else {
            since_update
        };
        self.last_update_ns = now_ns;
        self.pose = integrate(self.pose, heading, &self.last_cmd, dt_ns);
        Odometry {
            timestamp_ns: stamp_ns,
            x_um: self.pose.x_um,
            y_um: self.pose.y_um,
            theta_urad: self.pose.theta_urad,
            vx_um_s: self.last_cmd.vx_um_s,
            vy_um_s: self.last_cmd.vy_um_s,
            omega_urad_s: self.last_cmd.omega_urad_s,
            frame_id: frame_id.to_owned(),
        }
    }
}

} // verus!
