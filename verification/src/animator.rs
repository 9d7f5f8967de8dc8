//! Damped-harmonic-oscillator animation of a fixed-point 3-vector.
//!
//! An [`AnimationState`] carries a current value, a target and a velocity,
//! and integrates `force = -stiffness * (current - target) - damping *
//! velocity`, `acceleration = force / mass` with explicit Euler steps driven
//! by a caller-supplied monotonic timestamp in microseconds. When both the
//! velocity and the remaining displacement fall below fixed thresholds the
//! value snaps exactly onto the target and the animation reports itself
//! settled, so no further stepping does any work.

use vstd::prelude::*;

use crate::fixed::{
    clamp_exec, clamp_i, diff_norm2, div_t, div_trunc, lemma_div_t_bound, lemma_div_t_shrinks,
    lemma_mul_bound, norm2, Vec3, LIMIT, SCALE,
};

verus! {

/// Largest magnitude accepted for a spring parameter (one million whole
/// units): keeps every intermediate product of a step far inside `i128`.
pub const PARAM_LIMIT: i64 = 1_000_000_000_000;

/// Longest time slice a single step integrates, in microseconds (0.1 s):
/// larger wall-clock gaps are clamped to keep the integration stable.
pub const DT_MAX: i64 = 100_000;

/// Settle threshold on the velocity norm: 0.01 whole units per second.
pub const VEL_EPS: i64 = 10_000;

/// Settle threshold on the distance to the target: 0.001 whole units.
pub const DIST_EPS: i64 = 1_000;

/// Parameters of a damped harmonic oscillator, in fixed-point units.
#[derive(Debug, Clone, Copy, PartialEq)]
pub struct Spring {
    /// Restoring-force coefficient `k`; positive.
    pub stiffness: i64,
    /// Velocity-damping coefficient `b`; non-negative.
    pub damping: i64,
    /// Oscillating mass `m`; positive, since the force is divided by it.
    pub mass: i64,
}

impl Spring {
    /// The parameters are in range: `k > 0`, `b >= 0`, `m > 0`, all bounded.
    pub open spec fn wf(self) -> bool {
        &&& 0 < self.stiffness <= PARAM_LIMIT
        &&& 0 <= self.damping <= PARAM_LIMIT
        &&& 0 < self.mass <= PARAM_LIMIT
    }

    /// General-purpose preset: `k = 150`, `b = 12`, `m = 1`.
    pub fn default() -> (r: Spring)
        ensures
            r == (Spring { stiffness: 150_000_000i64, damping: 12_000_000i64, mass: 1_000_000i64 }),
            r.wf(),
    {
        Spring { stiffness: 150_000_000, damping: 12_000_000, mass: 1_000_000 }
    }

    /// Tighter spring for smaller UI elements: `k = 300`, `b = 20`, `m = 0.8`.
    pub fn snappy() -> (r: Spring)
        ensures
            r == (Spring { stiffness: 300_000_000i64, damping: 20_000_000i64, mass: 800_000i64 }),
            r.wf(),
    {
        Spring { stiffness: 300_000_000, damping: 20_000_000, mass: 800_000 }
    }
}

/// A value being animated with spring physics.
#[derive(Debug, Clone, PartialEq)]
pub struct AnimationState {
    /// Where the animated value stands now.
    pub current: Vec3,
    /// Where it is heading.
    pub target: Vec3,
    /// How fast it is moving, in units per second.
    pub velocity: Vec3,
    /// The oscillator driving it.
    pub spring_config: Spring,
    /// Timestamp of the last integration step, in microseconds.
    pub last_update: u64,
    /// Whether the value has snapped onto the target and stopped.
    pub is_settled: bool,
}

/// The time slice one step integrates: the elapsed time since the last
/// update, at least zero and clamped to [`DT_MAX`].
pub open spec fn dt_of(last: u64, now: u64) -> int {
    if now <= last {
        0
    } else if now - last > DT_MAX {
        DT_MAX as int
    } else {
        now - last
    }
}

/// Spring force on one axis: `-k * (x - t) - b * v`, evaluated on the
/// fixed-point grid with one truncating division by the scale.
pub open spec fn axis_force(x: int, t: int, v: int, c: Spring) -> int {
    -div_t(c.stiffness * (x - t) + c.damping * v, SCALE as int)
}

/// Acceleration on one axis: the force divided by the mass.
pub open spec fn axis_accel(x: int, t: int, v: int, c: Spring) -> int {
    div_t(axis_force(x, t, v, c) * SCALE, c.mass as int)
}

/// Velocity on one axis after Euler-integrating the acceleration over `dt`,
/// clamped into the representable range.
pub open spec fn axis_next_vel(x: int, t: int, v: int, c: Spring, dt: int) -> int {
    clamp_i(v + div_t(axis_accel(x, t, v, c) * dt, SCALE as int))
}

/// Position on one axis after Euler-integrating the updated velocity over
/// `dt`, clamped into the representable range.
pub open spec fn axis_next_pos(x: int, v2: int, dt: int) -> int {
    clamp_i(x + div_t(v2 * dt, SCALE as int))
}

/// Whether an integration outcome settles: both the velocity norm and the
/// distance to the target are below their thresholds (compared squared, so
/// the check is exact).
pub open spec fn settles(pos: Vec3, target: Vec3, vel: Vec3) -> bool {
    norm2(vel) < VEL_EPS * VEL_EPS && diff_norm2(pos, target) < DIST_EPS * DIST_EPS
}

/// The whole-vector velocity update of one step.
pub open spec fn next_velocity(a: AnimationState, dt: int) -> Vec3 {
    Vec3 {
        x: axis_next_vel(a.current.x as int, a.target.x as int, a.velocity.x as int, a.spring_config, dt) as i64,
        y: axis_next_vel(a.current.y as int, a.target.y as int, a.velocity.y as int, a.spring_config, dt) as i64,
        z: axis_next_vel(a.current.z as int, a.target.z as int, a.velocity.z as int, a.spring_config, dt) as i64,
    }
}

/// The whole-vector position update of one step, from the updated velocity.
pub open spec fn next_position(a: AnimationState, v2: Vec3, dt: int) -> Vec3 {
    Vec3 {
        x: axis_next_pos(a.current.x as int, v2.x as int, dt) as i64,
        y: axis_next_pos(a.current.y as int, v2.y as int, dt) as i64,
        z: axis_next_pos(a.current.z as int, v2.z as int, dt) as i64,
    }
}

/// What `step` leaves behind: a settled state is returned unchanged; an
/// unsettled one is integrated over the clamped elapsed time, and snaps
/// exactly onto the target when the settle thresholds are met.
pub open spec fn spec_step(a: AnimationState, now: u64) -> AnimationState {
    if a.is_settled {
        a
    } else {
        let dt = dt_of(a.last_update, now);
        let v2 = next_velocity(a, dt);
        let x2 = next_position(a, v2, dt);
        if settles(x2, a.target, v2) {
            AnimationState {
                current: a.target,
                target: a.target,
                velocity: Vec3::spec_zero(),
                spring_config: a.spring_config,
                last_update: now,
                is_settled: true,
            }
        } else {
            AnimationState {
                current: x2,
                target: a.target,
                velocity: v2,
                spring_config: a.spring_config,
                last_update: now,
                is_settled: false,
            }
        }
    }
}

/// What `AnimationState::new` constructs: settled at `initial_val`, default
/// spring, zero velocity, `now` as the last update time.
pub open spec fn spec_new_anim(initial_val: Vec3, now: u64) -> AnimationState {
    AnimationState {
        current: initial_val,
        target: initial_val,
        velocity: Vec3::spec_zero(),
        spring_config: Spring { stiffness: 150_000_000, damping: 12_000_000, mass: 1_000_000 },
        last_update: now,
        is_settled: true,
    }
}

/// What `set_target` leaves behind: unchanged when the target is already
/// `new_target`, else retargeted and re-opened.
pub open spec fn spec_set_target(a: AnimationState, new_target: Vec3) -> AnimationState {
    if a.target == new_target {
        a
    } else {
        AnimationState {
            current: a.current,
            target: new_target,
            velocity: a.velocity,
            spring_config: a.spring_config,
            last_update: a.last_update,
            is_settled: false,
        }
    }
}

impl AnimationState {
    /// All vectors are representable, the spring is valid, and a settled
    /// state rests exactly on its target with zero velocity.
    pub open spec fn wf(self) -> bool {
        &&& self.current.in_range()
        &&& self.target.in_range()
        &&& self.velocity.in_range()
        &&& self.spring_config.wf()
        &&& self.is_settled ==> self.current == self.target && self.velocity == Vec3::spec_zero()
    }

    /// Construct a settled animation resting at `initial_val`, with the
    /// default spring and `now` as its last update time.
    pub fn new(initial_val: Vec3, now: u64) -> (r: AnimationState)
        requires
            initial_val.in_range(),
        ensures
            r == spec_new_anim(initial_val, now),
            r.wf(),
            r.current == initial_val,
            r.target == initial_val,
            r.velocity == Vec3::spec_zero(),
            r.is_settled,
            r.last_update == now,
            r.spring_config == (Spring {
                stiffness: 150_000_000i64,
                damping: 12_000_000i64,
                mass: 1_000_000i64,
            }),
    {
        AnimationState {
            current: initial_val,
            target: initial_val,
            velocity: Vec3::zero(),
            spring_config: Spring::default(),
            last_update: now,
            is_settled: true,
        }
    }

    /// Retarget the animation. Setting the target it already has changes
    /// nothing at all; any other value overwrites the target and re-opens a
    /// settled animation, leaving every other field alone.
    pub fn set_target(&mut self, new_target: Vec3)
        requires
            old(self).wf(),
            new_target.in_range(),
        ensures
            *final(self) == spec_set_target(*old(self), new_target),
            final(self).wf(),
            old(self).target == new_target ==> *final(self) == *old(self),
            old(self).target != new_target ==> final(self).target == new_target
                && !final(self).is_settled,
    {
        if self.target != new_target {
            self.target = new_target;
            self.is_settled = false;
        }
    }

    /// Advance the physics to the timestamp `now` (microseconds). A settled
    /// animation is left completely untouched. Otherwise the elapsed time
    /// since `last_update` (clamped to [`DT_MAX`]) drives one Euler step of
    /// the damped oscillator, and the state snaps exactly onto the target
    /// with zero velocity as soon as both settle thresholds are met.
    pub fn step(&mut self, now: u64)
        requires
            old(self).wf(),
        ensures
            *final(self) == spec_step(*old(self), now),
            final(self).wf(),
            old(self).is_settled ==> *final(self) == *old(self),
    {
        if self.is_settled {
            return;
        }
        let elapsed: u64 = if now > self.last_update {
            now - self.last_update
        } else {
            0
        };
        let dt: i64 = if elapsed > DT_MAX as u64 {
            DT_MAX
        } else {
            elapsed as i64
        };
        self.last_update = now;

        let vx = axis_vel_exec(self.current.x, self.target.x, self.velocity.x, &self.spring_config, dt);
        let vy = axis_vel_exec(self.current.y, self.target.y, self.velocity.y, &self.spring_config, dt);
        let vz = axis_vel_exec(self.current.z, self.target.z, self.velocity.z, &self.spring_config, dt);
        let xx = axis_pos_exec(self.current.x, vx, dt);
        let xy = axis_pos_exec(self.current.y, vy, dt);
        let xz = axis_pos_exec(self.current.z, vz, dt);
        self.velocity = Vec3 { x: vx, y: vy, z: vz };
        self.current = Vec3 { x: xx, y: xy, z: xz };

        proof {
            lemma_mul_bound(vx as int, vx as int, LIMIT as int, LIMIT as int);
            lemma_mul_bound(vy as int, vy as int, LIMIT as int, LIMIT as int);
            lemma_mul_bound(vz as int, vz as int, LIMIT as int, LIMIT as int);
        }
        let vel_n2: i128 = (vx as i128) * (vx as i128) + (vy as i128) * (vy as i128) + (vz
            as i128) * (vz as i128);
        let dx: i128 = (xx as i128) - (self.target.x as i128);
        let dy: i128 = (xy as i128) - (self.target.y as i128);
        let dz: i128 = (xz as i128) - (self.target.z as i128);
        proof {
            lemma_mul_bound(dx as int, dx as int, 2 * LIMIT as int, 2 * LIMIT as int);
            lemma_mul_bound(dy as int, dy as int, 2 * LIMIT as int, 2 * LIMIT as int);
            lemma_mul_bound(dz as int, dz as int, 2 * LIMIT as int, 2 * LIMIT as int);
        }
        let dist_n2: i128 = dx * dx + dy * dy + dz * dz;

        proof {
            lemma_mul_bound(VEL_EPS as int, VEL_EPS as int, VEL_EPS as int, VEL_EPS as int);
            lemma_mul_bound(DIST_EPS as int, DIST_EPS as int, DIST_EPS as int, DIST_EPS as int);
        }
        if vel_n2 < (VEL_EPS as i128) * (VEL_EPS as i128) && dist_n2 < (DIST_EPS as i128) * (
        DIST_EPS as i128) {
            self.current = self.target;
            self.velocity = Vec3::zero();
            self.is_settled = true;
        }
    }
}

/// Law: a settled animation rests exactly on its target — `current` equals
/// `target` outright, not merely within a tolerance — and its velocity is
/// exactly zero.
pub proof fn lemma_settled_at_target(a: AnimationState)
    requires
        a.wf(),
        a.is_settled,
    ensures
        a.current == a.target,
        a.velocity == Vec3::spec_zero(),
{
}

/// Law (the terminating case of convergence): a step of an unsettled
/// animation that already rests on its target — zero velocity and zero
/// displacement, as after a retarget back to the current value — settles it
/// at once: there is nothing left to integrate and both settle thresholds
/// hold. Convergence from an arbitrary state is an empirical property of the
/// oscillator and is exercised by tests.
pub proof fn lemma_step_settles_at_rest(a: AnimationState, now: u64)
    requires
        a.wf(),
        !a.is_settled,
        a.current == a.target,
        a.velocity == Vec3::spec_zero(),
    ensures
        spec_step(a, now).is_settled,
        spec_step(a, now).current == a.target,
        spec_step(a, now).velocity == Vec3::spec_zero(),
        spec_step(a, now).last_update == now,
{
    let dt = dt_of(a.last_update, now);
    lemma_axis_rest(a.current.x, a.spring_config, dt);
    lemma_axis_rest(a.current.y, a.spring_config, dt);
    lemma_axis_rest(a.current.z, a.spring_config, dt);
    let v2 = next_velocity(a, dt);
    let x2 = next_position(a, v2, dt);
    assert(v2 == Vec3::spec_zero());
    assert(x2 == a.current);
    assert(settles(x2, a.target, v2));
}

/// On one axis, integrating from rest at the target moves nothing: the
/// force, the acceleration and both updates are exactly zero.
proof fn lemma_axis_rest(x: i64, c: Spring, dt: int)
    requires
        c.wf(),
        -LIMIT <= x <= LIMIT,
    ensures
        axis_next_vel(x as int, x as int, 0, c, dt) == 0,
        axis_next_pos(x as int, 0, dt) == x as int,
{
    vstd::arithmetic::div_mod::lemma_div_of0(SCALE as int);
    vstd::arithmetic::div_mod::lemma_div_of0(c.mass as int);
    let xi: int = x as int;
    let k: int = c.stiffness as int;
    let b: int = c.damping as int;
    assert(k * (xi - xi) + b * 0 == 0) by (nonlinear_arith);
    let f: int = axis_force(xi, xi, 0, c);
    assert(f == 0);
    assert(f * SCALE == 0) by (nonlinear_arith)
        requires
            f == 0,
    ;
    let acc: int = axis_accel(xi, xi, 0, c);
    assert(acc == 0);
    assert(acc * dt == 0) by (nonlinear_arith)
        requires
            acc == 0,
    ;
    assert(axis_next_vel(xi, xi, 0, c, dt) == clamp_i(0 + div_t(0, SCALE as int)));
    assert(0 * dt == 0) by (nonlinear_arith);
    assert(axis_next_pos(xi, 0, dt) == clamp_i(xi + div_t(0, SCALE as int)));
}

/// One axis of the velocity update: evaluate the spring and damping forces,
/// divide by the mass, integrate over `dt`, and clamp into range. Exactly
/// [`axis_next_vel`], computed with `i128` intermediates that are proved not
/// to overflow.
fn axis_vel_exec(x: i64, t: i64, v: i64, c: &Spring, dt: i64) -> (r: i64)
    requires
        c.wf(),
        -LIMIT <= x <= LIMIT,
        -LIMIT <= t <= LIMIT,
        -LIMIT <= v <= LIMIT,
        0 <= dt <= DT_MAX,
    ensures
        r as int == axis_next_vel(x as int, t as int, v as int, *c, dt as int),
        -LIMIT <= r <= LIMIT,
{
    let xi: i128 = x as i128;
    let ti: i128 = t as i128;
    let vi: i128 = v as i128;
    let ki: i128 = c.stiffness as i128;
    let bi: i128 = c.damping as i128;
    let mi: i128 = c.mass as i128;
    proof {
        lemma_mul_bound(ki as int, xi - ti, PARAM_LIMIT as int, 2 * LIMIT as int);
        lemma_mul_bound(bi as int, vi as int, PARAM_LIMIT as int, LIMIT as int);
    }
    // |num| <= k_max * 2 * LIMIT + b_max * LIMIT = 3 * 10^27
    let num: i128 = ki * (xi - ti) + bi * vi;
    proof {
        lemma_div_t_bound(num as int, SCALE as int, 3_000_000_000_000_000_000_000_000_000int);
    }
    // |force| <= 3 * 10^21
    let force: i128 = -div_trunc(num, SCALE as i128);
    proof {
        lemma_mul_bound(force as int, SCALE as int, 3_000_000_000_000_000_000_000int, SCALE as int);
        lemma_div_t_shrinks(force as int * SCALE as int, mi as int,
            3_000_000_000_000_000_000_000_000_000int);
    }
    // |accel| <= 3 * 10^27 (the mass is at least one grid unit)
    let accel: i128 = div_trunc(force * (SCALE as i128), mi);
    proof {
        lemma_mul_bound(accel as int, dt as int, 3_000_000_000_000_000_000_000_000_000int,
            DT_MAX as int);
        lemma_div_t_bound(accel as int * dt as int, SCALE as int,
            300_000_000_000_000_000_000_000_000_000_000int);
    }
    let dv: i128 = div_trunc(accel * (dt as i128), SCALE as i128);
    clamp_exec(vi + dv)
}

/// One axis of the position update: integrate the updated velocity over
/// `dt` and clamp into range. Exactly [`axis_next_pos`].
fn axis_pos_exec(x: i64, v2: i64, dt: i64) -> (r: i64)
    requires
        -LIMIT <= x <= LIMIT,
        -LIMIT <= v2 <= LIMIT,
        0 <= dt <= DT_MAX,
    ensures
        r as int == axis_next_pos(x as int, v2 as int, dt as int),
        -LIMIT <= r <= LIMIT,
{
    proof {
        lemma_mul_bound(v2 as int, dt as int, LIMIT as int, DT_MAX as int);
        lemma_div_t_bound(v2 as int * dt as int, SCALE as int,
            100_000_000_000_000_000_000int);
    }
    let dx: i128 = div_trunc((v2 as i128) * (dt as i128), SCALE as i128);
    clamp_exec((x as i128) + dx)
}

} // verus!
