use liquid_glass::animator::{AnimationState, Spring};
use liquid_glass::fixed::Vec3;

#[test]
fn default_spring_preset() {
    let s = Spring::default();
    assert_eq!(s.stiffness, 150_000_000);
    assert_eq!(s.damping, 12_000_000);
    assert_eq!(s.mass, 1_000_000);
}

#[test]
fn snappy_spring_preset() {
    let s = Spring::snappy();
    assert_eq!(s.stiffness, 300_000_000);
    assert_eq!(s.damping, 20_000_000);
    assert_eq!(s.mass, 800_000);
}

#[test]
fn new_animation_is_settled_at_initial() {
    let v = Vec3::new(3_000_000, -2_000_000, 0);
    let a = AnimationState::new(v, 42);
    assert_eq!(a.current, v);
    assert_eq!(a.target, v);
    assert_eq!(a.velocity, Vec3::new(0, 0, 0));
    assert!(a.is_settled);
    assert_eq!(a.last_update, 42);
}

#[test]
fn set_target_equal_is_noop() {
    let v = Vec3::new(1_000_000, 0, 0);
    let mut a = AnimationState::new(v, 0);
    let before = a.clone();
    a.set_target(v);
    assert_eq!(a, before);
    assert!(a.is_settled);
}

#[test]
fn set_target_different_reopens() {
    let mut a = AnimationState::new(Vec3::new(0, 0, 0), 0);
    a.set_target(Vec3::new(5_000_000, 0, 0));
    assert!(!a.is_settled);
    assert_eq!(a.target, Vec3::new(5_000_000, 0, 0));
    assert_eq!(a.current, Vec3::new(0, 0, 0));
    assert_eq!(a.velocity, Vec3::new(0, 0, 0));
}

#[test]
fn step_on_settled_is_total_noop() {
    let mut a = AnimationState::new(Vec3::new(7_000_000, 0, 0), 100);
    let before = a.clone();
    a.step(1_000_000);
    assert_eq!(a, before);
    assert_eq!(a.last_update, 100);
}

#[test]
fn spring_converges_to_exact_target() {
    // Default config, 0 -> 100.0, stepped every 16 ms: the regression bound
    // for this scenario is on the order of 120-150 steps.
    let mut a = AnimationState::new(Vec3::new(0, 0, 0), 0);
    a.set_target(Vec3::new(100_000_000, 0, 0));
    let mut now: u64 = 0;
    let mut steps: u32 = 0;
    while !a.is_settled && steps < 400 {
        now += 16_000;
        a.step(now);
        steps += 1;
    }
    assert!(a.is_settled, "spring did not settle within 400 steps");
    assert!(steps <= 150, "settled too slowly: {steps} steps");
    assert!(steps >= 50, "settled implausibly fast: {steps} steps");
    assert_eq!(a.current, Vec3::new(100_000_000, 0, 0));
    assert_eq!(a.velocity, Vec3::new(0, 0, 0));
}

#[test]
fn snappy_spring_converges_faster() {
    let mut a = AnimationState::new(Vec3::new(0, 0, 0), 0);
    a.spring_config = Spring::snappy();
    a.set_target(Vec3::new(100_000_000, 0, 0));
    let mut b = AnimationState::new(Vec3::new(0, 0, 0), 0);
    b.set_target(Vec3::new(100_000_000, 0, 0));

    let mut now: u64 = 0;
    let mut steps_a: u32 = 0;
    while !a.is_settled && steps_a < 400 {
        now += 16_000;
        a.step(now);
        steps_a += 1;
    }
    let mut now_b: u64 = 0;
    let mut steps_b: u32 = 0;
    while !b.is_settled && steps_b < 400 {
        now_b += 16_000;
        b.step(now_b);
        steps_b += 1;
    }
    assert!(a.is_settled && b.is_settled);
    assert!(steps_a < steps_b, "snappy ({steps_a}) not faster than default ({steps_b})");
    assert_eq!(a.current, Vec3::new(100_000_000, 0, 0));
}

#[test]
fn all_three_axes_converge() {
    let mut a = AnimationState::new(Vec3::new(0, 0, 0), 0);
    a.set_target(Vec3::new(1_000_000, -2_000_000, 500_000));
    let mut now: u64 = 0;
    let mut steps: u32 = 0;
    while !a.is_settled && steps < 1000 {
        now += 16_000;
        a.step(now);
        steps += 1;
    }
    assert!(a.is_settled);
    assert_eq!(a.current, Vec3::new(1_000_000, -2_000_000, 500_000));
    assert_eq!(a.velocity, Vec3::new(0, 0, 0));
}

#[test]
fn large_gap_clamps_to_max_timestep() {
    // A 10-second stall behaves exactly like a 0.1-second slice.
    let mut a = AnimationState::new(Vec3::new(0, 0, 0), 0);
    a.set_target(Vec3::new(100_000_000, 0, 0));
    let mut b = a.clone();

    a.step(100_000);
    b.step(10_000_000);
    assert_eq!(a.current, b.current);
    assert_eq!(a.velocity, b.velocity);
    assert_eq!(a.is_settled, b.is_settled);
    assert_eq!(a.last_update, 100_000);
    assert_eq!(b.last_update, 10_000_000);
}

#[test]
fn backwards_time_moves_nothing() {
    let mut a = AnimationState::new(Vec3::new(0, 0, 0), 1_000_000);
    a.set_target(Vec3::new(50_000_000, 0, 0));
    a.step(500_000);
    assert_eq!(a.current, Vec3::new(0, 0, 0));
    assert_eq!(a.velocity, Vec3::new(0, 0, 0));
    assert!(!a.is_settled);
    assert_eq!(a.last_update, 500_000);
}

#[test]
fn settled_state_is_exact() {
    // Once settled, current equals target exactly and velocity is exactly
    // zero -- the snap, not an asymptotic approach.
    let mut a = AnimationState::new(Vec3::new(2_500_000, 0, 0), 0);
    a.set_target(Vec3::new(-1_250_000, 3_000_000, 0));
    let mut now: u64 = 0;
    for _ in 0..1000 {
        if a.is_settled {
            break;
        }
        now += 16_000;
        a.step(now);
    }
    assert!(a.is_settled);
    assert_eq!(a.current, a.target);
    assert_eq!(a.velocity, Vec3::new(0, 0, 0));
}

#[test]
fn settle_threshold_on_velocity_is_exclusive() {
    // Velocity norm must be strictly below 0.01: a squared norm of
    // 9999^2 settles, 10000^2 does not (with zero displacement and dt 0).
    let base = AnimationState::new(Vec3::new(0, 0, 0), 0);

    let mut just_below = base.clone();
    just_below.velocity = Vec3::new(9_999, 0, 0);
    just_below.is_settled = false;
    just_below.step(0);
    assert!(just_below.is_settled);
    assert_eq!(just_below.velocity, Vec3::new(0, 0, 0));

    let mut at_threshold = base.clone();
    at_threshold.velocity = Vec3::new(10_000, 0, 0);
    at_threshold.is_settled = false;
    at_threshold.step(0);
    assert!(!at_threshold.is_settled);
}

#[test]
fn settle_threshold_on_distance_is_exclusive() {
    // Distance to target must be strictly below 0.001: 999 fixed-point
    // units away snaps onto the target, 1000 units does not.
    let mut just_below = AnimationState::new(Vec3::new(0, 0, 0), 0);
    just_below.current = Vec3::new(999, 0, 0);
    just_below.is_settled = false;
    just_below.step(0);
    assert!(just_below.is_settled);
    assert_eq!(just_below.current, Vec3::new(0, 0, 0));

    let mut at_threshold = AnimationState::new(Vec3::new(0, 0, 0), 0);
    at_threshold.current = Vec3::new(1_000, 0, 0);
    at_threshold.is_settled = false;
    at_threshold.step(0);
    assert!(!at_threshold.is_settled);
    assert_eq!(at_threshold.current, Vec3::new(1_000, 0, 0));
}

#[test]
fn retarget_mid_flight_redirects() {
    // "Cancelling" an animation is just a new set_target before settlement.
    let mut a = AnimationState::new(Vec3::new(0, 0, 0), 0);
    a.set_target(Vec3::new(100_000_000, 0, 0));
    let mut now: u64 = 0;
    for _ in 0..10 {
        now += 16_000;
        a.step(now);
    }
    assert!(!a.is_settled);
    a.set_target(Vec3::new(-50_000_000, 0, 0));
    assert!(!a.is_settled);
    let mut steps: u32 = 0;
    while !a.is_settled && steps < 1000 {
        now += 16_000;
        a.step(now);
        steps += 1;
    }
    assert!(a.is_settled);
    assert_eq!(a.current, Vec3::new(-50_000_000, 0, 0));
}
