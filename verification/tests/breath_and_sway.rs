use fps_core::breath::{Breath, BreathDirection};
use fps_core::fp::FP_ONE;
use fps_core::pipeline::TranslationPipeline;
use fps_core::sway::{sway_tick, WeaponSway};
use fps_core::vec3::Vec3;

fn resting_breath() -> Breath {
    Breath { speed: 750, alpha: 0, amount: 0, depth: 1000, direction: BreathDirection::Out }
}

#[test]
fn breath_advances_by_rate_times_delta() {
    let mut b = resting_breath();
    // speed 0.75, depth 1.0, one full second: alpha climbs by 0.75
    b.breath(FP_ONE);
    assert_eq!(b.alpha, 750);
    assert_eq!(b.direction, BreathDirection::Out);
    // eased amount at alpha 0.75 and depth 1.0
    assert_eq!(b.amount, 843);
}

#[test]
fn breath_resets_and_flips_exactly_once_at_the_bound() {
    let mut b = resting_breath();
    b.breath(FP_ONE);
    assert_eq!(b.alpha, 750);
    // the next second would reach 1.5: the cycle ends, alpha resets and
    // the direction flips exactly once
    b.breath(FP_ONE);
    assert_eq!(b.alpha, 0);
    assert_eq!(b.direction, BreathDirection::In);
    b.breath(FP_ONE);
    assert_eq!(b.alpha, 750);
    assert_eq!(b.direction, BreathDirection::In);
    b.breath(FP_ONE);
    assert_eq!(b.alpha, 0);
    assert_eq!(b.direction, BreathDirection::Out);
}

#[test]
fn breath_alpha_stays_in_range_for_many_ticks() {
    let mut b = Breath { speed: 9300, alpha: 0, amount: 0, depth: 700, direction: BreathDirection::In };
    for _ in 0..1000 {
        b.breath(17);
        assert!(0 <= b.alpha && b.alpha < FP_ONE);
    }
}

#[test]
fn breath_clamps_speed_and_depth() {
    let mut b = Breath { speed: 999999, alpha: 0, amount: 0, depth: -50, direction: BreathDirection::In };
    b.breath(0);
    assert_eq!(b.speed, 10000);
    assert_eq!(b.depth, 0);
}

#[test]
fn breath_alter_nudges_speed_and_depth() {
    let mut b = resting_breath();
    b.alter(true, false, true, false);
    assert_eq!(b.depth, 1100);
    assert_eq!(b.speed, 850);
    b.alter(false, true, false, true);
    assert_eq!(b.depth, 1000);
    assert_eq!(b.speed, 750);
    b.alter(true, true, false, false);
    assert_eq!(b.depth, 1000);
}

#[test]
fn sway_base_snaps_to_target_on_a_cycle_boundary() {
    let breath = Breath { speed: 750, alpha: 0, amount: 0, depth: 1000, direction: BreathDirection::In };
    let mut sway = WeaponSway {
        max_sway: 1000,
        base: Vec3::new(1, 2, 3),
        next: Vec3::new(-4, -5, -6),
    };
    let mut pipe = TranslationPipeline::new(Vec3::new(0, 0, 0));
    // alpha is zero: a cycle boundary, so the base takes the old target
    sway_tick(&breath, &mut sway, &mut pipe);
    assert_eq!(sway.base, Vec3::new(-4, -5, -6));
}

#[test]
fn sway_keeps_target_mid_cycle() {
    let breath = Breath { speed: 750, alpha: 400, amount: 0, depth: 1000, direction: BreathDirection::In };
    let mut sway = WeaponSway {
        max_sway: 1000,
        base: Vec3::new(1, 2, 3),
        next: Vec3::new(-4, -5, -6),
    };
    let mut pipe = TranslationPipeline::new(Vec3::new(0, 0, 0));
    sway_tick(&breath, &mut sway, &mut pipe);
    assert_eq!(sway.base, Vec3::new(1, 2, 3));
    assert_eq!(sway.next, Vec3::new(-4, -5, -6));
}

#[test]
fn sway_draw_lands_in_the_inhale_box() {
    let breath = Breath { speed: 750, alpha: 0, amount: 0, depth: 1000, direction: BreathDirection::In };
    for _ in 0..50 {
        let mut sway = WeaponSway::new(1000);
        sway.change(&breath);
        // effective sway 1.0: half sideways, inhale side only vertically
        assert!(-500 <= sway.next.x && sway.next.x <= 500);
        assert!(-1000 <= sway.next.y && sway.next.y <= 0);
        assert!(-1000 <= sway.next.z && sway.next.z <= 1000);
    }
}

#[test]
fn sway_draw_lands_in_the_exhale_box() {
    let breath = Breath { speed: 750, alpha: 0, amount: 0, depth: 1000, direction: BreathDirection::Out };
    for _ in 0..50 {
        let mut sway = WeaponSway::new(1000);
        sway.change(&breath);
        assert!(-500 <= sway.next.x && sway.next.x <= 500);
        assert!(0 <= sway.next.y && sway.next.y <= 1000);
        assert!(-1000 <= sway.next.z && sway.next.z <= 1000);
    }
}

#[test]
fn sway_lerp_interpolates_from_base_toward_target() {
    let sway = WeaponSway {
        max_sway: 1000,
        base: Vec3::new(100, 0, -100),
        next: Vec3::new(300, -50, 100),
    };
    let origin = Vec3::new(7, 8, 9);
    let diff = sway.diff_from(origin);
    assert_eq!(diff, Vec3::new(200, -50, 200));
    let halfway = sway.lerp_from(origin, 500);
    assert_eq!(halfway, Vec3::new(200, -25, 0));
    let done = sway.lerp_from(origin, 1000);
    assert_eq!(done, Vec3::new(300, -50, 100));
}

#[test]
fn sway_tick_queues_one_offset() {
    let breath = Breath { speed: 750, alpha: 400, amount: 0, depth: 1000, direction: BreathDirection::In };
    let mut sway = WeaponSway {
        max_sway: 1000,
        base: Vec3::new(10, 0, 0),
        next: Vec3::new(20, 0, 0),
    };
    let mut pipe = TranslationPipeline::new(Vec3::new(0, 0, 0));
    sway_tick(&breath, &mut sway, &mut pipe);
    // smooth-step of 0.4 is 0.352: base 10 plus 35.2% of the gap 10,
    // truncated
    assert_eq!(pipe.apply(), Vec3::new(13, 0, 0));
}
