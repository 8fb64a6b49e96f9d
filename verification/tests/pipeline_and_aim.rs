use fps_core::aim::{aim_tick, AdsAlpha, PlayerWeaponTransformConfig, AIM_STEP};
use fps_core::ease::{sample, EaseFunction};
use fps_core::fp::FP_ONE;
use fps_core::pipeline::TranslationPipeline;
use fps_core::vec3::Vec3;

#[test]
fn apply_flattens_and_clears() {
    let mut pipe = TranslationPipeline::new(Vec3::new(0, 0, 0));
    pipe.queue(Vec3::new(1, 0, 0));
    pipe.queue(Vec3::new(0, 2, 0));
    let first = pipe.apply();
    assert_eq!(first, Vec3::new(1, 2, 0));
    let second = pipe.apply();
    assert_eq!(second, Vec3::new(0, 0, 0));
}

#[test]
fn apply_is_a_flat_sum_in_any_order() {
    let base = Vec3::new(5, -7, 9);
    let offsets = [Vec3::new(10, 20, 30), Vec3::new(-4, 6, -8), Vec3::new(100, 0, -1)];
    let mut forward = TranslationPipeline::new(base);
    for o in offsets.iter() {
        forward.queue(*o);
    }
    let mut backward = TranslationPipeline::new(base);
    for o in offsets.iter().rev() {
        backward.queue(*o);
    }
    let a = forward.apply();
    let b = backward.apply();
    assert_eq!(a, b);
    assert_eq!(a, Vec3::new(5 + 10 - 4 + 100, -7 + 20 + 6, 9 + 30 - 8 - 1));
}

#[test]
fn latest_reads_without_clearing() {
    let mut pipe = TranslationPipeline::new(Vec3::new(1, 1, 1));
    pipe.queue(Vec3::new(2, 0, 0));
    assert_eq!(pipe.latest(), Vec3::new(3, 1, 1));
    assert_eq!(pipe.latest(), Vec3::new(3, 1, 1));
    assert_eq!(pipe.apply(), Vec3::new(3, 1, 1));
    assert_eq!(pipe.apply(), Vec3::new(1, 1, 1));
}

#[test]
fn aim_alpha_steps_and_clamps() {
    let hip = Vec3::new(100, -100, -500);
    let sight = Vec3::new(0, -70, -300);
    let config = PlayerWeaponTransformConfig::new(hip, sight);
    let mut pipe = TranslationPipeline::new(hip);
    let mut ads = AdsAlpha(0);

    aim_tick(&mut pipe, &config, &mut ads, true);
    assert_eq!(ads.0, AIM_STEP);

    aim_tick(&mut pipe, &config, &mut ads, false);
    assert_eq!(ads.0, 0);

    // released at zero: stays clamped at zero
    aim_tick(&mut pipe, &config, &mut ads, false);
    assert_eq!(ads.0, 0);
}

#[test]
fn aim_converges_within_a_full_blend() {
    let config = PlayerWeaponTransformConfig::new(Vec3::new(100, -100, -500), Vec3::new(0, -70, -300));
    let mut pipe = TranslationPipeline::new(Vec3::new(100, -100, -500));
    let mut ads = AdsAlpha(0);
    let ticks: usize = (FP_ONE / AIM_STEP) as usize;
    for _ in 0..ticks {
        aim_tick(&mut pipe, &config, &mut ads, true);
        assert!(0 <= ads.0 && ads.0 <= FP_ONE);
    }
    assert_eq!(ads.0, FP_ONE);
    for _ in 0..ticks {
        aim_tick(&mut pipe, &config, &mut ads, false);
        assert!(0 <= ads.0 && ads.0 <= FP_ONE);
    }
    assert_eq!(ads.0, 0);
}

#[test]
fn first_aim_tick_queues_the_eased_share() {
    let hip = Vec3::new(100, -100, -500);
    let sight = Vec3::new(0, -70, -300);
    let config = PlayerWeaponTransformConfig::new(hip, sight);
    let mut pipe = TranslationPipeline::new(hip);
    let mut ads = AdsAlpha(0);

    aim_tick(&mut pipe, &config, &mut ads, true);
    // quartic-out at alpha 50: 1000 - 950^4 / 1000^3 = 186
    // hip-to-sight difference (-100, 30, 200), scaled by 0.186 and
    // truncated toward zero
    let out = pipe.apply();
    assert_eq!(out, Vec3::new(100 - 18, -100 + 5, -500 + 37));
}

#[test]
fn ease_samples_hit_exact_values() {
    assert_eq!(sample(EaseFunction::SmoothStep, 0), 0);
    assert_eq!(sample(EaseFunction::SmoothStep, 500), 500);
    assert_eq!(sample(EaseFunction::SmoothStep, 1000), 1000);
    assert_eq!(sample(EaseFunction::SmoothStep, 750), 843);
    assert_eq!(sample(EaseFunction::QuarticOut, 0), 0);
    assert_eq!(sample(EaseFunction::QuarticOut, 1000), 1000);
    assert_eq!(sample(EaseFunction::QuarticOut, 50), 186);
    assert_eq!(sample(EaseFunction::QuinticInOut, 0), 0);
    assert_eq!(sample(EaseFunction::QuinticInOut, 250), 15);
    assert_eq!(sample(EaseFunction::QuinticInOut, 500), 500);
    assert_eq!(sample(EaseFunction::QuinticInOut, 1000), 1000);
}
