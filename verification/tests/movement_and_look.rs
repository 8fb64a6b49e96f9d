use fps_core::fp::FP_ONE;
use fps_core::lean::LeanState;
use fps_core::look::{horizontal_rotation_amount, vertical_look_allowed, vertical_rotation_amount};
use fps_core::movement::{
    apply_movement_action, apply_movement_damping, clamp_length_max, grounded_from_hits,
    intent_from_keys, sprint_state, sqrt_ceil, JumpImpulse, MaxSlopeAngle, MovementAcceleration,
    MovementAction, MovementBundle, MovementDampingFactor, SprintFactor,
};
use fps_core::vec3::{Vec2, Vec3};

#[test]
fn default_bundle_matches_the_stock_configuration() {
    let b = MovementBundle::default();
    assert_eq!(b.acceleration.0, 30000);
    assert_eq!(b.sprint_factor.0, 1500);
    assert_eq!(b.damping.0, 900);
    assert_eq!(b.jump_impulse.0, 7000);
    assert_eq!(b.max_slope_angle.0, 1414);
}

#[test]
fn jump_fires_only_while_grounded() {
    let acc = MovementAcceleration(25000);
    let sprint = SprintFactor(2000);
    let jump = JumpImpulse(7000);

    let mut v = Vec3::new(40, -3, 50);
    apply_movement_action(&MovementAction::Jump, &acc, &sprint, &jump, &mut v, true, false, FP_ONE, 0, 10);
    assert_eq!(v, Vec3::new(40, 7000, 50));

    let mut v = Vec3::new(40, -3, 50);
    apply_movement_action(&MovementAction::Jump, &acc, &sprint, &jump, &mut v, false, false, FP_ONE, 0, 10);
    assert_eq!(v, Vec3::new(40, -3, 50));
}

#[test]
fn movement_accelerates_along_the_rotated_intent() {
    let acc = MovementAcceleration(25000);
    let sprint = SprintFactor(2000);
    let jump = JumpImpulse(7000);
    // facing straight ahead: cosine one, sine zero; strafe right at full
    // magnitude for a hundredth of a second
    let action = MovementAction::Move(Vec2::new(FP_ONE, 0));
    let mut v = Vec3::new(0, 0, 0);
    apply_movement_action(&action, &acc, &sprint, &jump, &mut v, true, false, FP_ONE, 0, 10);
    assert_eq!(v, Vec3::new(250, 0, 0));

    // sprinting doubles the acceleration
    let mut v = Vec3::new(0, 0, 0);
    apply_movement_action(&action, &acc, &sprint, &jump, &mut v, true, true, FP_ONE, 0, 10);
    assert_eq!(v, Vec3::new(500, 0, 0));

    // a forward intent moves along negative z
    let forward = MovementAction::Move(Vec2::new(0, FP_ONE));
    let mut v = Vec3::new(0, 0, 0);
    apply_movement_action(&forward, &acc, &sprint, &jump, &mut v, true, false, FP_ONE, 0, 10);
    assert_eq!(v, Vec3::new(0, 0, -250));
}

#[test]
fn damping_multiplies_each_horizontal_component_exactly() {
    let damping = MovementDampingFactor(900);
    let mut v = Vec3::new(1000, 333, -1001);
    apply_movement_damping(&damping, &mut v);
    assert_eq!(v.x, 900);
    assert_eq!(v.y, 333);
    assert_eq!(v.z, -900);
}

#[test]
fn grounding_needs_one_walkable_contact() {
    let limit = MaxSlopeAngle(500);
    assert!(grounded_from_hits(&vec![600, 400], Some(&limit)));
    assert!(!grounded_from_hits(&vec![600, 900], Some(&limit)));
    assert!(!grounded_from_hits(&vec![], Some(&limit)));
    assert!(grounded_from_hits(&vec![700], None));
    assert!(!grounded_from_hits(&vec![], None));
}

#[test]
fn sprint_follows_press_and_release_edges() {
    assert!(sprint_state(true, false, false));
    assert!(!sprint_state(false, true, true));
    assert!(sprint_state(false, false, true));
    assert!(!sprint_state(false, false, false));
    // a press in the same tick as a release still starts the sprint
    assert!(sprint_state(true, true, false));
}

#[test]
fn key_intents_stay_on_the_unit_disc() {
    assert_eq!(intent_from_keys(false, false, false, false), Vec2::new(0, 0));
    assert_eq!(intent_from_keys(true, false, false, false), Vec2::new(0, FP_ONE));
    assert_eq!(intent_from_keys(false, true, false, false), Vec2::new(0, -FP_ONE));
    // a diagonal is shortened onto the disc
    let diag = intent_from_keys(true, false, false, true);
    assert_eq!(diag, Vec2::new(706, 706));
    assert_eq!(intent_from_keys(false, true, true, false), Vec2::new(-706, -706));
    assert!(diag.x * diag.x + diag.y * diag.y <= FP_ONE * FP_ONE);
    // opposing keys cancel
    assert_eq!(intent_from_keys(true, true, true, true), Vec2::new(0, 0));
}

#[test]
fn length_clamp_shortens_only_long_vectors() {
    let kept = clamp_length_max(Vec2::new(300, -400), 1000);
    assert_eq!(kept, Vec2::new(300, -400));
    let shortened = clamp_length_max(Vec2::new(2000, 0), 1000);
    assert_eq!(shortened, Vec2::new(1000, 0));
    let diagonal = clamp_length_max(Vec2::new(1500, -1500), 1000);
    assert!(diagonal.x * diagonal.x + diagonal.y * diagonal.y <= 1000 * 1000);
    assert!(diagonal.x > 0 && diagonal.y < 0);
}

#[test]
fn ceil_sqrt_brackets_its_input() {
    assert_eq!(sqrt_ceil(0), 0);
    assert_eq!(sqrt_ceil(1), 1);
    assert_eq!(sqrt_ceil(2), 2);
    assert_eq!(sqrt_ceil(4), 2);
    assert_eq!(sqrt_ceil(2000000), 1415);
    assert_eq!(sqrt_ceil(4000000), 2000);
}

#[test]
fn lean_moves_toward_the_held_side_and_relaxes() {
    let mut lean = LeanState(0);
    lean.update(true, false);
    assert_eq!(lean.0, -100);
    lean.update(true, false);
    assert_eq!(lean.0, -200);
    lean.update(false, false);
    assert_eq!(lean.0, -100);
    lean.update(false, false);
    assert_eq!(lean.0, 0);
    lean.update(false, false);
    assert_eq!(lean.0, 0);
    // while leaned left, the right key cannot fire
    let mut lean = LeanState(-300);
    lean.update(false, true);
    assert_eq!(lean.0, -300);
    // at zero with both keys held, the right lean wins
    let mut lean = LeanState(0);
    lean.update(true, true);
    assert_eq!(lean.0, 100);
}

#[test]
fn lean_saturates_at_a_full_lean() {
    let mut lean = LeanState(0);
    for _ in 0..15 {
        lean.update(false, true);
        assert!(-FP_ONE <= lean.0 && lean.0 <= FP_ONE);
    }
    assert_eq!(lean.0, FP_ONE);
}

#[test]
fn lean_angle_is_eased_and_mirrored() {
    let full = LeanState(FP_ONE);
    assert_eq!(full.angle_degrees(true), 30000);
    let left = LeanState(-FP_ONE);
    assert_eq!(left.angle_degrees(true), -30000);
    let center = LeanState(0);
    assert_eq!(center.angle_degrees(true), 0);
    assert_eq!(center.angle_degrees(false), 0);
    // halfway: smooth-step of 0.5 is 0.5, thirty degrees scaled to fifteen
    let half = LeanState(500);
    assert_eq!(half.angle_degrees(true), 15000);
}

#[test]
fn vertical_look_stops_at_the_pitch_limit() {
    assert!(vertical_look_allowed(0, 500));
    assert!(vertical_look_allowed(45000, 500));
    assert!(!vertical_look_allowed(45001, 500));
    assert!(vertical_look_allowed(45001, -500));
    assert!(!vertical_look_allowed(-45001, -500));
    assert!(vertical_look_allowed(-45001, 500));
    assert!(vertical_look_allowed(45001, 0));
}

#[test]
fn look_amounts_scale_motion_speed_and_time() {
    // a full second of one unit of upward mouse motion at six degrees
    assert_eq!(vertical_rotation_amount(-1000, FP_ONE), 6000);
    assert_eq!(vertical_rotation_amount(1000, FP_ONE), -6000);
    assert_eq!(vertical_rotation_amount(1000, 0), 0);
    assert_eq!(horizontal_rotation_amount(-1000, FP_ONE), 200);
    assert_eq!(horizontal_rotation_amount(500, 100), -10);
}
