use physics::body::{
    is_positive, is_zero, Body, BodyArena, BodyHandle, Quaternion, Shape, Vector3, HALF, INFINITY,
    NEG_ZERO, ONE, ZERO,
};
use physics::scene::{
    EIGHT, FIFTY, FIVE, FOUR, MINUS_FIFTY, MINUS_TWENTY_FIVE, THREE, THREE_TENTHS, TWENTY_FIVE, TWO,
};

#[test]
fn named_patterns_are_the_numbers_they_name() {
    assert_eq!(ZERO, 0.0f32.to_bits());
    assert_eq!(NEG_ZERO, (-0.0f32).to_bits());
    assert_eq!(HALF, 0.5f32.to_bits());
    assert_eq!(ONE, 1.0f32.to_bits());
    assert_eq!(INFINITY, f32::INFINITY.to_bits());
    assert_eq!(THREE_TENTHS, 0.3f32.to_bits());
    assert_eq!(TWO, 2.0f32.to_bits());
    assert_eq!(THREE, 3.0f32.to_bits());
    assert_eq!(FOUR, 4.0f32.to_bits());
    assert_eq!(FIVE, 5.0f32.to_bits());
    assert_eq!(EIGHT, 8.0f32.to_bits());
    assert_eq!(TWENTY_FIVE, 25.0f32.to_bits());
    assert_eq!(MINUS_TWENTY_FIVE, (-25.0f32).to_bits());
    assert_eq!(FIFTY, 50.0f32.to_bits());
    assert_eq!(MINUS_FIFTY, (-50.0f32).to_bits());
}

#[test]
fn zero_test_agrees_with_float_comparison() {
    let samples = [
        0.0f32,
        -0.0,
        1.0,
        -1.0,
        0.5,
        1.0e-45,
        -1.0e-45,
        f32::MAX,
        f32::MIN,
        f32::INFINITY,
        f32::NEG_INFINITY,
        f32::NAN,
    ];
    for v in samples {
        assert_eq!(is_zero(v.to_bits()), v == 0.0, "zero test on {v}");
        assert_eq!(is_positive(v.to_bits()), v > 0.0, "sign test on {v}");
    }
}

#[test]
fn default_body_has_unit_mass_and_rests_at_the_origin() {
    let body = Body::default();
    assert_eq!(body.position, Vector3::zero());
    assert_eq!(body.orientation, Quaternion::identity());
    assert_eq!(body.linear_velocity, Vector3::splat(ZERO));
    assert_eq!(body.angular_velocity, Vector3::splat(ZERO));
    assert_eq!(f32::from_bits(body.inv_mass), 1.0);
    assert_eq!(f32::from_bits(body.elasticity), 0.5);
    assert_eq!(f32::from_bits(body.friction), 0.5);
    assert_eq!(body.shape, Shape::UnitSphere);
    assert!(!body.has_infinite_mass());
}

#[test]
fn infinite_mass_is_inverse_mass_zero_of_either_sign() {
    let mut body = Body::default();
    body.inv_mass = ZERO;
    assert!(body.has_infinite_mass());
    body.inv_mass = NEG_ZERO;
    assert!(body.has_infinite_mass());
    body.inv_mass = 1.0e-30f32.to_bits();
    assert!(!body.has_infinite_mass());
}

#[test]
fn arena_hands_out_handles_in_order_and_keeps_bodies() {
    let mut arena = BodyArena::new();
    assert_eq!(arena.len(), 0);
    let mut first = Body::default();
    first.position = Vector3::new(ONE, TWO, THREE);
    let mut second = Body::default();
    second.inv_mass = ZERO;
    let h0 = arena.add(first);
    let h1 = arena.add_with_color(second, Vector3::splat(HALF));
    assert_eq!(h0, BodyHandle { index: 0 });
    assert_eq!(h1, BodyHandle { index: 1 });
    assert_eq!(arena.len(), 2);
    assert_eq!(*arena.get_body(h0), first);
    assert_eq!(*arena.get_body(h1), second);
    let (body, color) = arena.get_body_with_color(h1);
    assert_eq!(*body, second);
    assert_eq!(color, Vector3::splat(HALF));
    assert_eq!(arena.get_body_with_color(h0).1, Vector3::splat(ONE));
    assert_eq!(arena.handles().clone(), vec![h0, h1]);
}

#[test]
fn a_handle_names_the_same_body_after_others_change() {
    let mut arena = BodyArena::new();
    let h0 = arena.add(Body::default());
    let h1 = arena.add(Body::default());
    let mut moved = Body::default();
    moved.position = Vector3::new(FIVE, FIVE, FIVE);
    arena.set_body(h1, moved);
    assert_eq!(*arena.get_body(h0), Body::default());
    assert_eq!(*arena.get_body(h1), moved);
    let h2 = arena.add(Body::default());
    assert_eq!(h2.index, 2);
    assert_eq!(*arena.get_body(h1), moved);
}

#[test]
fn clear_empties_the_arena_and_handles_start_over() {
    let mut arena = BodyArena::new();
    arena.add(Body::default());
    arena.add(Body::default());
    arena.clear();
    assert_eq!(arena.len(), 0);
    assert!(arena.handles().is_empty());
    assert_eq!(arena.add(Body::default()).index, 0);
}
