use physics::body::{Body, BodyArena, BodyHandle, Vector3, ONE, ZERO};
use physics::config::StepConfig;
use physics::constraint::{
    Constraint, ConstraintArena, ConstraintConfig, ConstraintDistance, ConstraintPenetration,
    JacobianRow,
};
use physics::scene::PhysicsScene;

fn bits(v: f32) -> u32 {
    v.to_bits()
}

fn linkage(a: usize, b: usize) -> ConstraintConfig {
    ConstraintConfig {
        handle_a: BodyHandle { index: a },
        handle_b: BodyHandle { index: b },
        anchor_a: Vector3::new(bits(0.5), ZERO, ZERO),
        axis_a: Vector3::zero(),
        anchor_b: Vector3::new(bits(-0.5), ZERO, ZERO),
        axis_b: Vector3::zero(),
    }
}

fn some_row() -> JacobianRow {
    JacobianRow {
        linear_a: Vector3::new(bits(-2.0), ZERO, ZERO),
        angular_a: Vector3::zero(),
        linear_b: Vector3::new(bits(2.0), ZERO, ZERO),
        angular_b: Vector3::new(ZERO, bits(1.0), ZERO),
    }
}

#[test]
fn the_default_step_has_gravity_ten_and_five_sweeps() {
    let config = StepConfig::default();
    assert_eq!(f32::from_bits(config.gravity.x), 0.0);
    assert_eq!(f32::from_bits(config.gravity.y), -10.0);
    assert_eq!(f32::from_bits(config.gravity.z), 0.0);
    assert_eq!(config.solver_iterations, 5);
    assert_eq!(f32::from_bits(config.baumgarte_beta), 0.25);
    assert_eq!(f32::from_bits(config.penetration_slop), 0.02);
}

#[test]
fn a_new_joint_is_all_zero_and_keeps_its_multiplier_over_a_step() {
    let mut joint = ConstraintDistance::new();
    assert_eq!(joint.jacobian, JacobianRow::zero());
    assert_eq!(joint.cached_lambda, ZERO);
    assert_eq!(joint.baumgarte, ZERO);
    joint.solve(bits(1.25));
    let warm = joint.pre_solve(some_row(), bits(0.5));
    assert_eq!(warm, bits(1.25));
    assert_eq!(joint.jacobian, some_row());
    assert_eq!(joint.baumgarte, bits(0.5));
    assert_eq!(joint.cached_lambda, bits(1.25));
    let warm_again = joint.pre_solve(some_row(), bits(0.5));
    assert_eq!(warm_again, bits(1.25));
    joint.solve(bits(1.5));
    joint.post_solve();
    assert_eq!(joint.cached_lambda, bits(1.5));
    assert_eq!(joint.jacobian, some_row());
}

#[test]
fn constraints_are_kept_in_the_order_of_insertion() {
    let mut arena = ConstraintArena::new();
    assert_eq!(arena.len(), 0);
    arena.add_distance_constraint(linkage(0, 1));
    arena.add_penetration_constraint(linkage(1, 2), Vector3::new(ZERO, ONE, ZERO));
    arena.add_distance_constraint(linkage(2, 3));
    assert_eq!(arena.len(), 3);
    assert_eq!(*arena.all_configs(), vec![linkage(0, 1), linkage(1, 2), linkage(2, 3)]);
    assert_eq!(arena.state(0), Constraint::Distance(ConstraintDistance::new()));
    let mut contact = ConstraintPenetration::new();
    contact.normal = Vector3::new(ZERO, ONE, ZERO);
    assert_eq!(arena.state(1), Constraint::Penetration(contact));
    assert_eq!(arena.state(2), Constraint::Distance(ConstraintDistance::new()));
}

#[test]
fn a_state_or_an_anchor_is_replaced_alone() {
    let mut arena = ConstraintArena::new();
    arena.add_distance_constraint(linkage(0, 1));
    arena.add_distance_constraint(linkage(1, 2));
    let mut joint = ConstraintDistance::new();
    joint.solve(bits(3.0));
    arena.set_state(1, Constraint::Distance(joint));
    assert_eq!(arena.state(0), Constraint::Distance(ConstraintDistance::new()));
    assert_eq!(arena.state(1), Constraint::Distance(joint));
    arena.set_anchors(0, Vector3::new(ONE, ONE, ONE), Vector3::zero());
    let configs = arena.all_configs();
    assert_eq!(configs[0].anchor_a, Vector3::new(ONE, ONE, ONE));
    assert_eq!(configs[0].anchor_b, Vector3::zero());
    assert_eq!(configs[0].handle_a, BodyHandle { index: 0 });
    assert_eq!(configs[0].handle_b, BodyHandle { index: 1 });
    assert_eq!(configs[1], linkage(1, 2));
    assert_eq!(arena.state(1), Constraint::Distance(joint));
    arena.clear();
    assert_eq!(arena.len(), 0);
}

#[test]
fn two_bodies_are_read_and_written_together() {
    let mut arena = BodyArena::new();
    let a = arena.add(Body::default());
    let b = arena.add(Body::default());
    let c = arena.add(Body::default());
    let mut moved_a = Body::default();
    moved_a.position = Vector3::new(ONE, ZERO, ZERO);
    let mut moved_c = Body::default();
    moved_c.inv_mass = ZERO;
    arena.set_body_pair(c, moved_c, a, moved_a);
    let (first, second) = arena.get_body_pair(a, c);
    assert_eq!(*first, moved_a);
    assert_eq!(*second, moved_c);
    assert_eq!(*arena.get_body(b), Body::default());
}

#[test]
fn the_joints_of_a_scene_carry_their_state() {
    let mut scene = PhysicsScene::new();
    for joint in 0..5 {
        assert_eq!(scene.joint_state(joint), Constraint::Distance(ConstraintDistance::new()));
    }
    let mut state = ConstraintDistance::new();
    state.pre_solve(some_row(), bits(0.125));
    state.solve(bits(-4.0));
    scene.set_joint_state(3, Constraint::Distance(state));
    assert_eq!(scene.joint_state(3), Constraint::Distance(state));
    assert_eq!(scene.joint_state(2), Constraint::Distance(ConstraintDistance::new()));
    assert_eq!(scene.joints().len(), 5);
    scene.reset();
    assert_eq!(scene.joint_state(3), Constraint::Distance(ConstraintDistance::new()));
}
