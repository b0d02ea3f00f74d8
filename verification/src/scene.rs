//! The scene: its bodies, joints and contacts, and the bookkeeping of a step.

use crate::body::{
    Body, BodyArena, BodyHandle, Quaternion, Shape, Vector3, HALF, ONE, ZERO,
};
use crate::constraint::{Constraint, ConstraintArena, ConstraintConfig, ConstraintDistance};
use crate::contact::{impact_times, is_ordered, is_stable_order, sort_contacts, Contact};
use crate::schedule::{plan_substeps, segments_total, StepPlan};
use vstd::prelude::*;

verus! {

/// Bit pattern of `0.3`.
pub const THREE_TENTHS: u32 = 0x3e99_999a;

/// Bit pattern of `2.0`.
pub const TWO: u32 = 0x4000_0000;

/// Bit pattern of `3.0`.
pub const THREE: u32 = 0x4040_0000;

/// Bit pattern of `4.0`.
pub const FOUR: u32 = 0x4080_0000;

/// Bit pattern of `5.0`.
pub const FIVE: u32 = 0x40a0_0000;

/// Bit pattern of `8.0`.
pub const EIGHT: u32 = 0x4100_0000;

/// Bit pattern of `25.0`.
pub const TWENTY_FIVE: u32 = 0x41c8_0000;

/// Bit pattern of `-25.0`.
pub const MINUS_TWENTY_FIVE: u32 = 0xc1c8_0000;

/// Bit pattern of `50.0`.
pub const FIFTY: u32 = 0x4248_0000;

/// Bit pattern of `-50.0`.
pub const MINUS_FIFTY: u32 = 0xc248_0000;

/// The number of joints in the chain that a fresh scene holds.
pub const NUM_JOINTS: usize = 5;

/// An immovable body at rest, turned nowhere, with elasticity one half.
pub open spec fn fixed_body(position: Vector3, friction: u32, shape: Shape) -> Body {
    Body {
        position,
        orientation: Quaternion::identity_spec(),
        linear_velocity: Vector3::splat_spec(ZERO),
        angular_velocity: Vector3::splat_spec(ZERO),
        inv_mass: ZERO,
        elasticity: HALF,
        friction,
        shape,
    }
}

/// The ground and the four walls that enclose every scene: the ground at the
/// origin with friction one half, two walls at `x = 50` and `x = -50` and two
/// at `z = 25` and `z = -25`, without friction.
pub open spec fn sandbox_bodies() -> Seq<Body> {
    seq![
        fixed_body(Vector3 { x: ZERO, y: ZERO, z: ZERO }, HALF, Shape::BoxGround),
        fixed_body(Vector3 { x: FIFTY, y: ZERO, z: ZERO }, ZERO, Shape::BoxWall0),
        fixed_body(Vector3 { x: MINUS_FIFTY, y: ZERO, z: ZERO }, ZERO, Shape::BoxWall0),
        fixed_body(Vector3 { x: ZERO, y: ZERO, z: TWENTY_FIVE }, ZERO, Shape::BoxWall1),
        fixed_body(Vector3 { x: ZERO, y: ZERO, z: MINUS_TWENTY_FIVE }, ZERO, Shape::BoxWall1),
    ]
}

/// The colours of the ground and of the four walls.
pub open spec fn sandbox_colors() -> Seq<Vector3> {
    seq![
        Vector3 { x: THREE_TENTHS, y: HALF, z: THREE_TENTHS },
        Vector3::splat_spec(HALF),
        Vector3::splat_spec(HALF),
        Vector3::splat_spec(HALF),
        Vector3::splat_spec(HALF),
    ]
}

fn make_fixed_body(position: Vector3, friction: u32, shape: Shape) -> (r: Body)
    ensures
        r == fixed_body(position, friction, shape),
{
    Body {
        position,
        orientation: Quaternion::identity(),
        linear_velocity: Vector3::zero(),
        angular_velocity: Vector3::zero(),
        inv_mass: ZERO,
        elasticity: HALF,
        friction,
        shape,
    }
}

/// Adds the ground and the four walls, after the bodies that are there.
pub fn add_standard_sandbox(bodies: &mut BodyArena)
    requires
        old(bodies).wf(),
    ensures
        final(bodies).wf(),
        final(bodies)@ =~= old(bodies)@ + sandbox_bodies(),
        final(bodies).colors() =~= old(bodies).colors() + sandbox_colors(),
{
    let wall_color = Vector3::splat(HALF);
    bodies.add_with_color(
        make_fixed_body(Vector3::new(ZERO, ZERO, ZERO), HALF, Shape::BoxGround),
        Vector3::new(THREE_TENTHS, HALF, THREE_TENTHS),
    );
    bodies.add_with_color(
        make_fixed_body(Vector3::new(FIFTY, ZERO, ZERO), ZERO, Shape::BoxWall0),
        wall_color,
    );
    bodies.add_with_color(
        make_fixed_body(Vector3::new(MINUS_FIFTY, ZERO, ZERO), ZERO, Shape::BoxWall0),
        wall_color,
    );
    bodies.add_with_color(
        make_fixed_body(Vector3::new(ZERO, ZERO, TWENTY_FIVE), ZERO, Shape::BoxWall1),
        wall_color,
    );
    bodies.add_with_color(
        make_fixed_body(Vector3::new(ZERO, ZERO, MINUS_TWENTY_FIVE), ZERO, Shape::BoxWall1),
        wall_color,
    );
}

/// What the response to a contact leaves of one body: its velocities after
/// the impulses, and its position after the two bodies were pushed apart.
#[derive(Clone, Copy, Debug, PartialEq, Eq, Structural)]
pub struct BodyOutcome {
    pub linear_velocity: Vector3,
    pub angular_velocity: Vector3,
    pub position: Vector3,
}

/// The response to a contact, for the first body and for the second.
#[derive(Clone, Copy, Debug, PartialEq, Eq, Structural)]
pub struct ContactOutcome {
    pub body_a: BodyOutcome,
    pub body_b: BodyOutcome,
}

/// A body after a contact at `time_of_impact` with the response `outcome`. A
/// body of infinite mass stays as it is, whatever the response says. Any other
/// body takes the new velocities, and the new position only where the contact
/// stood at the very start of the piece of time, when the bodies overlapped
/// already. Orientation, mass, elasticity, friction and shape never change.
pub open spec fn resolved_body(body: Body, time_of_impact: u64, outcome: BodyOutcome) -> Body {
    if body.is_static() {
        body
    } else {
        Body {
            linear_velocity: outcome.linear_velocity,
            angular_velocity: outcome.angular_velocity,
            position: if time_of_impact == 0 {
                outcome.position
            } else {
                body.position
            },
            ..body
        }
    }
}

/// A body after an impulse that would leave it with the given velocities: a
/// body of infinite mass stays as it is, any other takes them.
pub open spec fn after_impulse(body: Body, linear: Vector3, angular: Vector3) -> Body {
    if body.is_static() {
        body
    } else {
        Body { linear_velocity: linear, angular_velocity: angular, ..body }
    }
}

fn resolve_body(body: &Body, time_of_impact: u64, outcome: &BodyOutcome) -> (r: Body)
    ensures
        r == resolved_body(*body, time_of_impact, *outcome),
{
    if body.has_infinite_mass() {
        *body
    } else {
        Body {
            position: if time_of_impact == 0 {
                outcome.position
            } else {
                body.position
            },
            orientation: body.orientation,
            linear_velocity: outcome.linear_velocity,
            angular_velocity: outcome.angular_velocity,
            inv_mass: body.inv_mass,
            elasticity: body.elasticity,
            friction: body.friction,
            shape: body.shape,
        }
    }
}

/// True when `contact` may be resolved: it names two different bodies of the
/// arena, and not both of them have infinite mass.
pub open spec fn resolvable(bodies: &BodyArena, contact: &Contact) -> bool {
    &&& bodies.contains(contact.handle_a)
    &&& bodies.contains(contact.handle_b)
    &&& contact.handle_a != contact.handle_b
    &&& !(bodies@[contact.handle_a.index as int].is_static() && bodies@[contact.handle_b.index
        as int].is_static())
}

/// Decides whether `contact` may be resolved.
pub fn is_resolvable(bodies: &BodyArena, contact: &Contact) -> (r: bool)
    requires
        bodies.wf(),
    ensures
        r == resolvable(bodies, contact),
{
    let n = bodies.len();
    if contact.handle_a.index >= n || contact.handle_b.index >= n {
        return false;
    }
    if contact.handle_a.index == contact.handle_b.index {
        return false;
    }
    let a = bodies.get_body(contact.handle_a);
    let b = bodies.get_body(contact.handle_b);
    !(a.has_infinite_mass() && b.has_infinite_mass())
}

/// Writes the response to a contact into the two bodies it names. Each of the
/// two becomes what `resolved_body` says; every other body stays as it is.
pub fn resolve_contact(bodies: &mut BodyArena, contact: &Contact, outcome: &ContactOutcome)
    requires
        old(bodies).wf(),
        resolvable(old(bodies), contact),
    ensures
        final(bodies).wf(),
        final(bodies).colors() == old(bodies).colors(),
        final(bodies)@ == old(bodies)@.update(
            contact.handle_a.index as int,
            resolved_body(
                old(bodies)@[contact.handle_a.index as int],
                contact.time_of_impact,
                outcome.body_a,
            ),
        ).update(
            contact.handle_b.index as int,
            resolved_body(
                old(bodies)@[contact.handle_b.index as int],
                contact.time_of_impact,
                outcome.body_b,
            ),
        ),
        final(bodies)@.len() == old(bodies)@.len(),
        forall|i: int|
            0 <= i < old(bodies)@.len() && (old(bodies)@[i].is_static() || (i
                != contact.handle_a.index && i != contact.handle_b.index))
                ==> #[trigger] final(bodies)@[i] == old(bodies)@[i],
{
    let (before_a, before_b) = bodies.get_body_pair(contact.handle_a, contact.handle_b);
    let body_a = resolve_body(before_a, contact.time_of_impact, &outcome.body_a);
    let body_b = resolve_body(before_b, contact.time_of_impact, &outcome.body_b);
    bodies.set_body_pair(contact.handle_a, body_a, contact.handle_b, body_b);
}

/// A body of infinite mass comes out of every contact as it went in: same
/// position, same orientation, same velocities.
pub proof fn lemma_static_body_unmoved(body: Body, time_of_impact: u64, outcome: BodyOutcome)
    requires
        body.is_static(),
    ensures
        resolved_body(body, time_of_impact, outcome) == body,
{
}

/// An impulse leaves a body of infinite mass as it was.
pub proof fn lemma_static_body_ignores_impulse(body: Body, linear: Vector3, angular: Vector3)
    requires
        body.is_static(),
    ensures
        after_impulse(body, linear, angular) == body,
{
}

/// A contact later than the start of its piece of time moves no body: only
/// velocities change.
pub proof fn lemma_position_kept_after_start(body: Body, time_of_impact: u64, outcome: BodyOutcome)
    requires
        time_of_impact > 0,
    ensures
        resolved_body(body, time_of_impact, outcome).position == body.position,
        resolved_body(body, time_of_impact, outcome).orientation == body.orientation,
{
}

/// The `x` coordinate of link `i` of the chain: the whole number `i`.
pub open spec fn link_x(i: int) -> u32 {
    if i == 0 {
        ZERO
    } else if i == 1 {
        ONE
    } else if i == 2 {
        TWO
    } else if i == 3 {
        THREE
    } else if i == 4 {
        FOUR
    } else {
        FIVE
    }
}

/// Link `i` of the chain: a small box at `(i, 8, 5)`, at rest, with
/// elasticity one and friction one half. Link 0 has infinite mass and holds
/// the chain up; the others have unit mass.
pub open spec fn chain_body(i: int) -> Body {
    Body {
        position: Vector3 { x: link_x(i), y: EIGHT, z: FIVE },
        inv_mass: if i == 0 {
            ZERO
        } else {
            ONE
        },
        elasticity: ONE,
        shape: Shape::BoxSmall,
        ..Body::default_spec()
    }
}

/// Joint `i` of the chain couples link `i` with link `i + 1`. Its anchors
/// start at zero and are set by `attach_joint`.
pub open spec fn chain_joint(i: int) -> ConstraintConfig {
    ConstraintConfig {
        handle_a: BodyHandle { index: i as usize },
        handle_b: BodyHandle { index: (i + 1) as usize },
        anchor_a: Vector3::splat_spec(ZERO),
        axis_a: Vector3::splat_spec(ZERO),
        anchor_b: Vector3::splat_spec(ZERO),
        axis_b: Vector3::splat_spec(ZERO),
    }
}

/// The bodies of a fresh scene: the six links of the chain, then the ground
/// and the four walls.
pub open spec fn initial_bodies() -> Seq<Body> {
    Seq::new(NUM_JOINTS as nat + 1, |i: int| chain_body(i)) + sandbox_bodies()
}

/// The colours of a fresh scene's bodies: white for the chain, then those of
/// the ground and the walls.
pub open spec fn initial_colors() -> Seq<Vector3> {
    Seq::new(NUM_JOINTS as nat + 1, |i: int| Vector3::splat_spec(ONE)) + sandbox_colors()
}

/// The joints of a fresh scene.
pub open spec fn initial_joints() -> Seq<ConstraintConfig> {
    Seq::new(NUM_JOINTS as nat, |i: int| chain_joint(i))
}

/// The joints of a fresh scene have nothing cached.
pub open spec fn initial_joint_states() -> Seq<Constraint> {
    Seq::new(NUM_JOINTS as nat, |i: int| Constraint::Distance(ConstraintDistance::new_spec()))
}

fn make_chain_body(i: usize) -> (r: Body)
    requires
        i <= NUM_JOINTS,
    ensures
        r == chain_body(i as int),
{
    let x: u32 = if i == 0 {
        ZERO
    } else if i == 1 {
        ONE
    } else if i == 2 {
        TWO
    } else if i == 3 {
        THREE
    } else if i == 4 {
        FOUR
    } else {
        FIVE
    };
    Body {
        position: Vector3::new(x, EIGHT, FIVE),
        orientation: Quaternion::identity(),
        linear_velocity: Vector3::zero(),
        angular_velocity: Vector3::zero(),
        inv_mass: if i == 0 {
            ZERO
        } else {
            ONE
        },
        elasticity: ONE,
        friction: HALF,
        shape: Shape::BoxSmall,
    }
}

/// A scene: the bodies, the joints between them, the contacts of the current
/// step, and the number of steps taken.
pub struct PhysicsScene {
    bodies: BodyArena,
    constraints: ConstraintArena,
    contacts: Vec<Contact>,
    step_num: u64,
    pub paused: bool,
}

impl PhysicsScene {
    /// The bodies, in the order of their handles.
    pub closed spec fn body_seq(&self) -> Seq<Body> {
        self.bodies@
    }

    /// The colours of the bodies.
    pub closed spec fn color_seq(&self) -> Seq<Vector3> {
        self.bodies.colors()
    }

    /// The joints, in the order in which they are solved.
    pub closed spec fn joint_seq(&self) -> Seq<ConstraintConfig> {
        self.constraints.configs()
    }

    /// The state that each joint carries from step to step.
    pub closed spec fn joint_states(&self) -> Seq<Constraint> {
        self.constraints.states()
    }

    /// The contacts of the current step, in the order in which they are resolved.
    pub closed spec fn contact_seq(&self) -> Seq<Contact> {
        self.contacts@
    }

    /// Whether the scene is paused.
    pub closed spec fn is_paused(&self) -> bool {
        self.paused
    }

    /// The number of steps taken since the scene was last reset.
    pub closed spec fn steps(&self) -> u64 {
        self.step_num
    }

    /// Contact `index` of the current step is there and may be resolved: it
    /// names two different bodies of the scene, and not both of them have
    /// infinite mass.
    pub open spec fn resolvable_at(&self, index: int) -> bool {
        &&& 0 <= index < self.contact_seq().len()
        &&& self.contact_seq()[index].handle_a.index < self.body_seq().len()
        &&& self.contact_seq()[index].handle_b.index < self.body_seq().len()
        &&& self.contact_seq()[index].handle_a != self.contact_seq()[index].handle_b
        &&& !(self.body_seq()[self.contact_seq()[index].handle_a.index as int].is_static()
            && self.body_seq()[self.contact_seq()[index].handle_b.index as int].is_static())
    }

    /// The body arena is well formed, and every joint couples two different
    /// bodies of the scene.
    pub closed spec fn wf(&self) -> bool {
        &&& self.bodies.wf()
        &&& self.bodies.colors().len() == self.bodies@.len()
        &&& self.constraints.wf()
        &&& forall|i: int|
            0 <= i < self.constraints.configs().len() ==> {
                let joint = #[trigger] self.constraints.configs()[i];
                &&& joint.handle_a.index < self.bodies@.len()
                &&& joint.handle_b.index < self.bodies@.len()
                &&& joint.handle_a != joint.handle_b
            }
    }

    /// A paused scene that holds the chain and the sandbox.
    pub fn new() -> (scene: PhysicsScene)
        ensures
            scene.wf(),
            scene.body_seq() =~= initial_bodies(),
            scene.color_seq() =~= initial_colors(),
            scene.joint_seq() =~= initial_joints(),
            scene.joint_states() =~= initial_joint_states(),
            scene.contact_seq().len() == 0,
            scene.steps() == 0,
            scene.is_paused(),
    {
        let mut scene = PhysicsScene {
            bodies: BodyArena::new(),
            constraints: ConstraintArena::new(),
            contacts: Vec::new(),
            step_num: 0,
            paused: true,
        };
        scene.reset();
        scene
    }

    /// Puts the scene back to its beginning: no steps taken, no contacts,
    /// paused, and for bodies a chain of six small boxes, each joined to the
    /// next, hanging from its first link, inside the sandbox.
    pub fn reset(&mut self)
        ensures
            final(self).wf(),
            final(self).body_seq() =~= initial_bodies(),
            final(self).color_seq() =~= initial_colors(),
            final(self).joint_seq() =~= initial_joints(),
            final(self).joint_states() =~= initial_joint_states(),
            final(self).contact_seq().len() == 0,
            final(self).steps() == 0,
            final(self).is_paused(),
    {
        self.step_num = 0;
        self.bodies.clear();
        self.constraints.clear();

        let mut handle_a = self.bodies.add(make_chain_body(0));
        let mut i: usize = 0;
        while i < NUM_JOINTS
            invariant
                i <= NUM_JOINTS,
                handle_a.index == i,
                self.step_num == 0,
                self.bodies.wf(),
                self.bodies@ =~= Seq::new(i as nat + 1, |k: int| chain_body(k)),
                self.bodies.colors() =~= Seq::new(i as nat + 1, |k: int| Vector3::splat_spec(ONE)),
                self.constraints.wf(),
                self.constraints.configs() =~= Seq::new(i as nat, |k: int| chain_joint(k)),
                self.constraints.states() =~= Seq::new(
                    i as nat,
                    |k: int| Constraint::Distance(ConstraintDistance::new_spec()),
                ),
            decreases NUM_JOINTS - i,
        {
            let handle_b = self.bodies.add(make_chain_body(i + 1));
            self.constraints.add_distance_constraint(
                ConstraintConfig {
                    handle_a,
                    handle_b,
                    anchor_a: Vector3::zero(),
                    anchor_b: Vector3::zero(),
                    axis_a: Vector3::zero(),
                    axis_b: Vector3::zero(),
                },
            );
            handle_a = handle_b;
            i += 1;
        }

        add_standard_sandbox(&mut self.bodies);

        let n: usize = self.bodies.len();
        assert(n == 11);
        let max_contacts: usize = n * n;
        self.contacts = Vec::with_capacity(max_contacts);

        self.paused = true;
    }

    /// Sets the two anchors of joint `joint`, each in the frame of the body
    /// it is fixed to. Everything else stays.
    pub fn attach_joint(&mut self, joint: usize, anchor_a: Vector3, anchor_b: Vector3)
        requires
            old(self).wf(),
            joint < old(self).joint_seq().len(),
        ensures
            final(self).wf(),
            final(self).joint_seq() == old(self).joint_seq().update(
                joint as int,
                (ConstraintConfig { anchor_a, anchor_b, ..old(self).joint_seq()[joint as int] }),
            ),
            final(self).joint_states() == old(self).joint_states(),
            final(self).body_seq() == old(self).body_seq(),
            final(self).color_seq() == old(self).color_seq(),
            final(self).contact_seq() == old(self).contact_seq(),
            final(self).steps() == old(self).steps(),
            final(self).is_paused() == old(self).is_paused(),
    {
        self.constraints.set_anchors(joint, anchor_a, anchor_b);
    }

    /// The state that joint `joint` carries from step to step.
    pub fn joint_state(&self, joint: usize) -> (state: Constraint)
        requires
            self.wf(),
            joint < self.joint_seq().len(),
        ensures
            state == self.joint_states()[joint as int],
    {
        self.constraints.state(joint)
    }

    /// Replaces the state of joint `joint`; everything else stays.
    pub fn set_joint_state(&mut self, joint: usize, state: Constraint)
        requires
            old(self).wf(),
            joint < old(self).joint_seq().len(),
        ensures
            final(self).wf(),
            final(self).joint_states() == old(self).joint_states().update(joint as int, state),
            final(self).joint_seq() == old(self).joint_seq(),
            final(self).body_seq() == old(self).body_seq(),
            final(self).color_seq() == old(self).color_seq(),
            final(self).contact_seq() == old(self).contact_seq(),
            final(self).steps() == old(self).steps(),
            final(self).is_paused() == old(self).is_paused(),
    {
        self.constraints.set_state(joint, state);
    }

    /// Opens a step of `delta` ticks with the contacts that were found for
    /// it. The step count goes up by one. The contacts of the step before are
    /// dropped, and those found now are kept in order of their time of
    /// impact, equal times in the order in which they were found. Returned is
    /// the plan of the step: how far to advance all bodies before each
    /// contact is resolved, and how far after the last. Bodies and joints are
    /// not touched.
    pub fn update(&mut self, delta: u64, found: Vec<Contact>) -> (plan: StepPlan)
        requires
            old(self).wf(),
            old(self).steps() < u64::MAX,
            forall|i: int| 0 <= i < found@.len() ==> (#[trigger] found@[i]).time_of_impact <= delta,
        ensures
            final(self).wf(),
            final(self).steps() == old(self).steps() + 1,
            exists|from: Seq<int>| is_stable_order(found@, final(self).contact_seq(), from),
            is_ordered(final(self).contact_seq()),
            final(self).contact_seq().to_multiset() == found@.to_multiset(),
            plan.cuts(final(self).contact_seq(), delta),
            segments_total(
                impact_times(final(self).contact_seq()),
                final(self).contact_seq().len() as int,
            ) + plan.remainder == delta,
            final(self).body_seq() == old(self).body_seq(),
            final(self).color_seq() == old(self).color_seq(),
            final(self).joint_seq() == old(self).joint_seq(),
            final(self).joint_states() == old(self).joint_states(),
            final(self).is_paused() == old(self).is_paused(),
    {
        self.step_num = self.step_num + 1;
        let sorted = sort_contacts(&found);
        let ghost from = choose|from: Seq<int>| is_stable_order(found@, sorted@, from);
        proof {
            assert forall|i: int| 0 <= i < sorted@.len() implies (#[trigger] sorted@[i]).time_of_impact
                <= delta by {
                assert(sorted@[i] == found@[from[i]]);
            }
        }
        let plan = plan_substeps(&sorted, delta);
        self.contacts = sorted;
        assert(is_stable_order(found@, self.contact_seq(), from));
        plan
    }

    /// The body that `handle` names.
    pub fn get_body(&self, handle: BodyHandle) -> (body: &Body)
        requires
            self.wf(),
            handle.index < self.body_seq().len(),
        ensures
            *body == self.body_seq()[handle.index as int],
    {
        self.bodies.get_body(handle)
    }

    /// The body that `handle` names, with its colour.
    pub fn get_body_with_color(&self, handle: BodyHandle) -> (r: (&Body, Vector3))
        requires
            self.wf(),
            handle.index < self.body_seq().len(),
        ensures
            *r.0 == self.body_seq()[handle.index as int],
            r.1 == self.color_seq()[handle.index as int],
    {
        self.bodies.get_body_with_color(handle)
    }

    /// The handles of all bodies, in the order in which the bodies were added:
    /// the handle at place `i` is `i`.
    pub fn iter_body_handles(&self) -> (handles: &Vec<BodyHandle>)
        requires
            self.wf(),
        ensures
            handles@.len() == self.body_seq().len(),
            forall|i: int| 0 <= i < handles@.len() ==> (#[trigger] handles@[i]).index == i,
    {
        self.bodies.handles()
    }

    /// Whether gravity acts on the body: it does on every body of finite mass.
    pub fn needs_gravity(&self, handle: BodyHandle) -> (r: bool)
        requires
            self.wf(),
            handle.index < self.body_seq().len(),
        ensures
            r == !self.body_seq()[handle.index as int].is_static(),
    {
        !self.bodies.get_body(handle).has_infinite_mass()
    }

    /// Whether a pair of bodies is looked at for contacts: every pair is,
    /// but one of two bodies of infinite mass.
    pub fn is_candidate_pair(&self, a: BodyHandle, b: BodyHandle) -> (r: bool)
        requires
            self.wf(),
            a.index < self.body_seq().len(),
            b.index < self.body_seq().len(),
            a != b,
        ensures
            r == !(self.body_seq()[a.index as int].is_static() && self.body_seq()[b.index
                as int].is_static()),
    {
        !(self.bodies.get_body(a).has_infinite_mass() && self.bodies.get_body(b).has_infinite_mass())
    }

    /// Gives a body the velocities that an impulse left it with. A body of
    /// infinite mass keeps its own.
    pub fn apply_velocities(&mut self, handle: BodyHandle, linear: Vector3, angular: Vector3)
        requires
            old(self).wf(),
            handle.index < old(self).body_seq().len(),
        ensures
            final(self).wf(),
            final(self).body_seq() == old(self).body_seq().update(
                handle.index as int,
                after_impulse(old(self).body_seq()[handle.index as int], linear, angular),
            ),
            final(self).color_seq() == old(self).color_seq(),
            final(self).joint_seq() == old(self).joint_seq(),
            final(self).joint_states() == old(self).joint_states(),
            final(self).contact_seq() == old(self).contact_seq(),
            final(self).steps() == old(self).steps(),
            final(self).is_paused() == old(self).is_paused(),
    {
        let body = *self.bodies.get_body(handle);
        if !body.has_infinite_mass() {
            self.bodies.set_body(
                handle,
                Body { linear_velocity: linear, angular_velocity: angular, ..body },
            );
        } else {
            assert(self.body_seq() =~= self.body_seq().update(handle.index as int, body));
        }
    }

    /// Gives a body the place, the turn and the spin that advancing it in
    /// time has led to. Its linear velocity, mass and material stay.
    pub fn store_advanced(
        &mut self,
        handle: BodyHandle,
        position: Vector3,
        orientation: Quaternion,
        angular: Vector3,
    )
        requires
            old(self).wf(),
            handle.index < old(self).body_seq().len(),
        ensures
            final(self).wf(),
            final(self).body_seq() == old(self).body_seq().update(
                handle.index as int,
                (Body {
                    position,
                    orientation,
                    angular_velocity: angular,
                    ..old(self).body_seq()[handle.index as int]
                }),
            ),
            final(self).color_seq() == old(self).color_seq(),
            final(self).joint_seq() == old(self).joint_seq(),
            final(self).joint_states() == old(self).joint_states(),
            final(self).contact_seq() == old(self).contact_seq(),
            final(self).steps() == old(self).steps(),
            final(self).is_paused() == old(self).is_paused(),
    {
        let body = *self.bodies.get_body(handle);
        self.bodies.set_body(handle, Body { position, orientation, angular_velocity: angular, ..body });
    }

    /// Whether contact `index` of the current step may be resolved: it is
    /// there, names two different bodies of the scene, and not both of them
    /// have infinite mass.
    pub fn can_resolve(&self, index: usize) -> (r: bool)
        requires
            self.wf(),
        ensures
            r == self.resolvable_at(index as int),
    {
        if index >= self.contacts.len() {
            return false;
        }
        is_resolvable(&self.bodies, &self.contacts[index])
    }

    /// Writes the response to contact `index` of the current step into the
    /// two bodies it names, as `resolved_body` says; nothing else changes.
    pub fn resolve(&mut self, index: usize, outcome: &ContactOutcome)
        requires
            old(self).wf(),
            old(self).resolvable_at(index as int),
        ensures
            final(self).wf(),
            final(self).body_seq() == old(self).body_seq().update(
                old(self).contact_seq()[index as int].handle_a.index as int,
                resolved_body(
                    old(self).body_seq()[old(self).contact_seq()[index as int].handle_a.index as int],
                    old(self).contact_seq()[index as int].time_of_impact,
                    outcome.body_a,
                ),
            ).update(
                old(self).contact_seq()[index as int].handle_b.index as int,
                resolved_body(
                    old(self).body_seq()[old(self).contact_seq()[index as int].handle_b.index as int],
                    old(self).contact_seq()[index as int].time_of_impact,
                    outcome.body_b,
                ),
            ),
            final(self).color_seq() == old(self).color_seq(),
            final(self).joint_seq() == old(self).joint_seq(),
            final(self).joint_states() == old(self).joint_states(),
            final(self).contact_seq() == old(self).contact_seq(),
            final(self).steps() == old(self).steps(),
            final(self).is_paused() == old(self).is_paused(),
    {
        let contact = self.contacts[index];
        resolve_contact(&mut self.bodies, &contact, outcome);
    }

    /// The joints, in the order in which they are solved. Each couples two
    /// different bodies of the scene.
    pub fn joints(&self) -> (joints: &Vec<ConstraintConfig>)
        requires
            self.wf(),
        ensures
            joints@ == self.joint_seq(),
            self.joint_states().len() == joints@.len(),
            forall|i: int|
                0 <= i < joints@.len() ==> {
                    let joint = #[trigger] joints@[i];
                    &&& joint.handle_a.index < self.body_seq().len()
                    &&& joint.handle_b.index < self.body_seq().len()
                    &&& joint.handle_a != joint.handle_b
                },
    {
        self.constraints.all_configs()
    }

    /// The contacts of the current step, in the order in which they are resolved.
    pub fn contacts(&self) -> (contacts: &Vec<Contact>)
        ensures
            contacts@ == self.contact_seq(),
    {
        &self.contacts
    }

    /// The number of steps taken since the scene was last reset.
    pub fn step_num(&self) -> (n: u64)
        ensures
            n == self.steps(),
    {
        self.step_num
    }
}

impl Default for PhysicsScene {
    fn default() -> (scene: PhysicsScene)
        ensures
            scene.wf(),
            scene.body_seq() =~= initial_bodies(),
            scene.joint_seq() =~= initial_joints(),
            scene.steps() == 0,
            scene.is_paused(),
    {
        PhysicsScene::new()
    }
}

} // verus!
