//! Constraint records: the linkage between two bodies and the state that a
//! penetration constraint carries from one step to the next.

use crate::body::{is_positive, is_positive_bits, BodyHandle, Vector3, NEG_ZERO, ZERO};
use vstd::prelude::*;

verus! {

/// What a constraint couples: two bodies and, for each, the attachment point
/// and axis in that body's own frame.
#[derive(Clone, Copy, Debug, PartialEq, Eq, Structural)]
pub struct ConstraintConfig {
    pub handle_a: BodyHandle,
    pub handle_b: BodyHandle,
    pub anchor_a: Vector3,
    pub axis_a: Vector3,
    pub anchor_b: Vector3,
    pub axis_b: Vector3,
}

/// One row of a two-body Jacobian: twelve columns, three linear and three
/// angular for each body.
#[derive(Clone, Copy, Debug, PartialEq, Eq, Structural)]
pub struct JacobianRow {
    pub linear_a: Vector3,
    pub angular_a: Vector3,
    pub linear_b: Vector3,
    pub angular_b: Vector3,
}

/// Component `i` of a vector, for `i` below three.
pub open spec fn component_spec(v: Vector3, i: int) -> u32 {
    if i == 0 {
        v.x
    } else if i == 1 {
        v.y
    } else {
        v.z
    }
}

/// Component `i` of a vector.
pub fn component(v: Vector3, i: usize) -> (r: u32)
    requires
        i < 3,
    ensures
        r == component_spec(v, i as int),
{
    if i == 0 {
        v.x
    } else if i == 1 {
        v.y
    } else {
        v.z
    }
}

/// The pattern of the number with the opposite sign: the sign bit flipped.
pub open spec fn negated_bits(bits: u32) -> u32 {
    bits ^ NEG_ZERO
}

/// The vector that points the other way.
pub open spec fn negated(v: Vector3) -> Vector3 {
    Vector3 { x: negated_bits(v.x), y: negated_bits(v.y), z: negated_bits(v.z) }
}

/// The vector that points the other way.
pub fn negate(v: Vector3) -> (r: Vector3)
    ensures
        r == negated(v),
{
    Vector3 { x: v.x ^ NEG_ZERO, y: v.y ^ NEG_ZERO, z: v.z ^ NEG_ZERO }
}

/// What a Jacobian row is built from: a direction `t` in world space, and
/// the two lever terms `ra x (-t)` and `rb x t` of the contact points about
/// the bodies' centres of mass.
#[derive(Clone, Copy, Debug, PartialEq, Eq, Structural)]
pub struct RowTerms {
    pub direction: Vector3,
    pub lever_a: Vector3,
    pub lever_b: Vector3,
}

impl JacobianRow {
    /// The row along a direction `t`: `[-t, ra x (-t), t, rb x t]`.
    pub open spec fn along_spec(terms: RowTerms) -> JacobianRow {
        JacobianRow {
            linear_a: negated(terms.direction),
            angular_a: terms.lever_a,
            linear_b: terms.direction,
            angular_b: terms.lever_b,
        }
    }

    /// The row along a direction `t`: `[-t, ra x (-t), t, rb x t]`.
    pub fn along(terms: RowTerms) -> (r: JacobianRow)
        ensures
            r == JacobianRow::along_spec(terms),
    {
        JacobianRow {
            linear_a: negate(terms.direction),
            angular_a: terms.lever_a,
            linear_b: terms.direction,
            angular_b: terms.lever_b,
        }
    }

    /// The row of twelve zeros.
    pub open spec fn zero_spec() -> JacobianRow {
        JacobianRow {
            linear_a: Vector3::splat_spec(ZERO),
            angular_a: Vector3::splat_spec(ZERO),
            linear_b: Vector3::splat_spec(ZERO),
            angular_b: Vector3::splat_spec(ZERO),
        }
    }

    /// The entry in column `col`: columns 0 to 2 are the first body's linear
    /// part, 3 to 5 its angular part, 6 to 8 and 9 to 11 the second body's.
    pub open spec fn entry_spec(&self, col: int) -> u32 {
        if col < 3 {
            component_spec(self.linear_a, col)
        } else if col < 6 {
            component_spec(self.angular_a, col - 3)
        } else if col < 9 {
            component_spec(self.linear_b, col - 6)
        } else {
            component_spec(self.angular_b, col - 9)
        }
    }

    /// The row of twelve zeros.
    pub fn zero() -> (r: JacobianRow)
        ensures
            r == JacobianRow::zero_spec(),
    {
        JacobianRow {
            linear_a: Vector3::zero(),
            angular_a: Vector3::zero(),
            linear_b: Vector3::zero(),
            angular_b: Vector3::zero(),
        }
    }

    /// The entry in column `col`.
    pub fn entry(&self, col: usize) -> (r: u32)
        requires
            col < 12,
        ensures
            r == self.entry_spec(col as int),
    {
        if col < 3 {
            component(self.linear_a, col)
        } else if col < 6 {
            component(self.angular_a, col - 3)
        } else if col < 9 {
            component(self.linear_b, col - 6)
        } else {
            component(self.angular_b, col - 9)
        }
    }
}

/// The Jacobian of a contact: the row along the normal and the two rows along
/// the friction tangents.
#[derive(Clone, Copy, Debug, PartialEq, Eq, Structural)]
pub struct Jacobian {
    pub normal: JacobianRow,
    pub tangent_u: JacobianRow,
    pub tangent_v: JacobianRow,
}

impl Jacobian {
    /// Three rows of zeros.
    pub open spec fn zero_spec() -> Jacobian {
        Jacobian {
            normal: JacobianRow::zero_spec(),
            tangent_u: JacobianRow::zero_spec(),
            tangent_v: JacobianRow::zero_spec(),
        }
    }

    /// Row 0 is the normal row, rows 1 and 2 the tangent rows.
    pub open spec fn row_spec(&self, row: int) -> JacobianRow {
        if row == 0 {
            self.normal
        } else if row == 1 {
            self.tangent_u
        } else {
            self.tangent_v
        }
    }

    /// The rows the constraint works with: the normal row always, the tangent
    /// rows only where the friction is greater than zero.
    pub open spec fn assembled(
        friction: u32,
        normal: RowTerms,
        tangent_u: RowTerms,
        tangent_v: RowTerms,
    ) -> Jacobian {
        if is_positive_bits(friction) {
            Jacobian {
                normal: JacobianRow::along_spec(normal),
                tangent_u: JacobianRow::along_spec(tangent_u),
                tangent_v: JacobianRow::along_spec(tangent_v),
            }
        } else {
            Jacobian {
                normal: JacobianRow::along_spec(normal),
                tangent_u: JacobianRow::zero_spec(),
                tangent_v: JacobianRow::zero_spec(),
            }
        }
    }

    /// Three rows of zeros.
    pub fn zero() -> (r: Jacobian)
        ensures
            r == Jacobian::zero_spec(),
    {
        Jacobian {
            normal: JacobianRow::zero(),
            tangent_u: JacobianRow::zero(),
            tangent_v: JacobianRow::zero(),
        }
    }

    /// The entry in row `row` and column `col`.
    pub fn entry(&self, row: usize, col: usize) -> (r: u32)
        requires
            row < 3,
            col < 12,
        ensures
            r == self.row_spec(row as int).entry_spec(col as int),
    {
        if row == 0 {
            self.normal.entry(col)
        } else if row == 1 {
            self.tangent_u.entry(col)
        } else {
            self.tangent_v.entry(col)
        }
    }

    /// The transpose, column by column: place `col` holds the three entries
    /// of that column, top row first.
    pub fn transpose(&self) -> (columns: Vec<Vector3>)
        ensures
            columns@.len() == 12,
            forall|col: int, row: int|
                0 <= col < 12 && 0 <= row < 3 ==> component_spec(#[trigger] columns@[col], row)
                    == (#[trigger] self.row_spec(row)).entry_spec(col),
    {
        let mut columns: Vec<Vector3> = Vec::new();
        let mut col: usize = 0;
        while col < 12
            invariant
                col <= 12,
                columns@.len() == col,
                forall|c: int|
                    0 <= c < col ==> (#[trigger] columns@[c]) == (Vector3 {
                        x: self.normal.entry_spec(c),
                        y: self.tangent_u.entry_spec(c),
                        z: self.tangent_v.entry_spec(c),
                    }),
            decreases 12 - col,
        {
            columns.push(
                Vector3 {
                    x: self.normal.entry(col),
                    y: self.tangent_u.entry(col),
                    z: self.tangent_v.entry(col),
                },
            );
            col += 1;
        }
        columns
    }
}

/// A contact held as a constraint: it keeps its Jacobian, the impulse found
/// last time (one multiplier per row), the contact normal in the first body's
/// frame, the stabilisation bias and the combined friction.
#[derive(Clone, Copy, Debug, PartialEq, Eq, Structural)]
pub struct ConstraintPenetration {
    pub jacobian: Jacobian,
    pub cached_lambda: Vector3,
    pub normal: Vector3,
    pub baumgarte: u32,
    pub friction: u32,
}

impl ConstraintPenetration {
    /// The constraint with every entry zero.
    pub open spec fn new_spec() -> ConstraintPenetration {
        ConstraintPenetration {
            jacobian: Jacobian::zero_spec(),
            cached_lambda: Vector3::splat_spec(ZERO),
            normal: Vector3::splat_spec(ZERO),
            baumgarte: ZERO,
            friction: ZERO,
        }
    }

    /// The constraint after the preparation of a step: the Jacobian is built
    /// anew from the terms given, the friction and the bias are replaced, and
    /// the cached impulse and the normal stay as they were.
    pub open spec fn prepared(
        self,
        friction: u32,
        normal_row: RowTerms,
        tangent_u: RowTerms,
        tangent_v: RowTerms,
        baumgarte: u32,
    ) -> ConstraintPenetration {
        ConstraintPenetration {
            jacobian: Jacobian::assembled(friction, normal_row, tangent_u, tangent_v),
            cached_lambda: self.cached_lambda,
            normal: self.normal,
            baumgarte,
            friction,
        }
    }

    /// A constraint with every entry zero.
    pub fn new() -> (r: ConstraintPenetration)
        ensures
            r == ConstraintPenetration::new_spec(),
    {
        ConstraintPenetration {
            jacobian: Jacobian::zero(),
            cached_lambda: Vector3::zero(),
            normal: Vector3::zero(),
            baumgarte: ZERO,
            friction: ZERO,
        }
    }

    /// Prepares the constraint for a step. The caller has worked out, from
    /// the bodies as they stand, the combined friction, the terms of the row
    /// along the normal and of the rows along the two tangents, and the
    /// stabilisation bias. The Jacobian is cleared and rebuilt: the normal
    /// row always, the tangent rows only where the friction is greater than
    /// zero. Returned is the impulse cached from the step before, which the
    /// caller applies to the bodies through the transposed Jacobian, once.
    pub fn pre_solve(
        &mut self,
        friction: u32,
        normal_row: RowTerms,
        tangent_u: RowTerms,
        tangent_v: RowTerms,
        baumgarte: u32,
    ) -> (warm_start: Vector3)
        ensures
            *final(self) == old(self).prepared(friction, normal_row, tangent_u, tangent_v, baumgarte),
            warm_start == old(self).cached_lambda,
    {
        self.friction = friction;
        self.jacobian = Jacobian::zero();
        self.jacobian.normal = JacobianRow::along(normal_row);
        if is_positive(self.friction) {
            self.jacobian.tangent_u = JacobianRow::along(tangent_u);
            self.jacobian.tangent_v = JacobianRow::along(tangent_v);
        }
        self.baumgarte = baumgarte;
        self.cached_lambda
    }

    /// Closes a solving sweep: `accumulated` is the cached impulse with the
    /// sweep's increment added, and becomes the cached impulse. Nothing else
    /// changes.
    pub fn solve(&mut self, accumulated: Vector3)
        ensures
            *final(self) == (ConstraintPenetration { cached_lambda: accumulated, ..*old(self) }),
    {
        self.cached_lambda = accumulated;
    }

    /// Closes the step. The constraint stays as it is: the cached impulse is
    /// kept for the next step.
    pub fn post_solve(&mut self)
        ensures
            *final(self) == *old(self),
    {
    }
}

/// Preparing twice over comes to the same as preparing once: the second
/// preparation finds the cached impulse that the first one found, hands out
/// the same warm start, and leaves the same constraint.
pub proof fn lemma_prepare_twice(
    c: ConstraintPenetration,
    friction: u32,
    normal_row: RowTerms,
    tangent_u: RowTerms,
    tangent_v: RowTerms,
    baumgarte: u32,
)
    ensures
        c.prepared(friction, normal_row, tangent_u, tangent_v, baumgarte).cached_lambda
            == c.cached_lambda,
        c.prepared(friction, normal_row, tangent_u, tangent_v, baumgarte).prepared(
            friction,
            normal_row,
            tangent_u,
            tangent_v,
            baumgarte,
        ) == c.prepared(friction, normal_row, tangent_u, tangent_v, baumgarte),
{
}

/// A joint that holds two anchors at a fixed distance: one Jacobian row, one
/// cached multiplier and the stabilisation bias.
#[derive(Clone, Copy, Debug, PartialEq, Eq, Structural)]
pub struct ConstraintDistance {
    pub jacobian: JacobianRow,
    pub cached_lambda: u32,
    pub baumgarte: u32,
}

impl ConstraintDistance {
    /// The joint with every entry zero.
    pub open spec fn new_spec() -> ConstraintDistance {
        ConstraintDistance { jacobian: JacobianRow::zero_spec(), cached_lambda: ZERO, baumgarte: ZERO }
    }

    /// A joint with every entry zero.
    pub fn new() -> (r: ConstraintDistance)
        ensures
            r == ConstraintDistance::new_spec(),
    {
        ConstraintDistance { jacobian: JacobianRow::zero(), cached_lambda: ZERO, baumgarte: ZERO }
    }

    /// Prepares the joint for a step with the row and the bias that the
    /// caller has worked out from the bodies as they stand. The cached
    /// multiplier stays and is returned, for the caller to apply once.
    pub fn pre_solve(&mut self, row: JacobianRow, baumgarte: u32) -> (warm_start: u32)
        ensures
            *final(self) == (ConstraintDistance {
                jacobian: row,
                cached_lambda: old(self).cached_lambda,
                baumgarte,
            }),
            warm_start == old(self).cached_lambda,
    {
        self.jacobian = row;
        self.baumgarte = baumgarte;
        self.cached_lambda
    }

    /// Closes a solving sweep: `accumulated` becomes the cached multiplier.
    pub fn solve(&mut self, accumulated: u32)
        ensures
            *final(self) == (ConstraintDistance { cached_lambda: accumulated, ..*old(self) }),
    {
        self.cached_lambda = accumulated;
    }

    /// Closes the step; the joint stays as it is.
    pub fn post_solve(&mut self)
        ensures
            *final(self) == *old(self),
    {
    }
}

/// A constraint of either kind, with the state it carries between steps.
#[derive(Clone, Copy, Debug, PartialEq, Eq, Structural)]
pub enum Constraint {
    Distance(ConstraintDistance),
    Penetration(ConstraintPenetration),
}

/// Owner of all constraints. They are kept, and solved, in the order in which
/// they were added.
pub struct ConstraintArena {
    configs: Vec<ConstraintConfig>,
    states: Vec<Constraint>,
}

impl ConstraintArena {
    /// What each constraint couples, in the order of insertion.
    pub closed spec fn configs(&self) -> Seq<ConstraintConfig> {
        self.configs@
    }

    /// The state of each constraint, in the same order.
    pub closed spec fn states(&self) -> Seq<Constraint> {
        self.states@
    }

    /// Every constraint has its linkage and its state.
    pub open spec fn wf(&self) -> bool {
        self.configs().len() == self.states().len()
    }

    /// An arena without constraints.
    pub fn new() -> (r: ConstraintArena)
        ensures
            r.wf(),
            r.configs() == Seq::<ConstraintConfig>::empty(),
            r.states() == Seq::<Constraint>::empty(),
    {
        ConstraintArena { configs: Vec::new(), states: Vec::new() }
    }

    /// Removes every constraint.
    pub fn clear(&mut self)
        ensures
            final(self).wf(),
            final(self).configs() == Seq::<ConstraintConfig>::empty(),
            final(self).states() == Seq::<Constraint>::empty(),
    {
        self.configs.clear();
        self.states.clear();
    }

    /// The number of constraints.
    pub fn len(&self) -> (n: usize)
        ensures
            n == self.configs().len(),
    {
        self.configs.len()
    }

    /// Adds a joint, after the constraints that are there, with nothing cached.
    pub fn add_distance_constraint(&mut self, config: ConstraintConfig)
        requires
            old(self).wf(),
        ensures
            final(self).wf(),
            final(self).configs() == old(self).configs().push(config),
            final(self).states() == old(self).states().push(
                Constraint::Distance(ConstraintDistance::new_spec()),
            ),
    {
        self.configs.push(config);
        self.states.push(Constraint::Distance(ConstraintDistance::new()));
    }

    /// Adds a contact held as a constraint, after the constraints that are
    /// there, with nothing cached and the given normal in the first body's frame.
    pub fn add_penetration_constraint(&mut self, config: ConstraintConfig, normal: Vector3)
        requires
            old(self).wf(),
        ensures
            final(self).wf(),
            final(self).configs() == old(self).configs().push(config),
            final(self).states() == old(self).states().push(
                Constraint::Penetration(
                    ConstraintPenetration { normal, ..ConstraintPenetration::new_spec() },
                ),
            ),
    {
        let mut constraint = ConstraintPenetration::new();
        constraint.normal = normal;
        self.configs.push(config);
        self.states.push(Constraint::Penetration(constraint));
    }

    /// All linkages, in the order of insertion.
    pub fn all_configs(&self) -> (r: &Vec<ConstraintConfig>)
        ensures
            r@ == self.configs(),
    {
        &self.configs
    }

    /// The state of constraint `index`.
    pub fn state(&self, index: usize) -> (r: Constraint)
        requires
            self.wf(),
            index < self.configs().len(),
        ensures
            r == self.states()[index as int],
    {
        self.states[index]
    }

    /// Replaces the state of constraint `index`; everything else stays.
    pub fn set_state(&mut self, index: usize, state: Constraint)
        requires
            old(self).wf(),
            index < old(self).configs().len(),
        ensures
            final(self).wf(),
            final(self).configs() == old(self).configs(),
            final(self).states() == old(self).states().update(index as int, state),
    {
        self.states.set(index, state);
    }

    /// Sets the two anchors of constraint `index`; everything else stays.
    pub fn set_anchors(&mut self, index: usize, anchor_a: Vector3, anchor_b: Vector3)
        requires
            old(self).wf(),
            index < old(self).configs().len(),
        ensures
            final(self).wf(),
            final(self).configs() == old(self).configs().update(
                index as int,
                (ConstraintConfig { anchor_a, anchor_b, ..old(self).configs()[index as int] }),
            ),
            final(self).states() == old(self).states(),
    {
        let before = self.configs[index];
        self.configs.set(
            index,
            ConstraintConfig {
                handle_a: before.handle_a,
                handle_b: before.handle_b,
                anchor_a,
                axis_a: before.axis_a,
                anchor_b,
                axis_b: before.axis_b,
            },
        );
    }
}

} // verus!
