//! Bodies, handles and the arena that owns the bodies.

use vstd::prelude::*;

verus! {

/// Bit pattern of the single-precision value `0.0`.
pub const ZERO: u32 = 0;

/// Bit pattern of the single-precision value `-0.0`.
pub const NEG_ZERO: u32 = 0x8000_0000;

/// Bit pattern of the single-precision value `0.5`.
pub const HALF: u32 = 0x3f00_0000;

/// Bit pattern of the single-precision value `1.0`.
pub const ONE: u32 = 0x3f80_0000;

/// Bit pattern of positive infinity, the largest pattern that is a positive number.
pub const INFINITY: u32 = 0x7f80_0000;

/// True when `bits` is the pattern of `0.0` or of `-0.0`.
pub open spec fn is_zero_bits(bits: u32) -> bool {
    bits == ZERO || bits == NEG_ZERO
}

/// True when `bits` is the pattern of a number strictly greater than zero
/// (infinity included, NaN excluded).
pub open spec fn is_positive_bits(bits: u32) -> bool {
    ZERO < bits && bits <= INFINITY
}

/// Decides whether a bit pattern stands for zero of either sign.
pub fn is_zero(bits: u32) -> (r: bool)
    ensures
        r == is_zero_bits(bits),
{
    bits == ZERO || bits == NEG_ZERO
}

/// Decides whether a bit pattern stands for a number strictly greater than zero.
pub fn is_positive(bits: u32) -> (r: bool)
    ensures
        r == is_positive_bits(bits),
{
    ZERO < bits && bits <= INFINITY
}

/// A point or direction in space; each component is a single-precision bit pattern.
#[derive(Clone, Copy, Debug, PartialEq, Eq, Structural)]
pub struct Vector3 {
    pub x: u32,
    pub y: u32,
    pub z: u32,
}

impl Vector3 {
    /// The vector whose three components are `bits`.
    pub open spec fn splat_spec(bits: u32) -> Vector3 {
        Vector3 { x: bits, y: bits, z: bits }
    }

    /// The vector with the given components.
    pub fn new(x: u32, y: u32, z: u32) -> (r: Vector3)
        ensures
            r == (Vector3 { x, y, z }),
    {
        Vector3 { x, y, z }
    }

    /// The vector whose three components are `bits`.
    pub fn splat(bits: u32) -> (r: Vector3)
        ensures
            r == Vector3::splat_spec(bits),
    {
        Vector3 { x: bits, y: bits, z: bits }
    }

    /// The zero vector.
    pub fn zero() -> (r: Vector3)
        ensures
            r == Vector3::splat_spec(ZERO),
    {
        Vector3 { x: ZERO, y: ZERO, z: ZERO }
    }
}

/// A rotation as a quaternion; each component is a single-precision bit pattern.
#[derive(Clone, Copy, Debug, PartialEq, Eq, Structural)]
pub struct Quaternion {
    pub x: u32,
    pub y: u32,
    pub z: u32,
    pub w: u32,
}

impl Quaternion {
    /// The rotation that turns nothing: `(0, 0, 0, 1)`.
    pub open spec fn identity_spec() -> Quaternion {
        Quaternion { x: ZERO, y: ZERO, z: ZERO, w: ONE }
    }

    /// The rotation that turns nothing.
    pub fn identity() -> (r: Quaternion)
        ensures
            r == Quaternion::identity_spec(),
    {
        Quaternion { x: ZERO, y: ZERO, z: ZERO, w: ONE }
    }
}

/// Which collision shape a body carries. The geometry itself lives with the
/// collision code; a body only names its shape.
#[derive(Clone, Copy, Debug, PartialEq, Eq, Structural)]
pub enum Shape {
    UnitSphere,
    BoxGround,
    BoxWall0,
    BoxWall1,
    BoxSmall,
}

/// A rigid body.
#[derive(Clone, Copy, Debug, PartialEq, Eq, Structural)]
pub struct Body {
    pub position: Vector3,
    pub orientation: Quaternion,
    pub linear_velocity: Vector3,
    pub angular_velocity: Vector3,
    /// Inverse mass; zero of either sign means the body cannot be moved.
    pub inv_mass: u32,
    pub elasticity: u32,
    pub friction: u32,
    pub shape: Shape,
}

impl Body {
    /// A body at rest at the origin with unit mass, elasticity and friction
    /// one half, and a unit sphere for a shape.
    pub open spec fn default_spec() -> Body {
        Body {
            position: Vector3::splat_spec(ZERO),
            orientation: Quaternion::identity_spec(),
            linear_velocity: Vector3::splat_spec(ZERO),
            angular_velocity: Vector3::splat_spec(ZERO),
            inv_mass: ONE,
            elasticity: HALF,
            friction: HALF,
            shape: Shape::UnitSphere,
        }
    }

    /// True when the body has infinite mass, that is inverse mass zero.
    pub open spec fn is_static(&self) -> bool {
        is_zero_bits(self.inv_mass)
    }

    /// Decides whether the body has infinite mass.
    pub fn has_infinite_mass(&self) -> (r: bool)
        ensures
            r == self.is_static(),
    {
        is_zero(self.inv_mass)
    }
}

impl Default for Body {
    fn default() -> (r: Body)
        ensures
            r == Body::default_spec(),
    {
        Body {
            position: Vector3::zero(),
            orientation: Quaternion::identity(),
            linear_velocity: Vector3::zero(),
            angular_velocity: Vector3::zero(),
            inv_mass: ONE,
            elasticity: HALF,
            friction: HALF,
            shape: Shape::UnitSphere,
        }
    }
}

/// A stable name for a body: its position in the arena.
#[derive(Clone, Copy, Debug, PartialEq, Eq, Structural)]
pub struct BodyHandle {
    pub index: usize,
}

/// Owner of all bodies. A handle, once handed out, names the same body until
/// the arena is cleared.
pub struct BodyArena {
    bodies: Vec<Body>,
    colors: Vec<Vector3>,
    handles: Vec<BodyHandle>,
}

impl BodyArena {
    /// The bodies, in the order in which they were added.
    pub closed spec fn view(&self) -> Seq<Body> {
        self.bodies@
    }

    /// The colour of each body, in the same order.
    pub closed spec fn colors(&self) -> Seq<Vector3> {
        self.colors@
    }

    /// The handles, in the same order.
    pub closed spec fn handle_seq(&self) -> Seq<BodyHandle> {
        self.handles@
    }

    /// Every body has a colour and a handle, and the handle at place `i` is `i`.
    pub closed spec fn wf(&self) -> bool {
        &&& self.colors@.len() == self.bodies@.len()
        &&& self.handles@.len() == self.bodies@.len()
        &&& forall|i: int| 0 <= i < self.handles@.len() ==> (#[trigger] self.handles@[i]).index == i
    }

    /// True when `handle` names a body of this arena.
    pub open spec fn contains(&self, handle: BodyHandle) -> bool {
        handle.index < self@.len()
    }

    /// An arena without bodies.
    pub fn new() -> (r: BodyArena)
        ensures
            r.wf(),
            r@ == Seq::<Body>::empty(),
            r.colors() == Seq::<Vector3>::empty(),
    {
        BodyArena { bodies: Vec::new(), colors: Vec::new(), handles: Vec::new() }
    }

    /// Adds a body with the colour white and returns its handle.
    pub fn add(&mut self, body: Body) -> (handle: BodyHandle)
        requires
            old(self).wf(),
        ensures
            final(self).wf(),
            final(self)@ == old(self)@.push(body),
            final(self).colors() == old(self).colors().push(Vector3::splat_spec(ONE)),
            handle.index == old(self)@.len(),
    {
        self.add_with_color(body, Vector3::splat(ONE))
    }

    /// Adds a body with a colour and returns its handle.
    pub fn add_with_color(&mut self, body: Body, color: Vector3) -> (handle: BodyHandle)
        requires
            old(self).wf(),
        ensures
            final(self).wf(),
            final(self)@ == old(self)@.push(body),
            final(self).colors() == old(self).colors().push(color),
            handle.index == old(self)@.len(),
    {
        let handle = BodyHandle { index: self.bodies.len() };
        self.bodies.push(body);
        self.colors.push(color);
        self.handles.push(handle);
        handle
    }

    /// The body that `handle` names.
    pub fn get_body(&self, handle: BodyHandle) -> (body: &Body)
        requires
            self.wf(),
            self.contains(handle),
        ensures
            *body == self@[handle.index as int],
    {
        &self.bodies[handle.index]
    }

    /// The body that `handle` names, with its colour.
    pub fn get_body_with_color(&self, handle: BodyHandle) -> (r: (&Body, Vector3))
        requires
            self.wf(),
            self.contains(handle),
        ensures
            *r.0 == self@[handle.index as int],
            r.1 == self.colors()[handle.index as int],
    {
        (&self.bodies[handle.index], self.colors[handle.index])
    }

    /// Replaces the body that `handle` names; every other body, every colour
    /// and every handle stays.
    pub fn set_body(&mut self, handle: BodyHandle, body: Body)
        requires
            old(self).wf(),
            old(self).contains(handle),
        ensures
            final(self).wf(),
            final(self)@ == old(self)@.update(handle.index as int, body),
            final(self).colors() == old(self).colors(),
    {
        self.bodies.set(handle.index, body);
    }

    /// The two bodies that two different handles name.
    pub fn get_body_pair(&self, a: BodyHandle, b: BodyHandle) -> (pair: (&Body, &Body))
        requires
            self.wf(),
            self.contains(a),
            self.contains(b),
            a != b,
        ensures
            *pair.0 == self@[a.index as int],
            *pair.1 == self@[b.index as int],
    {
        (&self.bodies[a.index], &self.bodies[b.index])
    }

    /// Replaces the two bodies that two different handles name; every other
    /// body, every colour and every handle stays.
    pub fn set_body_pair(&mut self, a: BodyHandle, body_a: Body, b: BodyHandle, body_b: Body)
        requires
            old(self).wf(),
            old(self).contains(a),
            old(self).contains(b),
            a != b,
        ensures
            final(self).wf(),
            final(self)@ == old(self)@.update(a.index as int, body_a).update(b.index as int, body_b),
            final(self).colors() == old(self).colors(),
    {
        self.bodies.set(a.index, body_a);
        self.bodies.set(b.index, body_b);
    }

    /// The number of bodies.
    pub fn len(&self) -> (n: usize)
        ensures
            n == self@.len(),
    {
        self.bodies.len()
    }

    /// Removes every body.
    pub fn clear(&mut self)
        ensures
            final(self).wf(),
            final(self)@ == Seq::<Body>::empty(),
            final(self).colors() == Seq::<Vector3>::empty(),
    {
        self.bodies.clear();
        self.colors.clear();
        self.handles.clear();
    }

    /// The handles of all bodies, in the order in which the bodies were added.
    pub fn handles(&self) -> (r: &Vec<BodyHandle>)
        requires
            self.wf(),
        ensures
            r@.len() == self@.len(),
            forall|i: int| 0 <= i < r@.len() ==> (#[trigger] r@[i]).index == i,
    {
        &self.handles
    }
}

} // verus!
