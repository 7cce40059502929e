use vstd::prelude::*;
use vstd::std_specs::ops::{AddSpec, DivSpec, MulSpec, SubSpec};
use core::ops::{Add, Div, Mul, Sub};

verus! {

/// A point or direction in three-dimensional space.
///
/// All three components share the scalar type `T`. The value is immutable:
/// every operation builds a new vector. Arithmetic goes through `T`'s own
/// operators, so the contracts below are stated with vstd's specifications of
/// those operators (`add_spec`, `mul_spec`, ...). For the primitive integer
/// types these are the exact mathematical results, and the matching `*_req`
/// predicates say that no intermediate value leaves `T`'s range.
#[derive(Clone, Copy, PartialEq, Eq, Debug, Structural)]
pub struct Vec3<T> {
    pub x: T,
    pub y: T,
    pub z: T,
}

impl<T: Copy> Vec3<T> {
    /// Creates a vector with the given components.
    pub fn new(x: T, y: T, z: T) -> (r: Self)
        ensures
            r == (Vec3 { x, y, z }),
    {
        Vec3 { x, y, z }
    }
}

impl<T> Vec3<T> where T: Copy + Add<Output = T> + Mul<Output = T> {
    /// `self.x * rhs.x + self.y * rhs.y + self.z * rhs.z`, with `T`'s own operators.
    pub open spec fn dot_spec(self, rhs: Self) -> T {
        self.x.mul_spec(rhs.x).add_spec(self.y.mul_spec(rhs.y)).add_spec(self.z.mul_spec(rhs.z))
    }

    /// Every step of the dot product is defined: `T`'s `+` and `*` follow
    /// their specification and none of the products or sums leaves `T`'s range.
    pub open spec fn dot_req(self, rhs: Self) -> bool {
        &&& T::obeys_add_spec()
        &&& T::obeys_mul_spec()
        &&& self.x.mul_req(rhs.x)
        &&& self.y.mul_req(rhs.y)
        &&& self.z.mul_req(rhs.z)
        &&& self.x.mul_spec(rhs.x).add_req(self.y.mul_spec(rhs.y))
        &&& self.x.mul_spec(rhs.x).add_spec(self.y.mul_spec(rhs.y)).add_req(self.z.mul_spec(rhs.z))
    }

    /// Returns the dot product of two vectors.
    pub fn dot(&self, rhs: &Vec3<T>) -> (r: T)
        requires
            self.dot_req(*rhs),
        ensures
            r == self.dot_spec(*rhs),
    {
        self.x * rhs.x + self.y * rhs.y + self.z * rhs.z
    }
}

impl<T> Vec3<T> where T: Copy + Sub<Output = T> + Mul<Output = T> {
    /// `(y1*z2 - z1*y2, z1*x2 - x1*z2, x1*y2 - y1*x2)`, with `T`'s own operators.
    pub open spec fn cross_spec(self, rhs: Self) -> Self {
        Vec3 {
            x: self.y.mul_spec(rhs.z).sub_spec(self.z.mul_spec(rhs.y)),
            y: self.z.mul_spec(rhs.x).sub_spec(self.x.mul_spec(rhs.z)),
            z: self.x.mul_spec(rhs.y).sub_spec(self.y.mul_spec(rhs.x)),
        }
    }

    /// Every step of the cross product is defined: `T`'s `-` and `*` follow
    /// their specification and none of the six products or three differences
    /// leaves `T`'s range.
    pub open spec fn cross_req(self, rhs: Self) -> bool {
        &&& T::obeys_sub_spec()
        &&& T::obeys_mul_spec()
        &&& self.y.mul_req(rhs.z)
        &&& self.z.mul_req(rhs.y)
        &&& self.z.mul_req(rhs.x)
        &&& self.x.mul_req(rhs.z)
        &&& self.x.mul_req(rhs.y)
        &&& self.y.mul_req(rhs.x)
        &&& self.y.mul_spec(rhs.z).sub_req(self.z.mul_spec(rhs.y))
        &&& self.z.mul_spec(rhs.x).sub_req(self.x.mul_spec(rhs.z))
        &&& self.x.mul_spec(rhs.y).sub_req(self.y.mul_spec(rhs.x))
    }

    /// Returns the cross product of two vectors.
    pub fn cross(&self, rhs: &Vec3<T>) -> (r: Vec3<T>)
        requires
            self.cross_req(*rhs),
        ensures
            r == self.cross_spec(*rhs),
    {
        Vec3 {
            x: self.y * rhs.z - self.z * rhs.y,
            y: self.z * rhs.x - self.x * rhs.z,
            z: self.x * rhs.y - self.y * rhs.x,
        }
    }
}

/// Componentwise sum.
impl<T> Add for Vec3<T> where T: Copy + Add<Output = T> {
    type Output = Vec3<T>;

    fn add(self, other: Vec3<T>) -> Vec3<T> {
        Vec3 { x: self.x + other.x, y: self.y + other.y, z: self.z + other.z }
    }
}

impl<T> vstd::std_specs::ops::AddSpecImpl for Vec3<T> where T: Copy + Add<Output = T> {
    open spec fn obeys_add_spec() -> bool {
        T::obeys_add_spec()
    }

    open spec fn add_req(self, rhs: Vec3<T>) -> bool {
        &&& self.x.add_req(rhs.x)
        &&& self.y.add_req(rhs.y)
        &&& self.z.add_req(rhs.z)
    }

    open spec fn add_spec(self, rhs: Vec3<T>) -> Vec3<T> {
        Vec3 { x: self.x.add_spec(rhs.x), y: self.y.add_spec(rhs.y), z: self.z.add_spec(rhs.z) }
    }
}

/// Each component plus the scalar.
impl<T> Add<T> for Vec3<T> where T: Copy + Add<Output = T> {
    type Output = Vec3<T>;

    fn add(self, other: T) -> Vec3<T> {
        Vec3 { x: self.x + other, y: self.y + other, z: self.z + other }
    }
}

impl<T> vstd::std_specs::ops::AddSpecImpl<T> for Vec3<T> where T: Copy + Add<Output = T> {
    open spec fn obeys_add_spec() -> bool {
        T::obeys_add_spec()
    }

    open spec fn add_req(self, rhs: T) -> bool {
        &&& self.x.add_req(rhs)
        &&& self.y.add_req(rhs)
        &&& self.z.add_req(rhs)
    }

    open spec fn add_spec(self, rhs: T) -> Vec3<T> {
        Vec3 { x: self.x.add_spec(rhs), y: self.y.add_spec(rhs), z: self.z.add_spec(rhs) }
    }
}

/// Componentwise difference.
impl<T> Sub for Vec3<T> where T: Copy + Sub<Output = T> {
    type Output = Vec3<T>;

    fn sub(self, other: Vec3<T>) -> Vec3<T> {
        Vec3 { x: self.x - other.x, y: self.y - other.y, z: self.z - other.z }
    }
}

impl<T> vstd::std_specs::ops::SubSpecImpl for Vec3<T> where T: Copy + Sub<Output = T> {
    open spec fn obeys_sub_spec() -> bool {
        T::obeys_sub_spec()
    }

    open spec fn sub_req(self, rhs: Vec3<T>) -> bool {
        &&& self.x.sub_req(rhs.x)
        &&& self.y.sub_req(rhs.y)
        &&& self.z.sub_req(rhs.z)
    }

    open spec fn sub_spec(self, rhs: Vec3<T>) -> Vec3<T> {
        Vec3 { x: self.x.sub_spec(rhs.x), y: self.y.sub_spec(rhs.y), z: self.z.sub_spec(rhs.z) }
    }
}

/// Each component minus the scalar.
impl<T> Sub<T> for Vec3<T> where T: Copy + Sub<Output = T> {
    type Output = Vec3<T>;

    fn sub(self, other: T) -> Vec3<T> {
        Vec3 { x: self.x - other, y: self.y - other, z: self.z - other }
    }
}

impl<T> vstd::std_specs::ops::SubSpecImpl<T> for Vec3<T> where T: Copy + Sub<Output = T> {
    open spec fn obeys_sub_spec() -> bool {
        T::obeys_sub_spec()
    }

    open spec fn sub_req(self, rhs: T) -> bool {
        &&& self.x.sub_req(rhs)
        &&& self.y.sub_req(rhs)
        &&& self.z.sub_req(rhs)
    }

    open spec fn sub_spec(self, rhs: T) -> Vec3<T> {
        Vec3 { x: self.x.sub_spec(rhs), y: self.y.sub_spec(rhs), z: self.z.sub_spec(rhs) }
    }
}

/// Vector times vector is the cross product, not a componentwise product.
impl<T> Mul for Vec3<T> where T: Copy + Sub<Output = T> + Mul<Output = T> {
    type Output = Vec3<T>;

    fn mul(self, other: Vec3<T>) -> Vec3<T> {
        self.cross(&other)
    }
}

impl<T> vstd::std_specs::ops::MulSpecImpl for Vec3<T> where T: Copy + Sub<Output = T> + Mul<Output = T> {
    open spec fn obeys_mul_spec() -> bool {
        true
    }

    open spec fn mul_req(self, rhs: Vec3<T>) -> bool {
        self.cross_req(rhs)
    }

    open spec fn mul_spec(self, rhs: Vec3<T>) -> Vec3<T> {
        self.cross_spec(rhs)
    }
}

/// Each component times the scalar.
impl<T> Mul<T> for Vec3<T> where T: Copy + Mul<Output = T> {
    type Output = Vec3<T>;

    fn mul(self, other: T) -> Vec3<T> {
        Vec3 { x: self.x * other, y: self.y * other, z: self.z * other }
    }
}

impl<T> vstd::std_specs::ops::MulSpecImpl<T> for Vec3<T> where T: Copy + Mul<Output = T> {
    open spec fn obeys_mul_spec() -> bool {
        T::obeys_mul_spec()
    }

    open spec fn mul_req(self, rhs: T) -> bool {
        &&& self.x.mul_req(rhs)
        &&& self.y.mul_req(rhs)
        &&& self.z.mul_req(rhs)
    }

    open spec fn mul_spec(self, rhs: T) -> Vec3<T> {
        Vec3 { x: self.x.mul_spec(rhs), y: self.y.mul_spec(rhs), z: self.z.mul_spec(rhs) }
    }
}

/// Each component divided by the scalar, with `T`'s own division (truncating
/// for the integer types). Division by zero is ruled out by `T`'s `div_req`.
impl<T> Div<T> for Vec3<T> where T: Copy + Div<Output = T> {
    type Output = Vec3<T>;

    fn div(self, other: T) -> Vec3<T> {
        Vec3 { x: self.x / other, y: self.y / other, z: self.z / other }
    }
}

impl<T> vstd::std_specs::ops::DivSpecImpl<T> for Vec3<T> where T: Copy + Div<Output = T> {
    open spec fn obeys_div_spec() -> bool {
        T::obeys_div_spec()
    }

    open spec fn div_req(self, rhs: T) -> bool {
        &&& self.x.div_req(rhs)
        &&& self.y.div_req(rhs)
        &&& self.z.div_req(rhs)
    }

    open spec fn div_spec(self, rhs: T) -> Vec3<T> {
        Vec3 { x: self.x.div_spec(rhs), y: self.y.div_spec(rhs), z: self.z.div_spec(rhs) }
    }
}

/// The `*` operator between two vectors is the cross product: it is defined
/// on exactly the same operands as `cross` and gives the same vector.
pub proof fn lemma_mul_is_cross<T>(a: Vec3<T>, b: Vec3<T>)
    where T: Copy + Sub<Output = T> + Mul<Output = T>
    ensures
        <Vec3<T> as MulSpec<Vec3<T>>>::obeys_mul_spec(),
        a.mul_req(b) == a.cross_req(b),
        a.mul_spec(b) == a.cross_spec(b),
{
}

/// Vector equality is exact and componentwise: it is reflexive and symmetric,
/// and two vectors differ as soon as one component differs.
pub proof fn lemma_eq_componentwise<T>(a: Vec3<T>, b: Vec3<T>)
    ensures
        a == a,
        (a == b) == (b == a),
        (a == b) <==> (a.x == b.x && a.y == b.y && a.z == b.z),
{
}

/// On `i32` vectors the dot product is the integer sum of the componentwise
/// products, whenever every step of it stays in range.
pub proof fn lemma_dot_i32(a: Vec3<i32>, b: Vec3<i32>)
    requires
        a.dot_req(b),
    ensures
        a.dot_spec(b) as int == a.x * b.x + a.y * b.y + a.z * b.z,
{
}

/// On `i64` vectors the dot product is the integer sum of the componentwise
/// products, whenever every step of it stays in range.
pub proof fn lemma_dot_i64(a: Vec3<i64>, b: Vec3<i64>)
    requires
        a.dot_req(b),
    ensures
        a.dot_spec(b) as int == a.x * b.x + a.y * b.y + a.z * b.z,
{
}

/// On `i32` vectors the cross product is the integer formula
/// `(ay*bz - az*by, az*bx - ax*bz, ax*by - ay*bx)`, whenever every step of it
/// stays in range.
pub proof fn lemma_cross_i32(a: Vec3<i32>, b: Vec3<i32>)
    requires
        a.cross_req(b),
    ensures
        a.cross_spec(b).x as int == a.y * b.z - a.z * b.y,
        a.cross_spec(b).y as int == a.z * b.x - a.x * b.z,
        a.cross_spec(b).z as int == a.x * b.y - a.y * b.x,
{
}

/// On `i64` vectors the cross product is the integer formula
/// `(ay*bz - az*by, az*bx - ax*bz, ax*by - ay*bx)`, whenever every step of it
/// stays in range.
pub proof fn lemma_cross_i64(a: Vec3<i64>, b: Vec3<i64>)
    requires
        a.cross_req(b),
    ensures
        a.cross_spec(b).x as int == a.y * b.z - a.z * b.y,
        a.cross_spec(b).y as int == a.z * b.x - a.x * b.z,
        a.cross_spec(b).z as int == a.x * b.y - a.y * b.x,
{
}

/// The cross product of `i32` vectors is anticommutative: `a × b` is the
/// componentwise negation of `b × a`, whenever both are defined.
pub proof fn lemma_cross_anticommutative_i32(a: Vec3<i32>, b: Vec3<i32>)
    requires
        a.cross_req(b),
        b.cross_req(a),
    ensures
        a.cross_spec(b).x == -b.cross_spec(a).x,
        a.cross_spec(b).y == -b.cross_spec(a).y,
        a.cross_spec(b).z == -b.cross_spec(a).z,
{
    assert(a.y * b.z == b.z * a.y) by (nonlinear_arith);
    assert(a.z * b.y == b.y * a.z) by (nonlinear_arith);
    assert(a.z * b.x == b.x * a.z) by (nonlinear_arith);
    assert(a.x * b.z == b.z * a.x) by (nonlinear_arith);
    assert(a.x * b.y == b.y * a.x) by (nonlinear_arith);
    assert(a.y * b.x == b.x * a.y) by (nonlinear_arith);
}

/// The cross product of `i64` vectors is anticommutative: `a × b` is the
/// componentwise negation of `b × a`, whenever both are defined.
pub proof fn lemma_cross_anticommutative_i64(a: Vec3<i64>, b: Vec3<i64>)
    requires
        a.cross_req(b),
        b.cross_req(a),
    ensures
        a.cross_spec(b).x == -b.cross_spec(a).x,
        a.cross_spec(b).y == -b.cross_spec(a).y,
        a.cross_spec(b).z == -b.cross_spec(a).z,
{
    assert(a.y * b.z == b.z * a.y) by (nonlinear_arith);
    assert(a.z * b.y == b.y * a.z) by (nonlinear_arith);
    assert(a.z * b.x == b.x * a.z) by (nonlinear_arith);
    assert(a.x * b.z == b.z * a.x) by (nonlinear_arith);
    assert(a.x * b.y == b.y * a.x) by (nonlinear_arith);
    assert(a.y * b.x == b.x * a.y) by (nonlinear_arith);
}

} // verus!
