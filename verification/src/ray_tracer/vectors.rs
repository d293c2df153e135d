//! Three-component vectors over any scalar that can be added, subtracted and
//! multiplied.
use std::ops::{Add, Div, Mul, Sub};
use vstd::prelude::*;
use vstd::std_specs::ops::{AddSpec, DivSpec, MulSpec, SubSpec};

verus! {

pub struct Vec3<T> {
    pub x: T,
    pub y: T,
    pub z: T,
}

impl<T> Vec3<T> where T: Add<T, Output = T> + Mul<T, Output = T> + Sub<T, Output = T> + Copy {
    /// The scalar's `+`, `*` and `-` compute what `add_spec`, `mul_spec` and
    /// `sub_spec` say.
    pub open spec fn scalar_obeys() -> bool {
        T::obeys_add_spec() && T::obeys_mul_spec() && T::obeys_sub_spec()
    }

    /// The sum of three scalars can be formed, left to right.
    pub open spec fn sum3_req(a: T, b: T, c: T) -> bool {
        a.add_req(b) && a.add_spec(b).add_req(c)
    }

    /// The sum of three scalars, left to right.
    pub open spec fn sum3(a: T, b: T, c: T) -> T {
        a.add_spec(b).add_spec(c)
    }

    /// The difference of two products, `a * b - c * d`, can be formed.
    pub open spec fn det2_req(a: T, b: T, c: T, d: T) -> bool {
        a.mul_req(b) && c.mul_req(d) && a.mul_spec(b).sub_req(c.mul_spec(d))
    }

    /// The difference of two products, `a * b - c * d`.
    pub open spec fn det2(a: T, b: T, c: T, d: T) -> T {
        a.mul_spec(b).sub_spec(c.mul_spec(d))
    }

    /// Every operation of the dot product is within the scalar's range.
    pub open spec fn dot_req(self, v: Self) -> bool {
        &&& self.x.mul_req(v.x)
        &&& self.y.mul_req(v.y)
        &&& self.z.mul_req(v.z)
        &&& Self::sum3_req(self.x.mul_spec(v.x), self.y.mul_spec(v.y), self.z.mul_spec(v.z))
    }

    /// The dot product `x * v.x + y * v.y + z * v.z`.
    pub open spec fn dot_spec(self, v: Self) -> T {
        Self::sum3(self.x.mul_spec(v.x), self.y.mul_spec(v.y), self.z.mul_spec(v.z))
    }

    /// Every operation of the cross product is within the scalar's range.
    pub open spec fn cross_req(self, v: Self) -> bool {
        &&& Self::det2_req(self.y, v.z, self.z, v.y)
        &&& Self::det2_req(self.z, v.x, self.x, v.z)
        &&& Self::det2_req(self.x, v.y, self.y, v.x)
    }

    /// The cross product, component by component.
    pub open spec fn cross_spec(self, v: Self) -> Self {
        Vec3 {
            x: Self::det2(self.y, v.z, self.z, v.y),
            y: Self::det2(self.z, v.x, self.x, v.z),
            z: Self::det2(self.x, v.y, self.y, v.x),
        }
    }

    pub fn new(x: T, y: T, z: T) -> (r: Self)
        ensures
            r == (Vec3 { x, y, z }),
    {
        Self { x, y, z }
    }

    #[inline]
    pub fn dot(&self, v: Self) -> (r: T)
        requires
            Self::scalar_obeys(),
            self.dot_req(v),
        ensures
            r == self.dot_spec(v),
    {
        self.x * v.x + self.y * v.y + self.z * v.z
    }

    #[inline]
    pub fn cross(&self, v: Self) -> (r: Self)
        requires
            Self::scalar_obeys(),
            self.cross_req(v),
        ensures
            r == self.cross_spec(v),
    {
        Self {
            x: self.y * v.z - self.z * v.y,
            y: self.z * v.x - self.x * v.z,
            z: self.x * v.y - self.y * v.x,
        }
    }

    #[inline]
    pub fn length_squared(&self) -> (r: T)
        requires
            Self::scalar_obeys(),
            self.dot_req(*self),
        ensures
            r == self.dot_spec(*self),
    {
        self.x * self.x + self.y * self.y + self.z * self.z
    }

    /// The vector scaled by `division`. With the reciprocal of the vector's
    /// length for `division` this is the unit vector of the same direction;
    /// the caller forms that reciprocal, which takes a square root.
    #[inline]
    pub fn unit(self, division: T) -> (r: Self)
        requires
            Self::scalar_obeys(),
            self.x.mul_req(division),
            self.y.mul_req(division),
            self.z.mul_req(division),
        ensures
            r == (Vec3 {
                x: self.x.mul_spec(division),
                y: self.y.mul_spec(division),
                z: self.z.mul_spec(division),
            }),
    {
        self * division
    }
}

impl<T> Add for Vec3<T> where T: Add<T, Output = T> {
    type Output = Self;

    #[inline]
    fn add(self, rhs: Vec3<T>) -> (r: Self::Output) {
        Self { x: self.x + rhs.x, y: self.y + rhs.y, z: self.z + rhs.z }
    }
}

impl<T> vstd::std_specs::ops::AddSpecImpl for Vec3<T> where T: Add<T, Output = T> {
    open spec fn obeys_add_spec() -> bool {
        T::obeys_add_spec()
    }

    open spec fn add_req(self, rhs: Vec3<T>) -> bool {
        self.x.add_req(rhs.x) && self.y.add_req(rhs.y) && self.z.add_req(rhs.z)
    }

    open spec fn add_spec(self, rhs: Vec3<T>) -> Self::Output {
        Vec3 { x: self.x.add_spec(rhs.x), y: self.y.add_spec(rhs.y), z: self.z.add_spec(rhs.z) }
    }
}

impl<T> Sub for Vec3<T> where T: Sub<T, Output = T> {
    type Output = Self;

    #[inline]
    fn sub(self, rhs: Vec3<T>) -> (r: Self::Output) {
        Self { x: self.x - rhs.x, y: self.y - rhs.y, z: self.z - rhs.z }
    }
}

impl<T> vstd::std_specs::ops::SubSpecImpl for Vec3<T> where T: Sub<T, Output = T> {
    open spec fn obeys_sub_spec() -> bool {
        T::obeys_sub_spec()
    }

    open spec fn sub_req(self, rhs: Vec3<T>) -> bool {
        self.x.sub_req(rhs.x) && self.y.sub_req(rhs.y) && self.z.sub_req(rhs.z)
    }

    open spec fn sub_spec(self, rhs: Vec3<T>) -> Self::Output {
        Vec3 { x: self.x.sub_spec(rhs.x), y: self.y.sub_spec(rhs.y), z: self.z.sub_spec(rhs.z) }
    }
}

impl<T> Mul<T> for Vec3<T> where T: Mul<T, Output = T> + Copy {
    type Output = Self;

    #[inline]
    fn mul(self, rhs: T) -> (r: Self::Output) {
        Self { x: self.x * rhs, y: self.y * rhs, z: self.z * rhs }
    }
}

impl<T> vstd::std_specs::ops::MulSpecImpl<T> for Vec3<T> where T: Mul<T, Output = T> + Copy {
    open spec fn obeys_mul_spec() -> bool {
        T::obeys_mul_spec()
    }

    open spec fn mul_req(self, rhs: T) -> bool {
        self.x.mul_req(rhs) && self.y.mul_req(rhs) && self.z.mul_req(rhs)
    }

    open spec fn mul_spec(self, rhs: T) -> Self::Output {
        Vec3 { x: self.x.mul_spec(rhs), y: self.y.mul_spec(rhs), z: self.z.mul_spec(rhs) }
    }
}

impl<T> Div<T> for Vec3<T> where T: Div<T, Output = T> + Copy {
    type Output = Self;

    #[inline]
    fn div(self, rhs: T) -> (r: Self::Output) {
        Self { x: self.x / rhs, y: self.y / rhs, z: self.z / rhs }
    }
}

impl<T> vstd::std_specs::ops::DivSpecImpl<T> for Vec3<T> where T: Div<T, Output = T> + Copy {
    open spec fn obeys_div_spec() -> bool {
        T::obeys_div_spec()
    }

    open spec fn div_req(self, rhs: T) -> bool {
        self.x.div_req(rhs) && self.y.div_req(rhs) && self.z.div_req(rhs)
    }

    open spec fn div_spec(self, rhs: T) -> Self::Output {
        Vec3 { x: self.x.div_spec(rhs), y: self.y.div_spec(rhs), z: self.z.div_spec(rhs) }
    }
}

/// On 64-bit integers the sum of two vectors is the vector of the sums.
pub proof fn sum_of_integers(a: Vec3<i64>, b: Vec3<i64>)
    requires
        a.add_req(b),
    ensures
        a.add_spec(b) == (Vec3 { x: (a.x + b.x) as i64, y: (a.y + b.y) as i64, z: (a.z + b.z) as i64 }),
        a.add_spec(b).x == a.x + b.x,
{
}

/// On 64-bit integers the dot product is the sum of the three products.
pub proof fn dot_of_integers(a: Vec3<i64>, b: Vec3<i64>)
    requires
        a.dot_req(b),
    ensures
        a.dot_spec(b) == a.x * b.x + a.y * b.y + a.z * b.z,
{
}

} // verus!
