//! Vectors of two, three and four scalars. Every operator works component by
//! component; with a scalar on the right, the scalar meets every component.
//!
//! An operator can be applied where the scalar's own operator can be applied
//! to each pair of components, and it gives what the scalar's operator gives
//! for each pair.

use crate::maths::mat::{dot4_of, dot4_req, obeys_ring, row, rows_dot, rows_req, Mat4, Mat4Index};
use crate::maths::sqrt::Sqrt;
use std::ops::{Add, AddAssign, Div, DivAssign, Mul, MulAssign, Sub, SubAssign};
use vstd::prelude::*;
use vstd::std_specs::ops::{AddSpec, DivSpec, MulSpec, SubSpec};

verus! {

#[derive(Clone, Copy, Debug, PartialEq, Eq)]
pub struct Vec2<T> {
    pub x: T,
    pub y: T,
}

impl<T> Add<T> for Vec2<T> where T: Add<Output = T> + Copy {
    type Output = Vec2<T>;

    fn add(self, rhs: T) -> Vec2<T> {
        Vec2 { x: self.x + rhs, y: self.y + rhs }
    }
}

impl<T> vstd::std_specs::ops::AddSpecImpl<T> for Vec2<T> where T: Add<Output = T> + Copy {
    open spec fn obeys_add_spec() -> bool {
        T::obeys_add_spec()
    }

    open spec fn add_req(self, rhs: T) -> bool {
        self.x.add_req(rhs) && self.y.add_req(rhs)
    }

    open spec fn add_spec(self, rhs: T) -> Vec2<T> {
        Vec2 { x: self.x.add_spec(rhs), y: self.y.add_spec(rhs) }
    }
}

impl<T> AddAssign<T> for Vec2<T> where T: Add<Output = T> + Copy {
    fn add_assign(&mut self, rhs: T)
        requires
            old(self).x.add_req(rhs),
            old(self).y.add_req(rhs),
        ensures
            T::obeys_add_spec() ==> *final(self) == (Vec2 {
                x: old(self).x.add_spec(rhs),
                y: old(self).y.add_spec(rhs),
            }),
    {
        self.x = self.x + rhs;
        self.y = self.y + rhs;
    }
}

impl<T> Sub<T> for Vec2<T> where T: Sub<Output = T> + Copy {
    type Output = Vec2<T>;

    fn sub(self, rhs: T) -> Vec2<T> {
        Vec2 { x: self.x - rhs, y: self.y - rhs }
    }
}

impl<T> vstd::std_specs::ops::SubSpecImpl<T> for Vec2<T> where T: Sub<Output = T> + Copy {
    open spec fn obeys_sub_spec() -> bool {
        T::obeys_sub_spec()
    }

    open spec fn sub_req(self, rhs: T) -> bool {
        self.x.sub_req(rhs) && self.y.sub_req(rhs)
    }

    open spec fn sub_spec(self, rhs: T) -> Vec2<T> {
        Vec2 { x: self.x.sub_spec(rhs), y: self.y.sub_spec(rhs) }
    }
}

impl<T> SubAssign<T> for Vec2<T> where T: Sub<Output = T> + Copy {
    fn sub_assign(&mut self, rhs: T)
        requires
            old(self).x.sub_req(rhs),
            old(self).y.sub_req(rhs),
        ensures
            T::obeys_sub_spec() ==> *final(self) == (Vec2 {
                x: old(self).x.sub_spec(rhs),
                y: old(self).y.sub_spec(rhs),
            }),
    {
        self.x = self.x - rhs;
        self.y = self.y - rhs;
    }
}

#[derive(Clone, Copy, Debug, PartialEq, Eq)]
pub struct Vec3<T> {
    pub x: T,
    pub y: T,
    pub z: T,
}

impl<T> Add<T> for Vec3<T> where T: Add<Output = T> + Copy {
    type Output = Vec3<T>;

    fn add(self, rhs: T) -> Vec3<T> {
        Vec3 { x: self.x + rhs, y: self.y + rhs, z: self.z + rhs }
    }
}

impl<T> vstd::std_specs::ops::AddSpecImpl<T> for Vec3<T> where T: Add<Output = T> + Copy {
    open spec fn obeys_add_spec() -> bool {
        T::obeys_add_spec()
    }

    open spec fn add_req(self, rhs: T) -> bool {
        self.x.add_req(rhs) && self.y.add_req(rhs) && self.z.add_req(rhs)
    }

    open spec fn add_spec(self, rhs: T) -> Vec3<T> {
        Vec3 { x: self.x.add_spec(rhs), y: self.y.add_spec(rhs), z: self.z.add_spec(rhs) }
    }
}

impl<T> Add<&T> for Vec3<T> where T: Add<Output = T> + Copy {
    type Output = Vec3<T>;

    fn add(self, rhs: &T) -> Vec3<T> {
        Vec3 { x: self.x + *rhs, y: self.y + *rhs, z: self.z + *rhs }
    }
}

impl<T> vstd::std_specs::ops::AddSpecImpl<&T> for Vec3<T> where T: Add<Output = T> + Copy {
    open spec fn obeys_add_spec() -> bool {
        T::obeys_add_spec()
    }

    open spec fn add_req(self, rhs: &T) -> bool {
        self.x.add_req(*rhs) && self.y.add_req(*rhs) && self.z.add_req(*rhs)
    }

    open spec fn add_spec(self, rhs: &T) -> Vec3<T> {
        Vec3 { x: self.x.add_spec(*rhs), y: self.y.add_spec(*rhs), z: self.z.add_spec(*rhs) }
    }
}

impl<T> Add<T> for &Vec3<T> where T: Add<Output = T> + Copy {
    type Output = Vec3<T>;

    fn add(self, rhs: T) -> Vec3<T> {
        Vec3 { x: self.x + rhs, y: self.y + rhs, z: self.z + rhs }
    }
}

impl<T> vstd::std_specs::ops::AddSpecImpl<T> for &Vec3<T> where T: Add<Output = T> + Copy {
    open spec fn obeys_add_spec() -> bool {
        T::obeys_add_spec()
    }

    open spec fn add_req(self, rhs: T) -> bool {
        self.x.add_req(rhs) && self.y.add_req(rhs) && self.z.add_req(rhs)
    }

    open spec fn add_spec(self, rhs: T) -> Vec3<T> {
        Vec3 { x: self.x.add_spec(rhs), y: self.y.add_spec(rhs), z: self.z.add_spec(rhs) }
    }
}

impl<T> Add<&T> for &Vec3<T> where T: Add<Output = T> + Copy {
    type Output = Vec3<T>;

    fn add(self, rhs: &T) -> Vec3<T> {
        Vec3 { x: self.x + *rhs, y: self.y + *rhs, z: self.z + *rhs }
    }
}

impl<T> vstd::std_specs::ops::AddSpecImpl<&T> for &Vec3<T> where T: Add<Output = T> + Copy {
    open spec fn obeys_add_spec() -> bool {
        T::obeys_add_spec()
    }

    open spec fn add_req(self, rhs: &T) -> bool {
        self.x.add_req(*rhs) && self.y.add_req(*rhs) && self.z.add_req(*rhs)
    }

    open spec fn add_spec(self, rhs: &T) -> Vec3<T> {
        Vec3 { x: self.x.add_spec(*rhs), y: self.y.add_spec(*rhs), z: self.z.add_spec(*rhs) }
    }
}

impl<T> Add<Vec3<T>> for Vec3<T> where T: Add<Output = T> + Copy {
    type Output = Vec3<T>;

    fn add(self, rhs: Vec3<T>) -> Vec3<T> {
        Vec3 { x: self.x + rhs.x, y: self.y + rhs.y, z: self.z + rhs.z }
    }
}

impl<T> vstd::std_specs::ops::AddSpecImpl<Vec3<T>> for Vec3<T> where T: Add<Output = T> + Copy {
    open spec fn obeys_add_spec() -> bool {
        T::obeys_add_spec()
    }

    open spec fn add_req(self, rhs: Vec3<T>) -> bool {
        self.x.add_req(rhs.x) && self.y.add_req(rhs.y) && self.z.add_req(rhs.z)
    }

    open spec fn add_spec(self, rhs: Vec3<T>) -> Vec3<T> {
        Vec3 { x: self.x.add_spec(rhs.x), y: self.y.add_spec(rhs.y), z: self.z.add_spec(rhs.z) }
    }
}

impl<T> Add<Vec3<T>> for &Vec3<T> where T: Add<Output = T> + Copy {
    type Output = Vec3<T>;

    fn add(self, rhs: Vec3<T>) -> Vec3<T> {
        Vec3 { x: self.x + rhs.x, y: self.y + rhs.y, z: self.z + rhs.z }
    }
}

impl<T> vstd::std_specs::ops::AddSpecImpl<Vec3<T>> for &Vec3<T> where T: Add<Output = T> + Copy {
    open spec fn obeys_add_spec() -> bool {
        T::obeys_add_spec()
    }

    open spec fn add_req(self, rhs: Vec3<T>) -> bool {
        self.x.add_req(rhs.x) && self.y.add_req(rhs.y) && self.z.add_req(rhs.z)
    }

    open spec fn add_spec(self, rhs: Vec3<T>) -> Vec3<T> {
        Vec3 { x: self.x.add_spec(rhs.x), y: self.y.add_spec(rhs.y), z: self.z.add_spec(rhs.z) }
    }
}

impl<T> Add<&Vec3<T>> for Vec3<T> where T: Add<Output = T> + Copy {
    type Output = Vec3<T>;

    fn add(self, rhs: &Vec3<T>) -> Vec3<T> {
        Vec3 { x: self.x + rhs.x, y: self.y + rhs.y, z: self.z + rhs.z }
    }
}

impl<T> vstd::std_specs::ops::AddSpecImpl<&Vec3<T>> for Vec3<T> where T: Add<Output = T> + Copy {
    open spec fn obeys_add_spec() -> bool {
        T::obeys_add_spec()
    }

    open spec fn add_req(self, rhs: &Vec3<T>) -> bool {
        self.x.add_req(rhs.x) && self.y.add_req(rhs.y) && self.z.add_req(rhs.z)
    }

    open spec fn add_spec(self, rhs: &Vec3<T>) -> Vec3<T> {
        Vec3 { x: self.x.add_spec(rhs.x), y: self.y.add_spec(rhs.y), z: self.z.add_spec(rhs.z) }
    }
}

impl<T> Add<&Vec3<T>> for &Vec3<T> where T: Add<Output = T> + Copy {
    type Output = Vec3<T>;

    fn add(self, rhs: &Vec3<T>) -> Vec3<T> {
        Vec3 { x: self.x + rhs.x, y: self.y + rhs.y, z: self.z + rhs.z }
    }
}

impl<T> vstd::std_specs::ops::AddSpecImpl<&Vec3<T>> for &Vec3<T> where T: Add<Output = T> + Copy {
    open spec fn obeys_add_spec() -> bool {
        T::obeys_add_spec()
    }

    open spec fn add_req(self, rhs: &Vec3<T>) -> bool {
        self.x.add_req(rhs.x) && self.y.add_req(rhs.y) && self.z.add_req(rhs.z)
    }

    open spec fn add_spec(self, rhs: &Vec3<T>) -> Vec3<T> {
        Vec3 { x: self.x.add_spec(rhs.x), y: self.y.add_spec(rhs.y), z: self.z.add_spec(rhs.z) }
    }
}

impl<T> AddAssign<T> for Vec3<T> where T: Add<Output = T> + Copy {
    fn add_assign(&mut self, rhs: T)
        requires
            old(self).x.add_req(rhs),
            old(self).y.add_req(rhs),
            old(self).z.add_req(rhs),
        ensures
            T::obeys_add_spec() ==> *final(self) == (Vec3 {
                x: old(self).x.add_spec(rhs),
                y: old(self).y.add_spec(rhs),
                z: old(self).z.add_spec(rhs),
            }),
    {
        self.x = self.x + rhs;
        self.y = self.y + rhs;
        self.z = self.z + rhs;
    }
}

impl<T> AddAssign<&T> for Vec3<T> where T: Add<Output = T> + Copy {
    fn add_assign(&mut self, rhs: &T)
        requires
            old(self).x.add_req(*rhs),
            old(self).y.add_req(*rhs),
            old(self).z.add_req(*rhs),
        ensures
            T::obeys_add_spec() ==> *final(self) == (Vec3 {
                x: old(self).x.add_spec(*rhs),
                y: old(self).y.add_spec(*rhs),
                z: old(self).z.add_spec(*rhs),
            }),
    {
        self.x = self.x + *rhs;
        self.y = self.y + *rhs;
        self.z = self.z + *rhs;
    }
}

impl<T> AddAssign<Vec3<T>> for Vec3<T> where T: Add<Output = T> + Copy {
    fn add_assign(&mut self, rhs: Vec3<T>)
        requires
            old(self).x.add_req(rhs.x),
            old(self).y.add_req(rhs.y),
            old(self).z.add_req(rhs.z),
        ensures
            T::obeys_add_spec() ==> *final(self) == (Vec3 {
                x: old(self).x.add_spec(rhs.x),
                y: old(self).y.add_spec(rhs.y),
                z: old(self).z.add_spec(rhs.z),
            }),
    {
        self.x = self.x + rhs.x;
        self.y = self.y + rhs.y;
        self.z = self.z + rhs.z;
    }
}

impl<T> AddAssign<&Vec3<T>> for Vec3<T> where T: Add<Output = T> + Copy {
    fn add_assign(&mut self, rhs: &Vec3<T>)
        requires
            old(self).x.add_req(rhs.x),
            old(self).y.add_req(rhs.y),
            old(self).z.add_req(rhs.z),
        ensures
            T::obeys_add_spec() ==> *final(self) == (Vec3 {
                x: old(self).x.add_spec(rhs.x),
                y: old(self).y.add_spec(rhs.y),
                z: old(self).z.add_spec(rhs.z),
            }),
    {
        self.x = self.x + rhs.x;
        self.y = self.y + rhs.y;
        self.z = self.z + rhs.z;
    }
}

impl<T> Sub<T> for Vec3<T> where T: Sub<Output = T> + Copy {
    type Output = Vec3<T>;

    fn sub(self, rhs: T) -> Vec3<T> {
        Vec3 { x: self.x - rhs, y: self.y - rhs, z: self.z - rhs }
    }
}

impl<T> vstd::std_specs::ops::SubSpecImpl<T> for Vec3<T> where T: Sub<Output = T> + Copy {
    open spec fn obeys_sub_spec() -> bool {
        T::obeys_sub_spec()
    }

    open spec fn sub_req(self, rhs: T) -> bool {
        self.x.sub_req(rhs) && self.y.sub_req(rhs) && self.z.sub_req(rhs)
    }

    open spec fn sub_spec(self, rhs: T) -> Vec3<T> {
        Vec3 { x: self.x.sub_spec(rhs), y: self.y.sub_spec(rhs), z: self.z.sub_spec(rhs) }
    }
}

impl<T> Sub<&T> for Vec3<T> where T: Sub<Output = T> + Copy {
    type Output = Vec3<T>;

    fn sub(self, rhs: &T) -> Vec3<T> {
        Vec3 { x: self.x - *rhs, y: self.y - *rhs, z: self.z - *rhs }
    }
}

impl<T> vstd::std_specs::ops::SubSpecImpl<&T> for Vec3<T> where T: Sub<Output = T> + Copy {
    open spec fn obeys_sub_spec() -> bool {
        T::obeys_sub_spec()
    }

    open spec fn sub_req(self, rhs: &T) -> bool {
        self.x.sub_req(*rhs) && self.y.sub_req(*rhs) && self.z.sub_req(*rhs)
    }

    open spec fn sub_spec(self, rhs: &T) -> Vec3<T> {
        Vec3 { x: self.x.sub_spec(*rhs), y: self.y.sub_spec(*rhs), z: self.z.sub_spec(*rhs) }
    }
}

impl<T> Sub<T> for &Vec3<T> where T: Sub<Output = T> + Copy {
    type Output = Vec3<T>;

    fn sub(self, rhs: T) -> Vec3<T> {
        Vec3 { x: self.x - rhs, y: self.y - rhs, z: self.z - rhs }
    }
}

impl<T> vstd::std_specs::ops::SubSpecImpl<T> for &Vec3<T> where T: Sub<Output = T> + Copy {
    open spec fn obeys_sub_spec() -> bool {
        T::obeys_sub_spec()
    }

    open spec fn sub_req(self, rhs: T) -> bool {
        self.x.sub_req(rhs) && self.y.sub_req(rhs) && self.z.sub_req(rhs)
    }

    open spec fn sub_spec(self, rhs: T) -> Vec3<T> {
        Vec3 { x: self.x.sub_spec(rhs), y: self.y.sub_spec(rhs), z: self.z.sub_spec(rhs) }
    }
}

impl<T> Sub<&T> for &Vec3<T> where T: Sub<Output = T> + Copy {
    type Output = Vec3<T>;

    fn sub(self, rhs: &T) -> Vec3<T> {
        Vec3 { x: self.x - *rhs, y: self.y - *rhs, z: self.z - *rhs }
    }
}

impl<T> vstd::std_specs::ops::SubSpecImpl<&T> for &Vec3<T> where T: Sub<Output = T> + Copy {
    open spec fn obeys_sub_spec() -> bool {
        T::obeys_sub_spec()
    }

    open spec fn sub_req(self, rhs: &T) -> bool {
        self.x.sub_req(*rhs) && self.y.sub_req(*rhs) && self.z.sub_req(*rhs)
    }

    open spec fn sub_spec(self, rhs: &T) -> Vec3<T> {
        Vec3 { x: self.x.sub_spec(*rhs), y: self.y.sub_spec(*rhs), z: self.z.sub_spec(*rhs) }
    }
}

impl<T> SubAssign<T> for Vec3<T> where T: Sub<Output = T> + Copy {
    fn sub_assign(&mut self, rhs: T)
        requires
            old(self).x.sub_req(rhs),
            old(self).y.sub_req(rhs),
            old(self).z.sub_req(rhs),
        ensures
            T::obeys_sub_spec() ==> *final(self) == (Vec3 {
                x: old(self).x.sub_spec(rhs),
                y: old(self).y.sub_spec(rhs),
                z: old(self).z.sub_spec(rhs),
            }),
    {
        self.x = self.x - rhs;
        self.y = self.y - rhs;
        self.z = self.z - rhs;
    }
}

impl<T> SubAssign<&T> for Vec3<T> where T: Sub<Output = T> + Copy {
    fn sub_assign(&mut self, rhs: &T)
        requires
            old(self).x.sub_req(*rhs),
            old(self).y.sub_req(*rhs),
            old(self).z.sub_req(*rhs),
        ensures
            T::obeys_sub_spec() ==> *final(self) == (Vec3 {
                x: old(self).x.sub_spec(*rhs),
                y: old(self).y.sub_spec(*rhs),
                z: old(self).z.sub_spec(*rhs),
            }),
    {
        self.x = self.x - *rhs;
        self.y = self.y - *rhs;
        self.z = self.z - *rhs;
    }
}

impl<T> SubAssign<Vec3<T>> for Vec3<T> where T: Sub<Output = T> + Copy {
    fn sub_assign(&mut self, rhs: Vec3<T>)
        requires
            old(self).x.sub_req(rhs.x),
            old(self).y.sub_req(rhs.y),
            old(self).z.sub_req(rhs.z),
        ensures
            T::obeys_sub_spec() ==> *final(self) == (Vec3 {
                x: old(self).x.sub_spec(rhs.x),
                y: old(self).y.sub_spec(rhs.y),
                z: old(self).z.sub_spec(rhs.z),
            }),
    {
        self.x = self.x - rhs.x;
        self.y = self.y - rhs.y;
        self.z = self.z - rhs.z;
    }
}

impl<T> SubAssign<&Vec3<T>> for Vec3<T> where T: Sub<Output = T> + Copy {
    fn sub_assign(&mut self, rhs: &Vec3<T>)
        requires
            old(self).x.sub_req(rhs.x),
            old(self).y.sub_req(rhs.y),
            old(self).z.sub_req(rhs.z),
        ensures
            T::obeys_sub_spec() ==> *final(self) == (Vec3 {
                x: old(self).x.sub_spec(rhs.x),
                y: old(self).y.sub_spec(rhs.y),
                z: old(self).z.sub_spec(rhs.z),
            }),
    {
        self.x = self.x - rhs.x;
        self.y = self.y - rhs.y;
        self.z = self.z - rhs.z;
    }
}

impl<T> Mul<T> for Vec3<T> where T: Mul<Output = T> + Copy {
    type Output = Vec3<T>;

    fn mul(self, rhs: T) -> Vec3<T> {
        Vec3 { x: self.x * rhs, y: self.y * rhs, z: self.z * rhs }
    }
}

impl<T> vstd::std_specs::ops::MulSpecImpl<T> for Vec3<T> where T: Mul<Output = T> + Copy {
    open spec fn obeys_mul_spec() -> bool {
        T::obeys_mul_spec()
    }

    open spec fn mul_req(self, rhs: T) -> bool {
        self.x.mul_req(rhs) && self.y.mul_req(rhs) && self.z.mul_req(rhs)
    }

    open spec fn mul_spec(self, rhs: T) -> Vec3<T> {
        Vec3 { x: self.x.mul_spec(rhs), y: self.y.mul_spec(rhs), z: self.z.mul_spec(rhs) }
    }
}

impl<T> Mul<&T> for Vec3<T> where T: Mul<Output = T> + Copy {
    type Output = Vec3<T>;

    fn mul(self, rhs: &T) -> Vec3<T> {
        Vec3 { x: self.x * *rhs, y: self.y * *rhs, z: self.z * *rhs }
    }
}

impl<T> vstd::std_specs::ops::MulSpecImpl<&T> for Vec3<T> where T: Mul<Output = T> + Copy {
    open spec fn obeys_mul_spec() -> bool {
        T::obeys_mul_spec()
    }

    open spec fn mul_req(self, rhs: &T) -> bool {
        self.x.mul_req(*rhs) && self.y.mul_req(*rhs) && self.z.mul_req(*rhs)
    }

    open spec fn mul_spec(self, rhs: &T) -> Vec3<T> {
        Vec3 { x: self.x.mul_spec(*rhs), y: self.y.mul_spec(*rhs), z: self.z.mul_spec(*rhs) }
    }
}

impl<T> Mul<T> for &Vec3<T> where T: Mul<Output = T> + Copy {
    type Output = Vec3<T>;

    fn mul(self, rhs: T) -> Vec3<T> {
        Vec3 { x: self.x * rhs, y: self.y * rhs, z: self.z * rhs }
    }
}

impl<T> vstd::std_specs::ops::MulSpecImpl<T> for &Vec3<T> where T: Mul<Output = T> + Copy {
    open spec fn obeys_mul_spec() -> bool {
        T::obeys_mul_spec()
    }

    open spec fn mul_req(self, rhs: T) -> bool {
        self.x.mul_req(rhs) && self.y.mul_req(rhs) && self.z.mul_req(rhs)
    }

    open spec fn mul_spec(self, rhs: T) -> Vec3<T> {
        Vec3 { x: self.x.mul_spec(rhs), y: self.y.mul_spec(rhs), z: self.z.mul_spec(rhs) }
    }
}

impl<T> Mul<&T> for &Vec3<T> where T: Mul<Output = T> + Copy {
    type Output = Vec3<T>;

    fn mul(self, rhs: &T) -> Vec3<T> {
        Vec3 { x: self.x * *rhs, y: self.y * *rhs, z: self.z * *rhs }
    }
}

impl<T> vstd::std_specs::ops::MulSpecImpl<&T> for &Vec3<T> where T: Mul<Output = T> + Copy {
    open spec fn obeys_mul_spec() -> bool {
        T::obeys_mul_spec()
    }

    open spec fn mul_req(self, rhs: &T) -> bool {
        self.x.mul_req(*rhs) && self.y.mul_req(*rhs) && self.z.mul_req(*rhs)
    }

    open spec fn mul_spec(self, rhs: &T) -> Vec3<T> {
        Vec3 { x: self.x.mul_spec(*rhs), y: self.y.mul_spec(*rhs), z: self.z.mul_spec(*rhs) }
    }
}

impl<T> Mul<Vec3<T>> for Vec3<T> where T: Mul<Output = T> + Copy {
    type Output = Vec3<T>;

    fn mul(self, rhs: Vec3<T>) -> Vec3<T> {
        Vec3 { x: self.x * rhs.x, y: self.y * rhs.y, z: self.z * rhs.z }
    }
}

impl<T> vstd::std_specs::ops::MulSpecImpl<Vec3<T>> for Vec3<T> where T: Mul<Output = T> + Copy {
    open spec fn obeys_mul_spec() -> bool {
        T::obeys_mul_spec()
    }

    open spec fn mul_req(self, rhs: Vec3<T>) -> bool {
        self.x.mul_req(rhs.x) && self.y.mul_req(rhs.y) && self.z.mul_req(rhs.z)
    }

    open spec fn mul_spec(self, rhs: Vec3<T>) -> Vec3<T> {
        Vec3 { x: self.x.mul_spec(rhs.x), y: self.y.mul_spec(rhs.y), z: self.z.mul_spec(rhs.z) }
    }
}

impl<T> Mul<&Vec3<T>> for Vec3<T> where T: Mul<Output = T> + Copy {
    type Output = Vec3<T>;

    fn mul(self, rhs: &Vec3<T>) -> Vec3<T> {
        Vec3 { x: self.x * rhs.x, y: self.y * rhs.y, z: self.z * rhs.z }
    }
}

impl<T> vstd::std_specs::ops::MulSpecImpl<&Vec3<T>> for Vec3<T> where T: Mul<Output = T> + Copy {
    open spec fn obeys_mul_spec() -> bool {
        T::obeys_mul_spec()
    }

    open spec fn mul_req(self, rhs: &Vec3<T>) -> bool {
        self.x.mul_req(rhs.x) && self.y.mul_req(rhs.y) && self.z.mul_req(rhs.z)
    }

    open spec fn mul_spec(self, rhs: &Vec3<T>) -> Vec3<T> {
        Vec3 { x: self.x.mul_spec(rhs.x), y: self.y.mul_spec(rhs.y), z: self.z.mul_spec(rhs.z) }
    }
}

impl<T> Mul<Vec3<T>> for &Vec3<T> where T: Mul<Output = T> + Copy {
    type Output = Vec3<T>;

    fn mul(self, rhs: Vec3<T>) -> Vec3<T> {
        Vec3 { x: self.x * rhs.x, y: self.y * rhs.y, z: self.z * rhs.z }
    }
}

impl<T> vstd::std_specs::ops::MulSpecImpl<Vec3<T>> for &Vec3<T> where T: Mul<Output = T> + Copy {
    open spec fn obeys_mul_spec() -> bool {
        T::obeys_mul_spec()
    }

    open spec fn mul_req(self, rhs: Vec3<T>) -> bool {
        self.x.mul_req(rhs.x) && self.y.mul_req(rhs.y) && self.z.mul_req(rhs.z)
    }

    open spec fn mul_spec(self, rhs: Vec3<T>) -> Vec3<T> {
        Vec3 { x: self.x.mul_spec(rhs.x), y: self.y.mul_spec(rhs.y), z: self.z.mul_spec(rhs.z) }
    }
}

impl<T> Mul<&Vec3<T>> for &Vec3<T> where T: Mul<Output = T> + Copy {
    type Output = Vec3<T>;

    fn mul(self, rhs: &Vec3<T>) -> Vec3<T> {
        Vec3 { x: self.x * rhs.x, y: self.y * rhs.y, z: self.z * rhs.z }
    }
}

impl<T> vstd::std_specs::ops::MulSpecImpl<&Vec3<T>> for &Vec3<T> where T: Mul<Output = T> + Copy {
    open spec fn obeys_mul_spec() -> bool {
        T::obeys_mul_spec()
    }

    open spec fn mul_req(self, rhs: &Vec3<T>) -> bool {
        self.x.mul_req(rhs.x) && self.y.mul_req(rhs.y) && self.z.mul_req(rhs.z)
    }

    open spec fn mul_spec(self, rhs: &Vec3<T>) -> Vec3<T> {
        Vec3 { x: self.x.mul_spec(rhs.x), y: self.y.mul_spec(rhs.y), z: self.z.mul_spec(rhs.z) }
    }
}

impl<T> MulAssign<T> for Vec3<T> where T: Mul<Output = T> + Copy {
    fn mul_assign(&mut self, rhs: T)
        requires
            old(self).x.mul_req(rhs),
            old(self).y.mul_req(rhs),
            old(self).z.mul_req(rhs),
        ensures
            T::obeys_mul_spec() ==> *final(self) == (Vec3 {
                x: old(self).x.mul_spec(rhs),
                y: old(self).y.mul_spec(rhs),
                z: old(self).z.mul_spec(rhs),
            }),
    {
        self.x = self.x * rhs;
        self.y = self.y * rhs;
        self.z = self.z * rhs;
    }
}

impl<T> MulAssign<&T> for Vec3<T> where T: Mul<Output = T> + Copy {
    fn mul_assign(&mut self, rhs: &T)
        requires
            old(self).x.mul_req(*rhs),
            old(self).y.mul_req(*rhs),
            old(self).z.mul_req(*rhs),
        ensures
            T::obeys_mul_spec() ==> *final(self) == (Vec3 {
                x: old(self).x.mul_spec(*rhs),
                y: old(self).y.mul_spec(*rhs),
                z: old(self).z.mul_spec(*rhs),
            }),
    {
        self.x = self.x * *rhs;
        self.y = self.y * *rhs;
        self.z = self.z * *rhs;
    }
}

impl<T> MulAssign<Vec3<T>> for Vec3<T> where T: Mul<Output = T> + Copy {
    fn mul_assign(&mut self, rhs: Vec3<T>)
        requires
            old(self).x.mul_req(rhs.x),
            old(self).y.mul_req(rhs.y),
            old(self).z.mul_req(rhs.z),
        ensures
            T::obeys_mul_spec() ==> *final(self) == (Vec3 {
                x: old(self).x.mul_spec(rhs.x),
                y: old(self).y.mul_spec(rhs.y),
                z: old(self).z.mul_spec(rhs.z),
            }),
    {
        self.x = self.x * rhs.x;
        self.y = self.y * rhs.y;
        self.z = self.z * rhs.z;
    }
}

impl<T> MulAssign<&Vec3<T>> for Vec3<T> where T: Mul<Output = T> + Copy {
    fn mul_assign(&mut self, rhs: &Vec3<T>)
        requires
            old(self).x.mul_req(rhs.x),
            old(self).y.mul_req(rhs.y),
            old(self).z.mul_req(rhs.z),
        ensures
            T::obeys_mul_spec() ==> *final(self) == (Vec3 {
                x: old(self).x.mul_spec(rhs.x),
                y: old(self).y.mul_spec(rhs.y),
                z: old(self).z.mul_spec(rhs.z),
            }),
    {
        self.x = self.x * rhs.x;
        self.y = self.y * rhs.y;
        self.z = self.z * rhs.z;
    }
}

impl<T> Div<T> for Vec3<T> where T: Div<Output = T> + Copy {
    type Output = Vec3<T>;

    fn div(self, rhs: T) -> Vec3<T> {
        Vec3 { x: self.x / rhs, y: self.y / rhs, z: self.z / rhs }
    }
}

impl<T> vstd::std_specs::ops::DivSpecImpl<T> for Vec3<T> where T: Div<Output = T> + Copy {
    open spec fn obeys_div_spec() -> bool {
        T::obeys_div_spec()
    }

    open spec fn div_req(self, rhs: T) -> bool {
        self.x.div_req(rhs) && self.y.div_req(rhs) && self.z.div_req(rhs)
    }

    open spec fn div_spec(self, rhs: T) -> Vec3<T> {
        Vec3 { x: self.x.div_spec(rhs), y: self.y.div_spec(rhs), z: self.z.div_spec(rhs) }
    }
}

impl<T> Div<&T> for Vec3<T> where T: Div<Output = T> + Copy {
    type Output = Vec3<T>;

    fn div(self, rhs: &T) -> Vec3<T> {
        Vec3 { x: self.x / *rhs, y: self.y / *rhs, z: self.z / *rhs }
    }
}

impl<T> vstd::std_specs::ops::DivSpecImpl<&T> for Vec3<T> where T: Div<Output = T> + Copy {
    open spec fn obeys_div_spec() -> bool {
        T::obeys_div_spec()
    }

    open spec fn div_req(self, rhs: &T) -> bool {
        self.x.div_req(*rhs) && self.y.div_req(*rhs) && self.z.div_req(*rhs)
    }

    open spec fn div_spec(self, rhs: &T) -> Vec3<T> {
        Vec3 { x: self.x.div_spec(*rhs), y: self.y.div_spec(*rhs), z: self.z.div_spec(*rhs) }
    }
}

impl<T> Div<T> for &Vec3<T> where T: Div<Output = T> + Copy {
    type Output = Vec3<T>;

    fn div(self, rhs: T) -> Vec3<T> {
        Vec3 { x: self.x / rhs, y: self.y / rhs, z: self.z / rhs }
    }
}

impl<T> vstd::std_specs::ops::DivSpecImpl<T> for &Vec3<T> where T: Div<Output = T> + Copy {
    open spec fn obeys_div_spec() -> bool {
        T::obeys_div_spec()
    }

    open spec fn div_req(self, rhs: T) -> bool {
        self.x.div_req(rhs) && self.y.div_req(rhs) && self.z.div_req(rhs)
    }

    open spec fn div_spec(self, rhs: T) -> Vec3<T> {
        Vec3 { x: self.x.div_spec(rhs), y: self.y.div_spec(rhs), z: self.z.div_spec(rhs) }
    }
}

impl<T> Div<&T> for &Vec3<T> where T: Div<Output = T> + Copy {
    type Output = Vec3<T>;

    fn div(self, rhs: &T) -> Vec3<T> {
        Vec3 { x: self.x / *rhs, y: self.y / *rhs, z: self.z / *rhs }
    }
}

impl<T> vstd::std_specs::ops::DivSpecImpl<&T> for &Vec3<T> where T: Div<Output = T> + Copy {
    open spec fn obeys_div_spec() -> bool {
        T::obeys_div_spec()
    }

    open spec fn div_req(self, rhs: &T) -> bool {
        self.x.div_req(*rhs) && self.y.div_req(*rhs) && self.z.div_req(*rhs)
    }

    open spec fn div_spec(self, rhs: &T) -> Vec3<T> {
        Vec3 { x: self.x.div_spec(*rhs), y: self.y.div_spec(*rhs), z: self.z.div_spec(*rhs) }
    }
}

impl<T> Div<Vec3<T>> for Vec3<T> where T: Div<Output = T> + Copy {
    type Output = Vec3<T>;

    fn div(self, rhs: Vec3<T>) -> Vec3<T> {
        Vec3 { x: self.x / rhs.x, y: self.y / rhs.y, z: self.z / rhs.z }
    }
}

impl<T> vstd::std_specs::ops::DivSpecImpl<Vec3<T>> for Vec3<T> where T: Div<Output = T> + Copy {
    open spec fn obeys_div_spec() -> bool {
        T::obeys_div_spec()
    }

    open spec fn div_req(self, rhs: Vec3<T>) -> bool {
        self.x.div_req(rhs.x) && self.y.div_req(rhs.y) && self.z.div_req(rhs.z)
    }

    open spec fn div_spec(self, rhs: Vec3<T>) -> Vec3<T> {
        Vec3 { x: self.x.div_spec(rhs.x), y: self.y.div_spec(rhs.y), z: self.z.div_spec(rhs.z) }
    }
}

impl<T> Div<&Vec3<T>> for Vec3<T> where T: Div<Output = T> + Copy {
    type Output = Vec3<T>;

    fn div(self, rhs: &Vec3<T>) -> Vec3<T> {
        Vec3 { x: self.x / rhs.x, y: self.y / rhs.y, z: self.z / rhs.z }
    }
}

impl<T> vstd::std_specs::ops::DivSpecImpl<&Vec3<T>> for Vec3<T> where T: Div<Output = T> + Copy {
    open spec fn obeys_div_spec() -> bool {
        T::obeys_div_spec()
    }

    open spec fn div_req(self, rhs: &Vec3<T>) -> bool {
        self.x.div_req(rhs.x) && self.y.div_req(rhs.y) && self.z.div_req(rhs.z)
    }

    open spec fn div_spec(self, rhs: &Vec3<T>) -> Vec3<T> {
        Vec3 { x: self.x.div_spec(rhs.x), y: self.y.div_spec(rhs.y), z: self.z.div_spec(rhs.z) }
    }
}

impl<T> Div<Vec3<T>> for &Vec3<T> where T: Div<Output = T> + Copy {
    type Output = Vec3<T>;

    fn div(self, rhs: Vec3<T>) -> Vec3<T> {
        Vec3 { x: self.x / rhs.x, y: self.y / rhs.y, z: self.z / rhs.z }
    }
}

impl<T> vstd::std_specs::ops::DivSpecImpl<Vec3<T>> for &Vec3<T> where T: Div<Output = T> + Copy {
    open spec fn obeys_div_spec() -> bool {
        T::obeys_div_spec()
    }

    open spec fn div_req(self, rhs: Vec3<T>) -> bool {
        self.x.div_req(rhs.x) && self.y.div_req(rhs.y) && self.z.div_req(rhs.z)
    }

    open spec fn div_spec(self, rhs: Vec3<T>) -> Vec3<T> {
        Vec3 { x: self.x.div_spec(rhs.x), y: self.y.div_spec(rhs.y), z: self.z.div_spec(rhs.z) }
    }
}

impl<T> Div<&Vec3<T>> for &Vec3<T> where T: Div<Output = T> + Copy {
    type Output = Vec3<T>;

    fn div(self, rhs: &Vec3<T>) -> Vec3<T> {
        Vec3 { x: self.x / rhs.x, y: self.y / rhs.y, z: self.z / rhs.z }
    }
}

impl<T> vstd::std_specs::ops::DivSpecImpl<&Vec3<T>> for &Vec3<T> where T: Div<Output = T> + Copy {
    open spec fn obeys_div_spec() -> bool {
        T::obeys_div_spec()
    }

    open spec fn div_req(self, rhs: &Vec3<T>) -> bool {
        self.x.div_req(rhs.x) && self.y.div_req(rhs.y) && self.z.div_req(rhs.z)
    }

    open spec fn div_spec(self, rhs: &Vec3<T>) -> Vec3<T> {
        Vec3 { x: self.x.div_spec(rhs.x), y: self.y.div_spec(rhs.y), z: self.z.div_spec(rhs.z) }
    }
}

/// The dot product of `v1` and `v2`, added up from the left.
pub open spec fn dot3<T: Add<Output = T> + Mul<Output = T>>(v1: Vec3<T>, v2: Vec3<T>) -> T {
    v1.x.mul_spec(v2.x).add_spec(v1.y.mul_spec(v2.y)).add_spec(v1.z.mul_spec(v2.z))
}

/// Every product and every sum of `dot3` can be formed.
pub open spec fn dot3_req<T: Add<Output = T> + Mul<Output = T>>(v1: Vec3<T>, v2: Vec3<T>) -> bool {
    &&& v1.x.mul_req(v2.x)
    &&& v1.y.mul_req(v2.y)
    &&& v1.z.mul_req(v2.z)
    &&& v1.x.mul_spec(v2.x).add_req(v1.y.mul_spec(v2.y))
    &&& v1.x.mul_spec(v2.x).add_spec(v1.y.mul_spec(v2.y)).add_req(v1.z.mul_spec(v2.z))
}

/// The cross product of `v1` and `v2`.
pub open spec fn cross3<T: Sub<Output = T> + Mul<Output = T>>(v1: Vec3<T>, v2: Vec3<T>) -> Vec3<T> {
    Vec3 {
        x: v1.y.mul_spec(v2.z).sub_spec(v1.z.mul_spec(v2.y)),
        y: v1.z.mul_spec(v2.x).sub_spec(v1.x.mul_spec(v2.z)),
        z: v1.x.mul_spec(v2.y).sub_spec(v1.y.mul_spec(v2.x)),
    }
}

/// Every product and every difference of `cross3` can be formed.
pub open spec fn cross3_req<T: Sub<Output = T> + Mul<Output = T>>(v1: Vec3<T>, v2: Vec3<T>) -> bool {
    &&& v1.y.mul_req(v2.z)
    &&& v1.z.mul_req(v2.y)
    &&& v1.z.mul_req(v2.x)
    &&& v1.x.mul_req(v2.z)
    &&& v1.x.mul_req(v2.y)
    &&& v1.y.mul_req(v2.x)
    &&& v1.y.mul_spec(v2.z).sub_req(v1.z.mul_spec(v2.y))
    &&& v1.z.mul_spec(v2.x).sub_req(v1.x.mul_spec(v2.z))
    &&& v1.x.mul_spec(v2.y).sub_req(v1.y.mul_spec(v2.x))
}

/// The length of `v`: the square root of its dot product with itself.
pub open spec fn magn3<T: Add<Output = T> + Mul<Output = T> + Sqrt<Type = T>>(v: Vec3<T>) -> T {
    T::sqrt_spec(dot3(v, v))
}

impl<T> Vec3<T> where T: Mul<Output = T> + Copy {
    /// `v` with every component multiplied by `scalar`.
    pub fn scale(v: &Self, scalar: T) -> (r: Self)
        requires
            v.mul_req(scalar),
        ensures
            T::obeys_mul_spec() ==> r == v.mul_spec(scalar),
    {
        v * scalar
    }
}

impl<T> Vec3<T> where T: Add<Output = T> + Mul<Output = T> + Div<Output = T> + Sqrt<Type = T> + Copy {
    /// The length of `v`.
    pub fn magn(v: &Self) -> (r: T)
        requires
            obeys_ring::<T>(),
            dot3_req(*v, *v),
        ensures
            r == magn3(*v),
    {
        T::sqrt(v.x * v.x + v.y * v.y + v.z * v.z)
    }

    /// `v` with every component divided by the length of `v`.
    pub fn normalize(v: &Self) -> (r: Self)
        requires
            obeys_ring::<T>(),
            dot3_req(*v, *v),
            v.div_req(magn3(*v)),
        ensures
            T::obeys_div_spec() ==> r == v.div_spec(magn3(*v)),
    {
        let length = Self::magn(v);

        Self { x: v.x / length, y: v.y / length, z: v.z / length }
    }
}

impl<T> Vec3<T> where T: Sub<Output = T> + Mul<Output = T> + Copy {
    /// The cross product of `v1` and `v2`.
    pub fn cross(v1: &Self, v2: &Self) -> (r: Self)
        requires
            T::obeys_mul_spec(),
            cross3_req(*v1, *v2),
        ensures
            T::obeys_sub_spec() ==> r == cross3(*v1, *v2),
    {
        Self {
            x: v1.y * v2.z - v1.z * v2.y,
            y: v1.z * v2.x - v1.x * v2.z,
            z: v1.x * v2.y - v1.y * v2.x,
        }
    }
}

impl<T> Vec3<T> where T: Add<Output = T> + Mul<Output = T> + Copy {
    /// The dot product of `v1` and `v2`.
    pub fn dot(v1: &Self, v2: &Self) -> (r: T)
        requires
            obeys_ring::<T>(),
            dot3_req(*v1, *v2),
        ensures
            r == dot3(*v1, *v2),
    {
        v1.x * v2.x + v1.y * v2.y + v1.z * v2.z
    }
}

#[derive(Clone, Copy, Debug, PartialEq, Eq)]
pub struct Vec4<T> {
    pub x: T,
    pub y: T,
    pub z: T,
    pub w: T,
}

impl<T> Add<T> for Vec4<T> where T: Add<Output = T> + Copy {
    type Output = Vec4<T>;

    fn add(self, rhs: T) -> Vec4<T> {
        Vec4 { x: self.x + rhs, y: self.y + rhs, z: self.z + rhs, w: self.w + rhs }
    }
}

impl<T> vstd::std_specs::ops::AddSpecImpl<T> for Vec4<T> where T: Add<Output = T> + Copy {
    open spec fn obeys_add_spec() -> bool {
        T::obeys_add_spec()
    }

    open spec fn add_req(self, rhs: T) -> bool {
        self.x.add_req(rhs) && self.y.add_req(rhs) && self.z.add_req(rhs) && self.w.add_req(rhs)
    }

    open spec fn add_spec(self, rhs: T) -> Vec4<T> {
        Vec4 {
            x: self.x.add_spec(rhs),
            y: self.y.add_spec(rhs),
            z: self.z.add_spec(rhs),
            w: self.w.add_spec(rhs),
        }
    }
}

impl<T> Add<Vec4<T>> for Vec4<T> where T: Add<Output = T> + Copy {
    type Output = Vec4<T>;

    fn add(self, rhs: Vec4<T>) -> Vec4<T> {
        Vec4 { x: self.x + rhs.x, y: self.y + rhs.y, z: self.z + rhs.z, w: self.w + rhs.w }
    }
}

impl<T> vstd::std_specs::ops::AddSpecImpl<Vec4<T>> for Vec4<T> where T: Add<Output = T> + Copy {
    open spec fn obeys_add_spec() -> bool {
        T::obeys_add_spec()
    }

    open spec fn add_req(self, rhs: Vec4<T>) -> bool {
        self.x.add_req(rhs.x)
            && self.y.add_req(rhs.y)
            && self.z.add_req(rhs.z)
            && self.w.add_req(rhs.w)
    }

    open spec fn add_spec(self, rhs: Vec4<T>) -> Vec4<T> {
        Vec4 {
            x: self.x.add_spec(rhs.x),
            y: self.y.add_spec(rhs.y),
            z: self.z.add_spec(rhs.z),
            w: self.w.add_spec(rhs.w),
        }
    }
}

impl<T> AddAssign<T> for Vec4<T> where T: Add<Output = T> + Copy {
    fn add_assign(&mut self, rhs: T)
        requires
            old(self).x.add_req(rhs),
            old(self).y.add_req(rhs),
            old(self).z.add_req(rhs),
            old(self).w.add_req(rhs),
        ensures
            T::obeys_add_spec() ==> *final(self) == (Vec4 {
                x: old(self).x.add_spec(rhs),
                y: old(self).y.add_spec(rhs),
                z: old(self).z.add_spec(rhs),
                w: old(self).w.add_spec(rhs),
            }),
    {
        self.x = self.x + rhs;
        self.y = self.y + rhs;
        self.z = self.z + rhs;
        self.w = self.w + rhs;
    }
}

impl<T> AddAssign<Vec4<T>> for Vec4<T> where T: Add<Output = T> + Copy {
    fn add_assign(&mut self, rhs: Vec4<T>)
        requires
            old(self).x.add_req(rhs.x),
            old(self).y.add_req(rhs.y),
            old(self).z.add_req(rhs.z),
            old(self).w.add_req(rhs.w),
        ensures
            T::obeys_add_spec() ==> *final(self) == (Vec4 {
                x: old(self).x.add_spec(rhs.x),
                y: old(self).y.add_spec(rhs.y),
                z: old(self).z.add_spec(rhs.z),
                w: old(self).w.add_spec(rhs.w),
            }),
    {
        self.x = self.x + rhs.x;
        self.y = self.y + rhs.y;
        self.z = self.z + rhs.z;
        self.w = self.w + rhs.w;
    }
}

impl<T> Sub<T> for Vec4<T> where T: Sub<Output = T> + Copy {
    type Output = Vec4<T>;

    fn sub(self, rhs: T) -> Vec4<T> {
        Vec4 { x: self.x - rhs, y: self.y - rhs, z: self.z - rhs, w: self.w - rhs }
    }
}

impl<T> vstd::std_specs::ops::SubSpecImpl<T> for Vec4<T> where T: Sub<Output = T> + Copy {
    open spec fn obeys_sub_spec() -> bool {
        T::obeys_sub_spec()
    }

    open spec fn sub_req(self, rhs: T) -> bool {
        self.x.sub_req(rhs) && self.y.sub_req(rhs) && self.z.sub_req(rhs) && self.w.sub_req(rhs)
    }

    open spec fn sub_spec(self, rhs: T) -> Vec4<T> {
        Vec4 {
            x: self.x.sub_spec(rhs),
            y: self.y.sub_spec(rhs),
            z: self.z.sub_spec(rhs),
            w: self.w.sub_spec(rhs),
        }
    }
}

impl<T> Sub<Vec4<T>> for Vec4<T> where T: Sub<Output = T> + Copy {
    type Output = Vec4<T>;

    fn sub(self, rhs: Vec4<T>) -> Vec4<T> {
        Vec4 { x: self.x - rhs.x, y: self.y - rhs.y, z: self.z - rhs.z, w: self.w - rhs.w }
    }
}

impl<T> vstd::std_specs::ops::SubSpecImpl<Vec4<T>> for Vec4<T> where T: Sub<Output = T> + Copy {
    open spec fn obeys_sub_spec() -> bool {
        T::obeys_sub_spec()
    }

    open spec fn sub_req(self, rhs: Vec4<T>) -> bool {
        self.x.sub_req(rhs.x)
            && self.y.sub_req(rhs.y)
            && self.z.sub_req(rhs.z)
            && self.w.sub_req(rhs.w)
    }

    open spec fn sub_spec(self, rhs: Vec4<T>) -> Vec4<T> {
        Vec4 {
            x: self.x.sub_spec(rhs.x),
            y: self.y.sub_spec(rhs.y),
            z: self.z.sub_spec(rhs.z),
            w: self.w.sub_spec(rhs.w),
        }
    }
}

impl<T> SubAssign<T> for Vec4<T> where T: Sub<Output = T> + Copy {
    fn sub_assign(&mut self, rhs: T)
        requires
            old(self).x.sub_req(rhs),
            old(self).y.sub_req(rhs),
            old(self).z.sub_req(rhs),
            old(self).w.sub_req(rhs),
        ensures
            T::obeys_sub_spec() ==> *final(self) == (Vec4 {
                x: old(self).x.sub_spec(rhs),
                y: old(self).y.sub_spec(rhs),
                z: old(self).z.sub_spec(rhs),
                w: old(self).w.sub_spec(rhs),
            }),
    {
        self.x = self.x - rhs;
        self.y = self.y - rhs;
        self.z = self.z - rhs;
        self.w = self.w - rhs;
    }
}

impl<T> SubAssign<Vec4<T>> for Vec4<T> where T: Sub<Output = T> + Copy {
    fn sub_assign(&mut self, rhs: Vec4<T>)
        requires
            old(self).x.sub_req(rhs.x),
            old(self).y.sub_req(rhs.y),
            old(self).z.sub_req(rhs.z),
            old(self).w.sub_req(rhs.w),
        ensures
            T::obeys_sub_spec() ==> *final(self) == (Vec4 {
                x: old(self).x.sub_spec(rhs.x),
                y: old(self).y.sub_spec(rhs.y),
                z: old(self).z.sub_spec(rhs.z),
                w: old(self).w.sub_spec(rhs.w),
            }),
    {
        self.x = self.x - rhs.x;
        self.y = self.y - rhs.y;
        self.z = self.z - rhs.z;
        self.w = self.w - rhs.w;
    }
}

impl<T> Mul<T> for Vec4<T> where T: Mul<Output = T> + Copy {
    type Output = Vec4<T>;

    fn mul(self, rhs: T) -> Vec4<T> {
        Vec4 { x: self.x * rhs, y: self.y * rhs, z: self.z * rhs, w: self.w * rhs }
    }
}

impl<T> vstd::std_specs::ops::MulSpecImpl<T> for Vec4<T> where T: Mul<Output = T> + Copy {
    open spec fn obeys_mul_spec() -> bool {
        T::obeys_mul_spec()
    }

    open spec fn mul_req(self, rhs: T) -> bool {
        self.x.mul_req(rhs) && self.y.mul_req(rhs) && self.z.mul_req(rhs) && self.w.mul_req(rhs)
    }

    open spec fn mul_spec(self, rhs: T) -> Vec4<T> {
        Vec4 {
            x: self.x.mul_spec(rhs),
            y: self.y.mul_spec(rhs),
            z: self.z.mul_spec(rhs),
            w: self.w.mul_spec(rhs),
        }
    }
}

impl<T> Mul<T> for &Vec4<T> where T: Mul<Output = T> + Copy {
    type Output = Vec4<T>;

    fn mul(self, rhs: T) -> Vec4<T> {
        Vec4 { x: self.x * rhs, y: self.y * rhs, z: self.z * rhs, w: self.w * rhs }
    }
}

impl<T> vstd::std_specs::ops::MulSpecImpl<T> for &Vec4<T> where T: Mul<Output = T> + Copy {
    open spec fn obeys_mul_spec() -> bool {
        T::obeys_mul_spec()
    }

    open spec fn mul_req(self, rhs: T) -> bool {
        self.x.mul_req(rhs) && self.y.mul_req(rhs) && self.z.mul_req(rhs) && self.w.mul_req(rhs)
    }

    open spec fn mul_spec(self, rhs: T) -> Vec4<T> {
        Vec4 {
            x: self.x.mul_spec(rhs),
            y: self.y.mul_spec(rhs),
            z: self.z.mul_spec(rhs),
            w: self.w.mul_spec(rhs),
        }
    }
}

impl<T> Mul<Vec4<T>> for Vec4<T> where T: Mul<Output = T> + Copy {
    type Output = Vec4<T>;

    fn mul(self, rhs: Vec4<T>) -> Vec4<T> {
        Vec4 { x: self.x * rhs.x, y: self.y * rhs.y, z: self.z * rhs.z, w: self.w * rhs.w }
    }
}

impl<T> vstd::std_specs::ops::MulSpecImpl<Vec4<T>> for Vec4<T> where T: Mul<Output = T> + Copy {
    open spec fn obeys_mul_spec() -> bool {
        T::obeys_mul_spec()
    }

    open spec fn mul_req(self, rhs: Vec4<T>) -> bool {
        self.x.mul_req(rhs.x)
            && self.y.mul_req(rhs.y)
            && self.z.mul_req(rhs.z)
            && self.w.mul_req(rhs.w)
    }

    open spec fn mul_spec(self, rhs: Vec4<T>) -> Vec4<T> {
        Vec4 {
            x: self.x.mul_spec(rhs.x),
            y: self.y.mul_spec(rhs.y),
            z: self.z.mul_spec(rhs.z),
            w: self.w.mul_spec(rhs.w),
        }
    }
}

impl<T> Mul<&Vec4<T>> for Vec4<T> where T: Mul<Output = T> + Copy {
    type Output = Vec4<T>;

    fn mul(self, rhs: &Vec4<T>) -> Vec4<T> {
        Vec4 { x: self.x * rhs.x, y: self.y * rhs.y, z: self.z * rhs.z, w: self.w * rhs.w }
    }
}

impl<T> vstd::std_specs::ops::MulSpecImpl<&Vec4<T>> for Vec4<T> where T: Mul<Output = T> + Copy {
    open spec fn obeys_mul_spec() -> bool {
        T::obeys_mul_spec()
    }

    open spec fn mul_req(self, rhs: &Vec4<T>) -> bool {
        self.x.mul_req(rhs.x)
            && self.y.mul_req(rhs.y)
            && self.z.mul_req(rhs.z)
            && self.w.mul_req(rhs.w)
    }

    open spec fn mul_spec(self, rhs: &Vec4<T>) -> Vec4<T> {
        Vec4 {
            x: self.x.mul_spec(rhs.x),
            y: self.y.mul_spec(rhs.y),
            z: self.z.mul_spec(rhs.z),
            w: self.w.mul_spec(rhs.w),
        }
    }
}

impl<T> Vec4<T> {
    /// The four components, in their order.
    pub open spec fn quad(self) -> (T, T, T, T) {
        (self.x, self.y, self.z, self.w)
    }
}

impl<T> Mul<Mat4<T>> for Vec4<T> where T: Mul<Output = T> + Add<Output = T> + Copy {
    type Output = Vec4<T>;

    fn mul(self, rhs: Mat4<T>) -> Vec4<T> {
        let v = (self.x, self.y, self.z, self.w);
        proof {
            assert(dot4_req(v, row(rhs@, 0)));
            assert(dot4_req(v, row(rhs@, 1)));
            assert(dot4_req(v, row(rhs@, 2)));
            assert(dot4_req(v, row(rhs@, 3)));
        }
        Vec4 {
            x: dot4_of(
                v,
                (rhs[Mat4Index::X1], rhs[Mat4Index::Y1], rhs[Mat4Index::Z1], rhs[Mat4Index::W1]),
            ),
            y: dot4_of(
                v,
                (rhs[Mat4Index::X2], rhs[Mat4Index::Y2], rhs[Mat4Index::Z2], rhs[Mat4Index::W2]),
            ),
            z: dot4_of(
                v,
                (rhs[Mat4Index::X3], rhs[Mat4Index::Y3], rhs[Mat4Index::Z3], rhs[Mat4Index::W3]),
            ),
            w: dot4_of(
                v,
                (rhs[Mat4Index::X4], rhs[Mat4Index::Y4], rhs[Mat4Index::Z4], rhs[Mat4Index::W4]),
            ),
        }
    }
}

impl<T> vstd::std_specs::ops::MulSpecImpl<Mat4<T>> for Vec4<T> where T: Mul<Output = T> + Add<Output = T> + Copy {
    open spec fn obeys_mul_spec() -> bool {
        obeys_ring::<T>()
    }

    open spec fn mul_req(self, rhs: Mat4<T>) -> bool {
        obeys_ring::<T>() && rows_req(self.quad(), rhs@)
    }

    open spec fn mul_spec(self, rhs: Mat4<T>) -> Vec4<T> {
        rows_dot(self.quad(), rhs@)
    }
}

impl<T> MulAssign<T> for Vec4<T> where T: Mul<Output = T> + Copy {
    fn mul_assign(&mut self, rhs: T)
        requires
            old(self).x.mul_req(rhs),
            old(self).y.mul_req(rhs),
            old(self).z.mul_req(rhs),
            old(self).w.mul_req(rhs),
        ensures
            T::obeys_mul_spec() ==> *final(self) == (Vec4 {
                x: old(self).x.mul_spec(rhs),
                y: old(self).y.mul_spec(rhs),
                z: old(self).z.mul_spec(rhs),
                w: old(self).w.mul_spec(rhs),
            }),
    {
        self.x = self.x * rhs;
        self.y = self.y * rhs;
        self.z = self.z * rhs;
        self.w = self.w * rhs;
    }
}

impl<T> MulAssign<Vec4<T>> for Vec4<T> where T: Mul<Output = T> + Copy {
    fn mul_assign(&mut self, rhs: Vec4<T>)
        requires
            old(self).x.mul_req(rhs.x),
            old(self).y.mul_req(rhs.y),
            old(self).z.mul_req(rhs.z),
            old(self).w.mul_req(rhs.w),
        ensures
            T::obeys_mul_spec() ==> *final(self) == (Vec4 {
                x: old(self).x.mul_spec(rhs.x),
                y: old(self).y.mul_spec(rhs.y),
                z: old(self).z.mul_spec(rhs.z),
                w: old(self).w.mul_spec(rhs.w),
            }),
    {
        self.x = self.x * rhs.x;
        self.y = self.y * rhs.y;
        self.z = self.z * rhs.z;
        self.w = self.w * rhs.w;
    }
}

impl<T> Div<T> for Vec4<T> where T: Div<Output = T> + Copy {
    type Output = Vec4<T>;

    fn div(self, rhs: T) -> Vec4<T> {
        Vec4 { x: self.x / rhs, y: self.y / rhs, z: self.z / rhs, w: self.w / rhs }
    }
}

impl<T> vstd::std_specs::ops::DivSpecImpl<T> for Vec4<T> where T: Div<Output = T> + Copy {
    open spec fn obeys_div_spec() -> bool {
        T::obeys_div_spec()
    }

    open spec fn div_req(self, rhs: T) -> bool {
        self.x.div_req(rhs) && self.y.div_req(rhs) && self.z.div_req(rhs) && self.w.div_req(rhs)
    }

    open spec fn div_spec(self, rhs: T) -> Vec4<T> {
        Vec4 {
            x: self.x.div_spec(rhs),
            y: self.y.div_spec(rhs),
            z: self.z.div_spec(rhs),
            w: self.w.div_spec(rhs),
        }
    }
}

impl<T> Div<Vec4<T>> for Vec4<T> where T: Div<Output = T> + Copy {
    type Output = Vec4<T>;

    fn div(self, rhs: Vec4<T>) -> Vec4<T> {
        Vec4 { x: self.x / rhs.x, y: self.y / rhs.y, z: self.z / rhs.z, w: self.w / rhs.w }
    }
}

impl<T> vstd::std_specs::ops::DivSpecImpl<Vec4<T>> for Vec4<T> where T: Div<Output = T> + Copy {
    open spec fn obeys_div_spec() -> bool {
        T::obeys_div_spec()
    }

    open spec fn div_req(self, rhs: Vec4<T>) -> bool {
        self.x.div_req(rhs.x)
            && self.y.div_req(rhs.y)
            && self.z.div_req(rhs.z)
            && self.w.div_req(rhs.w)
    }

    open spec fn div_spec(self, rhs: Vec4<T>) -> Vec4<T> {
        Vec4 {
            x: self.x.div_spec(rhs.x),
            y: self.y.div_spec(rhs.y),
            z: self.z.div_spec(rhs.z),
            w: self.w.div_spec(rhs.w),
        }
    }
}

impl<T> DivAssign<T> for Vec4<T> where T: Div<Output = T> + Copy {
    fn div_assign(&mut self, rhs: T)
        requires
            old(self).x.div_req(rhs),
            old(self).y.div_req(rhs),
            old(self).z.div_req(rhs),
            old(self).w.div_req(rhs),
        ensures
            T::obeys_div_spec() ==> *final(self) == (Vec4 {
                x: old(self).x.div_spec(rhs),
                y: old(self).y.div_spec(rhs),
                z: old(self).z.div_spec(rhs),
                w: old(self).w.div_spec(rhs),
            }),
    {
        self.x = self.x / rhs;
        self.y = self.y / rhs;
        self.z = self.z / rhs;
        self.w = self.w / rhs;
    }
}

impl<T> DivAssign<Vec4<T>> for Vec4<T> where T: Div<Output = T> + Copy {
    fn div_assign(&mut self, rhs: Vec4<T>)
        requires
            old(self).x.div_req(rhs.x),
            old(self).y.div_req(rhs.y),
            old(self).z.div_req(rhs.z),
            old(self).w.div_req(rhs.w),
        ensures
            T::obeys_div_spec() ==> *final(self) == (Vec4 {
                x: old(self).x.div_spec(rhs.x),
                y: old(self).y.div_spec(rhs.y),
                z: old(self).z.div_spec(rhs.z),
                w: old(self).w.div_spec(rhs.w),
            }),
    {
        self.x = self.x / rhs.x;
        self.y = self.y / rhs.y;
        self.z = self.z / rhs.z;
        self.w = self.w / rhs.w;
    }
}

impl<T> Vec4<T> where T: Mul<Output = T> + Copy {
    /// `v` with every component multiplied by `scalar`.
    pub fn scale(v: &Self, scalar: T) -> (r: Self)
        requires
            v.mul_req(scalar),
        ensures
            T::obeys_mul_spec() ==> r == v.mul_spec(scalar),
    {
        v * scalar
    }
}

} // verus!
