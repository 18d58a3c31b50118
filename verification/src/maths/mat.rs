//! 4x4 matrices, stored row by row, and the transforms built from them.

use crate::maths::cos::Cosinus;
use crate::maths::one::One;
use crate::maths::rad::Radians;
use crate::maths::sin::Sinus;
use crate::maths::vec::{Vec3, Vec4};
use crate::maths::zero::Zero;
use std::ops::{Add, Index, Mul, Neg};
use vstd::prelude::*;
use vstd::std_specs::ops::{AddSpec, MulSpec, NegSpec};

verus! {

/// The sixteen places of a matrix: the letter is the column, the digit the
/// row.
#[derive(Clone, Copy, Debug, PartialEq, Eq, Structural)]
pub enum Mat4Index {
    X1,
    X2,
    X3,
    X4,
    Y1,
    Y2,
    Y3,
    Y4,
    Z1,
    Z2,
    Z3,
    Z4,
    W1,
    W2,
    W3,
    W4,
}

impl Mat4Index {
    /// Where the place stands in the row-by-row storage.
    pub open spec fn place(self) -> int {
        match self {
            Mat4Index::X1 => 0,
            Mat4Index::Y1 => 1,
            Mat4Index::Z1 => 2,
            Mat4Index::W1 => 3,
            Mat4Index::X2 => 4,
            Mat4Index::Y2 => 5,
            Mat4Index::Z2 => 6,
            Mat4Index::W2 => 7,
            Mat4Index::X3 => 8,
            Mat4Index::Y3 => 9,
            Mat4Index::Z3 => 10,
            Mat4Index::W3 => 11,
            Mat4Index::X4 => 12,
            Mat4Index::Y4 => 13,
            Mat4Index::Z4 => 14,
            Mat4Index::W4 => 15,
        }
    }

    pub fn value(&self) -> (r: usize)
        ensures
            r == self.place(),
            r < 16,
    {
        match *self {
            Mat4Index::X1 => 0,
            Mat4Index::Y1 => 1,
            Mat4Index::Z1 => 2,
            Mat4Index::W1 => 3,
            Mat4Index::X2 => 4,
            Mat4Index::Y2 => 5,
            Mat4Index::Z2 => 6,
            Mat4Index::W2 => 7,
            Mat4Index::X3 => 8,
            Mat4Index::Y3 => 9,
            Mat4Index::Z3 => 10,
            Mat4Index::W3 => 11,
            Mat4Index::X4 => 12,
            Mat4Index::Y4 => 13,
            Mat4Index::Z4 => 14,
            Mat4Index::W4 => 15,
        }
    }
}

/// Four scalars: a row or a column of a matrix, or a vector of four.
pub type Quad<T> = (T, T, T, T);

/// The sum of the four products `a.0 * b.0`, .. `a.3 * b.3`, added up from the
/// left.
pub open spec fn dot4<T: Add<Output = T> + Mul<Output = T>>(a: Quad<T>, b: Quad<T>) -> T {
    a.0.mul_spec(b.0).add_spec(a.1.mul_spec(b.1)).add_spec(a.2.mul_spec(b.2)).add_spec(
        a.3.mul_spec(b.3),
    )
}

/// Every product and every sum of `dot4` can be formed.
pub open spec fn dot4_req<T: Add<Output = T> + Mul<Output = T>>(a: Quad<T>, b: Quad<T>) -> bool {
    &&& a.0.mul_req(b.0)
    &&& a.1.mul_req(b.1)
    &&& a.2.mul_req(b.2)
    &&& a.3.mul_req(b.3)
    &&& a.0.mul_spec(b.0).add_req(a.1.mul_spec(b.1))
    &&& a.0.mul_spec(b.0).add_spec(a.1.mul_spec(b.1)).add_req(a.2.mul_spec(b.2))
    &&& a.0.mul_spec(b.0).add_spec(a.1.mul_spec(b.1)).add_spec(a.2.mul_spec(b.2)).add_req(
        a.3.mul_spec(b.3),
    )
}

/// The scalar's `+` and `*` compute what their specifications say.
pub open spec fn obeys_ring<T: Add<Output = T> + Mul<Output = T>>() -> bool {
    T::obeys_add_spec() && T::obeys_mul_spec()
}

/// Computes `dot4`.
pub fn dot4_of<T: Add<Output = T> + Mul<Output = T> + Copy>(a: Quad<T>, b: Quad<T>) -> (r: T)
    requires
        obeys_ring::<T>(),
        dot4_req(a, b),
    ensures
        r == dot4(a, b),
{
    a.0 * b.0 + a.1 * b.1 + a.2 * b.2 + a.3 * b.3
}

/// Row `i` of the matrix stored in `m`.
pub open spec fn row<T>(m: Seq<T>, i: int) -> Quad<T> {
    (m[4 * i], m[4 * i + 1], m[4 * i + 2], m[4 * i + 3])
}

/// Column `j` of the matrix stored in `m`.
pub open spec fn column<T>(m: Seq<T>, j: int) -> Quad<T> {
    (m[j], m[4 + j], m[8 + j], m[12 + j])
}

/// The matrix product of `a` and `b`: at row `i` and column `j` stands the
/// `dot4` of row `i` of `a` and column `j` of `b`.
pub open spec fn product<T: Add<Output = T> + Mul<Output = T>>(a: Seq<T>, b: Seq<T>) -> Seq<T> {
    Seq::new(16, |k: int| dot4(row(a, k / 4), column(b, k % 4)))
}

/// Every entry of `product` can be formed.
pub open spec fn product_req<T: Add<Output = T> + Mul<Output = T>>(a: Seq<T>, b: Seq<T>) -> bool {
    forall|i: int, j: int|
        0 <= i < 4 && 0 <= j < 4 ==> #[trigger] dot4_req(row(a, i), column(b, j))
}

/// The `dot4` of `v` with every row of the matrix stored in `m` can be formed.
pub open spec fn rows_req<T: Add<Output = T> + Mul<Output = T>>(v: Quad<T>, m: Seq<T>) -> bool {
    forall|i: int| 0 <= i < 4 ==> dot4_req(v, #[trigger] row(m, i))
}

/// The vector of the `dot4` of `v` with each row of the matrix stored in `m`.
pub open spec fn rows_dot<T: Add<Output = T> + Mul<Output = T>>(v: Quad<T>, m: Seq<T>) -> Vec4<T> {
    Vec4 {
        x: dot4(v, row(m, 0)),
        y: dot4(v, row(m, 1)),
        z: dot4(v, row(m, 2)),
        w: dot4(v, row(m, 3)),
    }
}

/// The matrix that changes nothing.
pub open spec fn identity<T: Zero<Output = T> + One<Output = T>>() -> Seq<T> {
    let o = T::one_spec();
    let z = T::zero_spec();
    seq![o, z, z, z, z, o, z, z, z, z, o, z, z, z, z, o]
}

/// The matrix that moves by `v`.
pub open spec fn translation<T: Zero<Output = T> + One<Output = T>>(v: Vec3<T>) -> Seq<T> {
    let o = T::one_spec();
    let z = T::zero_spec();
    seq![o, z, z, v.x, z, o, z, v.y, z, z, o, v.z, z, z, z, o]
}

/// The matrix that scales each axis by the component of `v`.
pub open spec fn scaling<T: Zero<Output = T> + One<Output = T>>(v: Vec3<T>) -> Seq<T> {
    let o = T::one_spec();
    let z = T::zero_spec();
    seq![v.x, z, z, z, z, v.y, z, z, z, z, v.z, z, z, z, z, o]
}

/// The matrix that turns about the x axis by an angle of cosine `c` and sine
/// `s`; `n` is `-s`.
pub open spec fn rotation_x<T: Zero<Output = T> + One<Output = T>>(c: T, s: T, n: T) -> Seq<T> {
    let o = T::one_spec();
    let z = T::zero_spec();
    seq![o, z, z, z, z, c, n, z, z, s, c, z, z, z, z, o]
}

/// The matrix that turns about the y axis by an angle of cosine `c` and sine
/// `s`; `n` is `-s`.
pub open spec fn rotation_y<T: Zero<Output = T> + One<Output = T>>(c: T, s: T, n: T) -> Seq<T> {
    let o = T::one_spec();
    let z = T::zero_spec();
    seq![c, z, s, z, z, o, z, z, n, z, c, z, z, z, z, o]
}

/// The matrix that turns about the z axis by an angle of cosine `c` and sine
/// `s`; `n` is `-s`.
pub open spec fn rotation_z<T: Zero<Output = T> + One<Output = T>>(c: T, s: T, n: T) -> Seq<T> {
    let o = T::one_spec();
    let z = T::zero_spec();
    seq![c, n, z, z, s, c, z, z, z, z, o, z, z, z, z, o]
}

/// The angle of `degrees` in radians.
pub open spec fn angle<T: Radians<Output = T>>(degrees: T) -> T {
    degrees.to_rad_spec()
}

/// The sine of `angle(degrees)` can be negated, and `-` computes what its
/// specification says.
pub open spec fn turn_req<T: Radians<Output = T> + Sinus<Output = T> + Neg<Output = T>>(
    degrees: T,
) -> bool {
    T::obeys_neg_spec() && angle(degrees).sinus_spec().neg_req()
}

#[derive(Debug)]
pub struct Mat4<T> {
    data: [T; 16],
}

impl<T> View for Mat4<T> {
    type V = Seq<T>;

    closed spec fn view(&self) -> Seq<T> {
        self.data@
    }
}

/// The matrix whose entries, row by row, are `s`.
pub closed spec fn matrix_of<T>(s: Seq<T>) -> Mat4<T> {
    choose|m: Mat4<T>| m@ == s
}

/// A matrix is known by its entries.
pub proof fn lemma_matrix_of<T>(m: Mat4<T>)
    ensures
        matrix_of(m@) == m,
        m@.len() == 16,
{
    let n = matrix_of(m@);
    assert(n@ == m@);
    assert(n.data =~= m.data);
}

impl<T> Mat4<T> {
    /// The matrix whose entries, row by row, are `data`.
    pub fn from_data(data: [T; 16]) -> (r: Self)
        ensures
            r@ == data@,
    {
        Self { data }
    }

    pub fn borrow_data(&self) -> (r: &[T; 16])
        ensures
            r@ == self@,
    {
        &self.data
    }
}

impl<T: Zero<Output = T> + One<Output = T>> Default for Mat4<T> {
    fn default() -> (r: Self)
        ensures
            r@ == identity::<T>(),
    {
        let r = Self {
            data: [
                T::one(),
                T::zero(),
                T::zero(),
                T::zero(),
                T::zero(),
                T::one(),
                T::zero(),
                T::zero(),
                T::zero(),
                T::zero(),
                T::one(),
                T::zero(),
                T::zero(),
                T::zero(),
                T::zero(),
                T::one(),
            ],
        };
        assert(r@ =~= identity::<T>());
        r
    }
}

impl<T> Index<Mat4Index> for Mat4<T> {
    type Output = T;

    fn index(&self, index: Mat4Index) -> (r: &T)
        ensures
            *r == self@[index.place()],
    {
        &self.data[index.value()]
    }
}

impl<T> vstd::std_specs::core::IndexSpecImpl<Mat4Index> for Mat4<T> {
    open spec fn index_req(&self, index: &Mat4Index) -> bool {
        true
    }
}

impl<T> Mul<Vec4<T>> for Mat4<T> where T: Mul<Output = T> + Add<Output = T> + Copy {
    type Output = Vec4<T>;

    fn mul(self, rhs: Vec4<T>) -> Vec4<T> {
        rhs * self
    }
}

impl<T> vstd::std_specs::ops::MulSpecImpl<Vec4<T>> for Mat4<T> where T: Mul<Output = T> + Add<Output = T> + Copy {
    open spec fn obeys_mul_spec() -> bool {
        obeys_ring::<T>()
    }

    open spec fn mul_req(self, rhs: Vec4<T>) -> bool {
        obeys_ring::<T>() && rows_req(rhs.quad(), self@)
    }

    open spec fn mul_spec(self, rhs: Vec4<T>) -> Vec4<T> {
        rows_dot(rhs.quad(), self@)
    }
}

impl<T> Mul<Mat4<T>> for Mat4<T> where T: Add<Output = T> + Mul<Output = T> + Copy {
    type Output = Mat4<T>;

    fn mul(self, rhs: Mat4<T>) -> Mat4<T> {
        let r = Mat4::mul(&self, &rhs);
        proof {
            lemma_matrix_of(r);
        }
        r
    }
}

impl<T> vstd::std_specs::ops::MulSpecImpl<Mat4<T>> for Mat4<T> where T: Add<Output = T> + Mul<Output = T> + Copy {
    open spec fn obeys_mul_spec() -> bool {
        obeys_ring::<T>()
    }

    open spec fn mul_req(self, rhs: Mat4<T>) -> bool {
        obeys_ring::<T>() && product_req(self@, rhs@)
    }

    open spec fn mul_spec(self, rhs: Mat4<T>) -> Mat4<T> {
        matrix_of(product(self@, rhs@))
    }
}

impl<T> Mul<&Mat4<T>> for Mat4<T> where T: Add<Output = T> + Mul<Output = T> + Copy {
    type Output = Mat4<T>;

    fn mul(self, rhs: &Mat4<T>) -> Mat4<T> {
        let r = Mat4::mul(&self, rhs);
        proof {
            lemma_matrix_of(r);
        }
        r
    }
}

impl<T> vstd::std_specs::ops::MulSpecImpl<&Mat4<T>> for Mat4<T> where T: Add<Output = T> + Mul<Output = T> + Copy {
    open spec fn obeys_mul_spec() -> bool {
        obeys_ring::<T>()
    }

    open spec fn mul_req(self, rhs: &Mat4<T>) -> bool {
        obeys_ring::<T>() && product_req(self@, rhs@)
    }

    open spec fn mul_spec(self, rhs: &Mat4<T>) -> Mat4<T> {
        matrix_of(product(self@, rhs@))
    }
}

impl<T> Mat4<T> where T: Add<Output = T> + Mul<Output = T> + Copy {
    /// The entry of the product of `m1` and `m2` at row `i` and column `j`.
    fn cell(m1: &Self, m2: &Self, i: usize, j: usize) -> (r: T)
        requires
            i < 4,
            j < 4,
            obeys_ring::<T>(),
            dot4_req(row(m1@, i as int), column(m2@, j as int)),
        ensures
            r == dot4(row(m1@, i as int), column(m2@, j as int)),
    {
        dot4_of(
            (m1.data[4 * i], m1.data[4 * i + 1], m1.data[4 * i + 2], m1.data[4 * i + 3]),
            (m2.data[j], m2.data[4 + j], m2.data[8 + j], m2.data[12 + j]),
        )
    }

    /// The matrix product of `m1` and `m2`.
    pub fn mul(m1: &Self, m2: &Self) -> (r: Self)
        requires
            obeys_ring::<T>(),
            product_req(m1@, m2@),
        ensures
            r@ == product(m1@, m2@),
    {
        let data: [T; 16] = [
            Self::cell(m1, m2, 0, 0),
            Self::cell(m1, m2, 0, 1),
            Self::cell(m1, m2, 0, 2),
            Self::cell(m1, m2, 0, 3),
            Self::cell(m1, m2, 1, 0),
            Self::cell(m1, m2, 1, 1),
            Self::cell(m1, m2, 1, 2),
            Self::cell(m1, m2, 1, 3),
            Self::cell(m1, m2, 2, 0),
            Self::cell(m1, m2, 2, 1),
            Self::cell(m1, m2, 2, 2),
            Self::cell(m1, m2, 2, 3),
            Self::cell(m1, m2, 3, 0),
            Self::cell(m1, m2, 3, 1),
            Self::cell(m1, m2, 3, 2),
            Self::cell(m1, m2, 3, 3),
        ];
        let r = Self { data };
        assert(r@ =~= product(m1@, m2@));
        r
    }
}

impl<T> Mat4<T> where T: Add<Output = T> + Mul<Output = T> + Zero<Output = T> + One<Output = T> + Copy {
    /// `m` followed by a move by `v`.
    pub fn translate(m: &Self, v: &Vec3<T>) -> (r: Self)
        requires
            obeys_ring::<T>(),
            product_req(m@, translation(*v)),
        ensures
            r@ == product(m@, translation(*v)),
    {
        let data: [T; 16] = [
            T::one(),
            T::zero(),
            T::zero(),
            v.x,
            T::zero(),
            T::one(),
            T::zero(),
            v.y,
            T::zero(),
            T::zero(),
            T::one(),
            v.z,
            T::zero(),
            T::zero(),
            T::zero(),
            T::one(),
        ];
        let t = Self { data };
        assert(t@ =~= translation(*v));
        Self::mul(m, &t)
    }

    /// `m` followed by a scaling of each axis by the component of `v`.
    pub fn scale(m: &Self, v: &Vec3<T>) -> (r: Self)
        requires
            obeys_ring::<T>(),
            product_req(m@, scaling(*v)),
        ensures
            r@ == product(m@, scaling(*v)),
    {
        let data: [T; 16] = [
            v.x,
            T::zero(),
            T::zero(),
            T::zero(),
            T::zero(),
            v.y,
            T::zero(),
            T::zero(),
            T::zero(),
            T::zero(),
            v.z,
            T::zero(),
            T::zero(),
            T::zero(),
            T::zero(),
            T::one(),
        ];
        let t = Self { data };
        assert(t@ =~= scaling(*v));
        Self::mul(m, &t)
    }
}

impl<T> Mat4<T> where
    T: Add<Output = T>
        + Mul<Output = T>
        + Neg<Output = T>
        + Zero<Output = T>
        + One<Output = T>
        + Radians<Output = T>
        + Cosinus<Output = T>
        + Sinus<Output = T>
        + Copy,
 {
    /// `m` followed by a turn of `degrees` about the x axis.
    pub fn rotate_x(m: &Self, degrees: &T) -> (r: Self)
        requires
            obeys_ring::<T>(),
            turn_req(*degrees),
            product_req(
                m@,
                rotation_x(
                    angle(*degrees).cosinus_spec(),
                    angle(*degrees).sinus_spec(),
                    angle(*degrees).sinus_spec().neg_spec(),
                ),
            ),
        ensures
            r@ == product(
                m@,
                rotation_x(
                    angle(*degrees).cosinus_spec(),
                    angle(*degrees).sinus_spec(),
                    angle(*degrees).sinus_spec().neg_spec(),
                ),
            ),
    {
        let rad = degrees.to_rad();

        let data: [T; 16] = [
            T::one(),
            T::zero(),
            T::zero(),
            T::zero(),
            T::zero(),
            rad.cosinus(),
            rad.sinus().neg(),
            T::zero(),
            T::zero(),
            rad.sinus(),
            rad.cosinus(),
            T::zero(),
            T::zero(),
            T::zero(),
            T::zero(),
            T::one(),
        ];
        let t = Self { data };
        assert(t@ =~= rotation_x(
            angle(*degrees).cosinus_spec(),
            angle(*degrees).sinus_spec(),
            angle(*degrees).sinus_spec().neg_spec(),
        ));
        Self::mul(m, &t)
    }

    /// `m` followed by a turn of `degrees` about the y axis.
    pub fn rotate_y(m: &Self, degrees: &T) -> (r: Self)
        requires
            obeys_ring::<T>(),
            turn_req(*degrees),
            product_req(
                m@,
                rotation_y(
                    angle(*degrees).cosinus_spec(),
                    angle(*degrees).sinus_spec(),
                    angle(*degrees).sinus_spec().neg_spec(),
                ),
            ),
        ensures
            r@ == product(
                m@,
                rotation_y(
                    angle(*degrees).cosinus_spec(),
                    angle(*degrees).sinus_spec(),
                    angle(*degrees).sinus_spec().neg_spec(),
                ),
            ),
    {
        let rad = degrees.to_rad();

        let data: [T; 16] = [
            rad.cosinus(),
            T::zero(),
            rad.sinus(),
            T::zero(),
            T::zero(),
            T::one(),
            T::zero(),
            T::zero(),
            rad.sinus().neg(),
            T::zero(),
            rad.cosinus(),
            T::zero(),
            T::zero(),
            T::zero(),
            T::zero(),
            T::one(),
        ];
        let t = Self { data };
        assert(t@ =~= rotation_y(
            angle(*degrees).cosinus_spec(),
            angle(*degrees).sinus_spec(),
            angle(*degrees).sinus_spec().neg_spec(),
        ));
        Self::mul(m, &t)
    }

    /// `m` followed by a turn of `degrees` about the z axis.
    pub fn rotate_z(m: &Self, degrees: &T) -> (r: Self)
        requires
            obeys_ring::<T>(),
            turn_req(*degrees),
            product_req(
                m@,
                rotation_z(
                    angle(*degrees).cosinus_spec(),
                    angle(*degrees).sinus_spec(),
                    angle(*degrees).sinus_spec().neg_spec(),
                ),
            ),
        ensures
            r@ == product(
                m@,
                rotation_z(
                    angle(*degrees).cosinus_spec(),
                    angle(*degrees).sinus_spec(),
                    angle(*degrees).sinus_spec().neg_spec(),
                ),
            ),
    {
        let rad = degrees.to_rad();

        let data: [T; 16] = [
            rad.cosinus(),
            rad.sinus().neg(),
            T::zero(),
            T::zero(),
            rad.sinus(),
            rad.cosinus(),
            T::zero(),
            T::zero(),
            T::zero(),
            T::zero(),
            T::one(),
            T::zero(),
            T::zero(),
            T::zero(),
            T::zero(),
            T::one(),
        ];
        let t = Self { data };
        assert(t@ =~= rotation_z(
            angle(*degrees).cosinus_spec(),
            angle(*degrees).sinus_spec(),
            angle(*degrees).sinus_spec().neg_spec(),
        ));
        Self::mul(m, &t)
    }
}

} // verus!
