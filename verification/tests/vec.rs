use graph_punk::maths::sqrt::Sqrt;
use graph_punk::maths::vec::{Vec2, Vec3, Vec4};
use std::ops::{Add, Div, Mul, Sub};

/// A whole number with the square root rounded down.
#[derive(Clone, Copy, Debug, PartialEq)]
struct Whole(i64);

impl Add for Whole {
    type Output = Whole;

    fn add(self, rhs: Whole) -> Whole {
        Whole(self.0 + rhs.0)
    }
}

impl Sub for Whole {
    type Output = Whole;

    fn sub(self, rhs: Whole) -> Whole {
        Whole(self.0 - rhs.0)
    }
}

impl Mul for Whole {
    type Output = Whole;

    fn mul(self, rhs: Whole) -> Whole {
        Whole(self.0 * rhs.0)
    }
}

impl Div for Whole {
    type Output = Whole;

    fn div(self, rhs: Whole) -> Whole {
        Whole(self.0 / rhs.0)
    }
}

impl Sqrt for Whole {
    type Type = Whole;

    fn sqrt(value: Whole) -> Whole {
        let mut root = 0;
        while (root + 1) * (root + 1) <= value.0 {
            root += 1;
        }
        Whole(root)
    }
}

fn whole(x: i64, y: i64, z: i64) -> Vec3<Whole> {
    Vec3 { x: Whole(x), y: Whole(y), z: Whole(z) }
}

fn v2(x: i32, y: i32) -> Vec2<i32> {
    Vec2 { x, y }
}

fn v3(x: i32, y: i32, z: i32) -> Vec3<i32> {
    Vec3 { x, y, z }
}

fn v4(x: i32, y: i32, z: i32, w: i32) -> Vec4<i32> {
    Vec4 { x, y, z, w }
}

#[test]
fn vec2_with_a_scalar() {
    assert_eq!(v2(1, 2) + 10, v2(11, 12));
    assert_eq!(v2(1, 2) - 10, v2(-9, -8));

    let mut v = v2(1, 2);
    v += 5;
    assert_eq!(v, v2(6, 7));
    v -= 6;
    assert_eq!(v, v2(0, 1));
}

#[test]
fn vec3_plus() {
    assert_eq!(v3(1, 2, 3) + 10, v3(11, 12, 13));
    assert_eq!(v3(1, 2, 3) + &10, v3(11, 12, 13));
    assert_eq!(&v3(1, 2, 3) + 10, v3(11, 12, 13));
    assert_eq!(&v3(1, 2, 3) + &10, v3(11, 12, 13));
    assert_eq!(v3(1, 2, 3) + v3(10, 20, 30), v3(11, 22, 33));
    assert_eq!(&v3(1, 2, 3) + v3(10, 20, 30), v3(11, 22, 33));
    assert_eq!(v3(1, 2, 3) + &v3(10, 20, 30), v3(11, 22, 33));
    assert_eq!(&v3(1, 2, 3) + &v3(10, 20, 30), v3(11, 22, 33));
}

#[test]
fn vec3_plus_assign() {
    let mut v = v3(1, 2, 3);
    v += 1;
    assert_eq!(v, v3(2, 3, 4));
    v += &2;
    assert_eq!(v, v3(4, 5, 6));
    v += v3(1, 0, -1);
    assert_eq!(v, v3(5, 5, 5));
    v += &v3(0, 1, 2);
    assert_eq!(v, v3(5, 6, 7));
}

#[test]
fn vec3_minus() {
    assert_eq!(v3(1, 2, 3) - 10, v3(-9, -8, -7));
    assert_eq!(v3(1, 2, 3) - &10, v3(-9, -8, -7));
    assert_eq!(&v3(1, 2, 3) - 10, v3(-9, -8, -7));
    assert_eq!(&v3(1, 2, 3) - &10, v3(-9, -8, -7));
}

#[test]
fn vec3_minus_assign() {
    let mut v = v3(10, 20, 30);
    v -= 1;
    assert_eq!(v, v3(9, 19, 29));
    v -= &2;
    assert_eq!(v, v3(7, 17, 27));
    v -= v3(7, 7, 7);
    assert_eq!(v, v3(0, 10, 20));
    v -= &v3(0, 1, 2);
    assert_eq!(v, v3(0, 9, 18));
}

#[test]
fn vec3_times() {
    assert_eq!(v3(1, 2, 3) * 10, v3(10, 20, 30));
    assert_eq!(v3(1, 2, 3) * &10, v3(10, 20, 30));
    assert_eq!(&v3(1, 2, 3) * 10, v3(10, 20, 30));
    assert_eq!(&v3(1, 2, 3) * &10, v3(10, 20, 30));
    assert_eq!(v3(1, 2, 3) * v3(4, 5, 6), v3(4, 10, 18));
    assert_eq!(v3(1, 2, 3) * &v3(4, 5, 6), v3(4, 10, 18));
    assert_eq!(&v3(1, 2, 3) * v3(4, 5, 6), v3(4, 10, 18));
    assert_eq!(&v3(1, 2, 3) * &v3(4, 5, 6), v3(4, 10, 18));
}

#[test]
fn vec3_times_assign() {
    let mut v = v3(1, 2, 3);
    v *= 2;
    assert_eq!(v, v3(2, 4, 6));
    v *= &3;
    assert_eq!(v, v3(6, 12, 18));
    v *= v3(1, 0, -1);
    assert_eq!(v, v3(6, 0, -18));
    v *= &v3(2, 2, 2);
    assert_eq!(v, v3(12, 0, -36));
}

#[test]
fn vec3_divided() {
    assert_eq!(v3(10, 21, -7) / 2, v3(5, 10, -3));
    assert_eq!(v3(10, 21, -7) / &2, v3(5, 10, -3));
    assert_eq!(&v3(10, 21, -7) / 2, v3(5, 10, -3));
    assert_eq!(&v3(10, 21, -7) / &2, v3(5, 10, -3));
    assert_eq!(v3(10, 20, 30) / v3(2, 3, 4), v3(5, 6, 7));
    assert_eq!(v3(10, 20, 30) / &v3(2, 3, 4), v3(5, 6, 7));
    assert_eq!(&v3(10, 20, 30) / v3(2, 3, 4), v3(5, 6, 7));
    assert_eq!(&v3(10, 20, 30) / &v3(2, 3, 4), v3(5, 6, 7));
}

#[test]
fn vec3_products_and_length() {
    assert_eq!(Vec3::scale(&whole(1, 2, 3), Whole(3)), whole(3, 6, 9));
    assert_eq!(Vec3::dot(&whole(1, 2, 3), &whole(4, 5, 6)), Whole(32));
    assert_eq!(Vec3::cross(&whole(1, 0, 0), &whole(0, 1, 0)), whole(0, 0, 1));
    assert_eq!(Vec3::cross(&whole(1, 2, 3), &whole(4, 5, 6)), whole(-3, 6, -3));
    assert_eq!(Vec3::magn(&whole(2, 3, 6)), Whole(7));
    assert_eq!(Vec3::magn(&whole(1, 1, 1)), Whole(1));
    assert_eq!(Vec3::normalize(&whole(0, 0, 5)), whole(0, 0, 1));
    assert_eq!(Vec3::normalize(&whole(14, 21, 42)), whole(0, 0, 0));
    assert_eq!(Vec3::normalize(&whole(-49, 0, 0)), whole(-1, 0, 0));
}

#[test]
fn integer_vectors_have_products_too() {
    assert_eq!(Vec3::scale(&v3(1, 2, 3), 3), v3(3, 6, 9));
    assert_eq!(Vec3::dot(&v3(1, 2, 3), &v3(4, 5, 6)), 32);
    assert_eq!(Vec3::cross(&v3(1, 2, 3), &v3(4, 5, 6)), v3(-3, 6, -3));
}

#[test]
fn vec4_with_a_scalar() {
    assert_eq!(v4(1, 2, 3, 4) + 10, v4(11, 12, 13, 14));
    assert_eq!(v4(1, 2, 3, 4) - 10, v4(-9, -8, -7, -6));
    assert_eq!(v4(1, 2, 3, 4) * 10, v4(10, 20, 30, 40));
    assert_eq!(&v4(1, 2, 3, 4) * 10, v4(10, 20, 30, 40));
    assert_eq!(v4(10, 21, -7, 0) / 2, v4(5, 10, -3, 0));
    assert_eq!(Vec4::scale(&v4(1, 2, 3, 4), -1), v4(-1, -2, -3, -4));
}

#[test]
fn vec4_with_a_vector() {
    assert_eq!(v4(1, 2, 3, 4) + v4(10, 20, 30, 40), v4(11, 22, 33, 44));
    assert_eq!(v4(1, 2, 3, 4) - v4(10, 20, 30, 40), v4(-9, -18, -27, -36));
    assert_eq!(v4(1, 2, 3, 4) * v4(5, 6, 7, 8), v4(5, 12, 21, 32));
    assert_eq!(v4(1, 2, 3, 4) * &v4(5, 6, 7, 8), v4(5, 12, 21, 32));
    assert_eq!(v4(10, 20, 30, 40) / v4(2, 3, 4, 5), v4(5, 6, 7, 8));
}

#[test]
fn vec4_assign() {
    let mut v = v4(1, 2, 3, 4);
    v += 1;
    assert_eq!(v, v4(2, 3, 4, 5));
    v += v4(1, 1, 1, 1);
    assert_eq!(v, v4(3, 4, 5, 6));
    v -= 3;
    assert_eq!(v, v4(0, 1, 2, 3));
    v -= v4(0, 1, 2, 3);
    assert_eq!(v, v4(0, 0, 0, 0));
    v += 6;
    v *= 2;
    assert_eq!(v, v4(12, 12, 12, 12));
    v *= v4(1, 2, 3, 4);
    assert_eq!(v, v4(12, 24, 36, 48));
    v /= 2;
    assert_eq!(v, v4(6, 12, 18, 24));
    v /= v4(6, 6, 6, 5);
    assert_eq!(v, v4(1, 2, 3, 4));
}
