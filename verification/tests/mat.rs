use graph_punk::maths::cos::Cosinus;
use graph_punk::maths::mat::{Mat4, Mat4Index};
use graph_punk::maths::one::One;
use graph_punk::maths::rad::Radians;
use graph_punk::maths::sin::Sinus;
use graph_punk::maths::vec::{Vec3, Vec4};
use graph_punk::maths::zero::{ConvertFrom, Zero};
use std::ops::{Add, Div, Mul, Neg, Sub};

/// A whole number that is also an angle in quarter turns of 90 degrees: its
/// sine and cosine are whole numbers too.
#[derive(Clone, Copy, Debug, PartialEq)]
struct Turn(i64);

impl Add for Turn {
    type Output = Turn;

    fn add(self, rhs: Turn) -> Turn {
        Turn(self.0 + rhs.0)
    }
}

impl Sub for Turn {
    type Output = Turn;

    fn sub(self, rhs: Turn) -> Turn {
        Turn(self.0 - rhs.0)
    }
}

impl Mul for Turn {
    type Output = Turn;

    fn mul(self, rhs: Turn) -> Turn {
        Turn(self.0 * rhs.0)
    }
}

impl Div for Turn {
    type Output = Turn;

    fn div(self, rhs: Turn) -> Turn {
        Turn(self.0 / rhs.0)
    }
}

impl Neg for Turn {
    type Output = Turn;

    fn neg(self) -> Turn {
        Turn(-self.0)
    }
}

impl Zero for Turn {
    type Output = Turn;

    fn zero() -> Turn {
        Turn(0)
    }
}

impl One for Turn {
    type Output = Turn;

    fn one() -> Turn {
        Turn(1)
    }
}

impl ConvertFrom<i32> for Turn {
    type Output = Turn;

    fn convert_from(from: i32) -> Turn {
        Turn(from as i64)
    }
}

impl Radians for Turn {
    type Output = Turn;

    fn to_rad(&self) -> Turn {
        Turn(self.0 / 90)
    }
}

impl Cosinus for Turn {
    type Output = Turn;

    fn cosinus(&self) -> Turn {
        Turn([1, 0, -1, 0][self.0.rem_euclid(4) as usize])
    }
}

impl Sinus for Turn {
    type Output = Turn;

    fn sinus(&self) -> Turn {
        Turn([0, 1, 0, -1][self.0.rem_euclid(4) as usize])
    }
}

fn matrix(m: &Mat4<Turn>) -> [i64; 16] {
    m.borrow_data().map(|t| t.0)
}

/// A scaling by 2, 3 and 5 followed by a move by 7, 11 and 13.
fn scaled_and_moved() -> Mat4<Turn> {
    let scaled = Mat4::scale(&Mat4::default(), &Vec3 { x: Turn(2), y: Turn(3), z: Turn(5) });
    Mat4::translate(&scaled, &Vec3 { x: Turn(7), y: Turn(11), z: Turn(13) })
}

#[test]
fn places_are_counted_row_by_row() {
    assert_eq!(Mat4Index::X1.value(), 0);
    assert_eq!(Mat4Index::Y1.value(), 1);
    assert_eq!(Mat4Index::Z1.value(), 2);
    assert_eq!(Mat4Index::W1.value(), 3);
    assert_eq!(Mat4Index::X2.value(), 4);
    assert_eq!(Mat4Index::Y2.value(), 5);
    assert_eq!(Mat4Index::Z2.value(), 6);
    assert_eq!(Mat4Index::W2.value(), 7);
    assert_eq!(Mat4Index::X3.value(), 8);
    assert_eq!(Mat4Index::Y3.value(), 9);
    assert_eq!(Mat4Index::Z3.value(), 10);
    assert_eq!(Mat4Index::W3.value(), 11);
    assert_eq!(Mat4Index::X4.value(), 12);
    assert_eq!(Mat4Index::Y4.value(), 13);
    assert_eq!(Mat4Index::Z4.value(), 14);
    assert_eq!(Mat4Index::W4.value(), 15);
}

#[test]
fn the_default_matrix_is_the_identity() {
    let m: Mat4<Turn> = Mat4::default();

    assert_eq!(matrix(&m), [1, 0, 0, 0, 0, 1, 0, 0, 0, 0, 1, 0, 0, 0, 0, 1]);
    assert_eq!(m[Mat4Index::X1], Turn(1));
    assert_eq!(m[Mat4Index::Y1], Turn(0));
    assert_eq!(m[Mat4Index::W4], Turn(1));
}

#[test]
fn the_default_matrix_of_integers_is_the_identity() {
    let m: Mat4<i32> = Mat4::default();

    assert_eq!(m[Mat4Index::X1], 1);
    assert_eq!(m[Mat4Index::Y2], 1);
    assert_eq!(m[Mat4Index::Z3], 1);
    assert_eq!(m[Mat4Index::W4], 1);
    assert_eq!(m[Mat4Index::X2], 0);
    assert_eq!(m[Mat4Index::W1], 0);
}

#[test]
fn translate_puts_the_move_in_the_last_column() {
    let m = Mat4::translate(
        &Mat4::default(),
        &Vec3 { x: Turn(7), y: Turn(11), z: Turn(13) },
    );

    assert_eq!(matrix(&m), [1, 0, 0, 7, 0, 1, 0, 11, 0, 0, 1, 13, 0, 0, 0, 1]);
    assert_eq!(m[Mat4Index::W1], Turn(7));
    assert_eq!(m[Mat4Index::W2], Turn(11));
    assert_eq!(m[Mat4Index::W3], Turn(13));
}

#[test]
fn scale_puts_the_factors_on_the_diagonal() {
    let m = Mat4::scale(&Mat4::default(), &Vec3 { x: Turn(2), y: Turn(3), z: Turn(5) });

    assert_eq!(matrix(&m), [2, 0, 0, 0, 0, 3, 0, 0, 0, 0, 5, 0, 0, 0, 0, 1]);
}

#[test]
fn scale_then_translate() {
    assert_eq!(matrix(&scaled_and_moved()), [2, 0, 0, 14, 0, 3, 0, 33, 0, 0, 5, 65, 0, 0, 0, 1]);
}

#[test]
fn the_product_is_rows_times_columns() {
    let a = scaled_and_moved();
    let moved = Mat4::translate(&Mat4::default(), &Vec3 { x: Turn(1), y: Turn(1), z: Turn(1) });
    let b = Mat4::rotate_z(&moved, &Turn(90));

    assert_eq!(matrix(&b), [0, -1, 0, 1, 1, 0, 0, 1, 0, 0, 1, 1, 0, 0, 0, 1]);
    assert_eq!(
        matrix(&Mat4::mul(&a, &b)),
        [0, -2, 0, 16, 3, 0, 0, 36, 0, 0, 5, 70, 0, 0, 0, 1]
    );
    assert_eq!(
        matrix(&Mat4::mul(&b, &a)),
        [0, -3, 0, -32, 2, 0, 0, 15, 0, 0, 5, 66, 0, 0, 0, 1]
    );
    assert_eq!(
        matrix(&(scaled_and_moved() * b)),
        [0, -2, 0, 16, 3, 0, 0, 36, 0, 0, 5, 70, 0, 0, 0, 1]
    );
    assert_eq!(
        matrix(&(scaled_and_moved() * &scaled_and_moved())),
        [4, 0, 0, 42, 0, 9, 0, 132, 0, 0, 25, 390, 0, 0, 0, 1]
    );
}

#[test]
fn quarter_turns() {
    let i: Mat4<Turn> = Mat4::default();

    assert_eq!(
        matrix(&Mat4::rotate_x(&i, &Turn(90))),
        [1, 0, 0, 0, 0, 0, -1, 0, 0, 1, 0, 0, 0, 0, 0, 1]
    );
    assert_eq!(
        matrix(&Mat4::rotate_y(&i, &Turn(90))),
        [0, 0, 1, 0, 0, 1, 0, 0, -1, 0, 0, 0, 0, 0, 0, 1]
    );
    assert_eq!(
        matrix(&Mat4::rotate_z(&i, &Turn(90))),
        [0, -1, 0, 0, 1, 0, 0, 0, 0, 0, 1, 0, 0, 0, 0, 1]
    );
    assert_eq!(
        matrix(&Mat4::rotate_z(&i, &Turn(180))),
        [-1, 0, 0, 0, 0, -1, 0, 0, 0, 0, 1, 0, 0, 0, 0, 1]
    );
    assert_eq!(matrix(&Mat4::rotate_x(&i, &Turn(0))), matrix(&i));
}

#[test]
fn a_vector_meets_each_row() {
    let v = Vec4 { x: Turn(1), y: Turn(2), z: Turn(3), w: Turn(1) };
    let moved = Vec4 { x: Turn(16), y: Turn(39), z: Turn(80), w: Turn(1) };

    assert_eq!(v * scaled_and_moved(), moved);
    assert_eq!(scaled_and_moved() * v, moved);
}

#[test]
fn integer_matrices_multiply() {
    let moved: Mat4<i32> = Mat4::translate(&Mat4::default(), &Vec3 { x: 7, y: 11, z: 13 });
    let scaled: Mat4<i32> = Mat4::scale(&Mat4::default(), &Vec3 { x: 2, y: 3, z: 5 });

    assert_eq!(
        Mat4::mul(&scaled, &moved).borrow_data(),
        &[2, 0, 0, 14, 0, 3, 0, 33, 0, 0, 5, 65, 0, 0, 0, 1]
    );
    assert_eq!(
        Mat4::mul(&moved, &scaled).borrow_data(),
        &[2, 0, 0, 7, 0, 3, 0, 11, 0, 0, 5, 13, 0, 0, 0, 1]
    );
    assert_eq!(
        (Vec4 { x: 1, y: 2, z: 3, w: 1 }) * Mat4::mul(&moved, &scaled),
        Vec4 { x: 9, y: 17, z: 28, w: 1 }
    );
}

#[test]
fn a_matrix_is_made_of_its_entries() {
    let entries = [1, 2, 3, 4, 5, 6, 7, 8, 9, 10, 11, 12, 13, 14, 15, 16];
    let m = Mat4::from_data(entries);

    assert_eq!(m.borrow_data(), &entries);
    assert_eq!(m[Mat4Index::W1], 4);
    assert_eq!(m[Mat4Index::X2], 5);
    assert_eq!(m[Mat4Index::Z4], 15);
    assert_eq!(
        Mat4::mul(&m, &Mat4::from_data(entries)).borrow_data(),
        &[
            90, 100, 110, 120, 202, 228, 254, 280, 314, 356, 398, 440, 426, 484, 542, 600
        ]
    );
    assert_eq!(
        (Vec4 { x: 1, y: 0, z: -1, w: 2 }) * Mat4::from_data(entries),
        Vec4 { x: 6, y: 14, z: 22, w: 30 }
    );
}
