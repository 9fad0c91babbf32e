//! Lattice points, sizes, displacement vectors and 2x2 integer rotation matrices.

use vstd::prelude::*;
use std::ops::{Add, Mul, Neg, Sub};
use vstd::std_specs::ops::MulSpec;
use vstd::arithmetic::mul::{
    lemma_mul_is_associative, lemma_mul_is_distributive_add,
    lemma_mul_is_distributive_add_other_way,
};

verus! {

/// A two-dimensional lattice point: (row, column).
#[derive(Clone, Copy, Debug, PartialEq, Eq, Structural, Hash, PartialOrd, Ord)]
pub struct Point(pub i32, pub i32);

/// A size of a rectangle: (rows, columns).
#[derive(Clone, Copy, Debug, PartialEq, Eq, Structural, Hash, PartialOrd, Ord)]
pub struct Size(pub i32, pub i32);

/// A difference between two `Point`s.
///
/// `Point(y0, x0) - Point(y1, x1) == Move(y0 - y1, x0 - x1)`
#[derive(Clone, Copy, Debug, PartialEq, Eq, Structural, Hash)]
pub struct Move(pub i32, pub i32);

/// A 2x2 rotation matrix.
///
/// `Rotation(yy, yx, xy, xx) * Move(y, x) == Move(yy*y + yx*x, xy*y + xx*x)`
#[derive(Clone, Copy, Debug, PartialEq, Eq, Structural, Hash)]
pub struct Rotation(pub i32, pub i32, pub i32, pub i32);

/// True when the mathematical integer `v` is representable as an `i32`.
pub open spec fn fits_i32(v: int) -> bool {
    i32::MIN <= v <= i32::MAX
}

/// True when `a * b + c * d` can be evaluated in `i32` arithmetic without overflow.
pub open spec fn dot_fits(a: int, b: int, c: int, d: int) -> bool {
    fits_i32(a * b) && fits_i32(c * d) && fits_i32(a * b + c * d)
}

/// The matrix product `a * b`.
pub open spec fn compose(a: Rotation, b: Rotation) -> Rotation {
    Rotation(
        (a.0 * b.0 + a.1 * b.2) as i32,
        (a.0 * b.1 + a.1 * b.3) as i32,
        (a.2 * b.0 + a.3 * b.2) as i32,
        (a.2 * b.1 + a.3 * b.3) as i32,
    )
}

/// The image of `m` under the matrix `a`.
pub open spec fn rotate(a: Rotation, m: Move) -> Move {
    Move((a.0 * m.0 + a.1 * m.1) as i32, (a.2 * m.0 + a.3 * m.1) as i32)
}

/// The counterclockwise rotation by `i` quarter turns, for `i` in `0..4`: the values of
/// `rot_ccw0`, `rot_ccw90`, `rot_ccw180` and `rot_ccw270`.
pub open spec fn quarter_turn(i: int) -> Rotation {
    if i == 0 {
        Rotation(1, 0, 0, 1)
    } else if i == 1 {
        Rotation(0, -1i32, 1, 0)
    } else if i == 2 {
        Rotation(-1i32, 0, 0, -1i32)
    } else {
        Rotation(0, 1, -1i32, 0)
    }
}

/// The unit moves up, left, down and right (counterclockwise order), for `j` in `0..4`.
pub open spec fn cardinal(j: int) -> Move {
    if j == 0 {
        Move(-1i32, 0)
    } else if j == 1 {
        Move(0, -1i32)
    } else if j == 2 {
        Move(1, 0)
    } else {
        Move(0, 1)
    }
}

/// The diagonal moves up+right, left+up, down+left and right+down (counterclockwise order),
/// for `j` in `0..4`.
pub open spec fn diagonal(j: int) -> Move {
    if j == 0 {
        Move(-1i32, 1)
    } else if j == 1 {
        Move(-1i32, -1i32)
    } else if j == 2 {
        Move(1, -1i32)
    } else {
        Move(1, 1)
    }
}

/// Quarter turns compose cyclically: turning by `i` then by `j` quarters is turning by
/// `(i + j) mod 4` quarters, and the product never overflows.
pub proof fn lemma_quarter_turns_compose(i: int, j: int)
    requires
        0 <= i < 4,
        0 <= j < 4,
    ensures
        quarter_turn(i).mul_req(quarter_turn(j)),
        compose(quarter_turn(i), quarter_turn(j)) == quarter_turn((i + j) % 4),
{
    assert(compose(quarter_turn(1), quarter_turn(1)) == quarter_turn(2));
    assert(compose(quarter_turn(1), quarter_turn(2)) == quarter_turn(3));
    assert(compose(quarter_turn(1), quarter_turn(3)) == quarter_turn(0));
    assert(compose(quarter_turn(2), quarter_turn(1)) == quarter_turn(3));
    assert(compose(quarter_turn(2), quarter_turn(2)) == quarter_turn(0));
    assert(compose(quarter_turn(2), quarter_turn(3)) == quarter_turn(1));
    assert(compose(quarter_turn(3), quarter_turn(1)) == quarter_turn(0));
    assert(compose(quarter_turn(3), quarter_turn(2)) == quarter_turn(1));
    assert(compose(quarter_turn(3), quarter_turn(3)) == quarter_turn(2));
}

/// A quarter turn by `i` carries the `j`-th unit move, and the `j`-th diagonal move, to the
/// one `i` places further in counterclockwise order.
pub proof fn lemma_quarter_turns_permute_moves(i: int, j: int)
    requires
        0 <= i < 4,
        0 <= j < 4,
    ensures
        quarter_turn(i).mul_req(cardinal(j)),
        quarter_turn(i).mul_req(diagonal(j)),
        rotate(quarter_turn(i), cardinal(j)) == cardinal((i + j) % 4),
        rotate(quarter_turn(i), diagonal(j)) == diagonal((i + j) % 4),
{
}

/// The identity rotation is a unit on both sides of the matrix product.
pub proof fn lemma_compose_identity(a: Rotation)
    ensures
        quarter_turn(0).mul_req(a),
        a.mul_req(quarter_turn(0)),
        compose(quarter_turn(0), a) == a,
        compose(a, quarter_turn(0)) == a,
{
}

/// The matrix product is associative wherever neither grouping overflows.
pub proof fn lemma_compose_associative(a: Rotation, b: Rotation, c: Rotation)
    requires
        a.mul_req(b),
        b.mul_req(c),
        compose(a, b).mul_req(c),
        a.mul_req(compose(b, c)),
    ensures
        compose(compose(a, b), c) == compose(a, compose(b, c)),
{
    lemma_entry_associative(
        a.0 as int,
        a.1 as int,
        b.0 as int,
        b.1 as int,
        b.2 as int,
        b.3 as int,
        c.0 as int,
        c.2 as int,
    );
    lemma_entry_associative(
        a.0 as int,
        a.1 as int,
        b.0 as int,
        b.1 as int,
        b.2 as int,
        b.3 as int,
        c.1 as int,
        c.3 as int,
    );
    lemma_entry_associative(
        a.2 as int,
        a.3 as int,
        b.0 as int,
        b.1 as int,
        b.2 as int,
        b.3 as int,
        c.0 as int,
        c.2 as int,
    );
    lemma_entry_associative(
        a.2 as int,
        a.3 as int,
        b.0 as int,
        b.1 as int,
        b.2 as int,
        b.3 as int,
        c.1 as int,
        c.3 as int,
    );
}

/// One entry of a triple matrix product is the same under either grouping.
proof fn lemma_entry_associative(
    x0: int,
    x1: int,
    y0: int,
    y1: int,
    y2: int,
    y3: int,
    z0: int,
    z2: int,
)
    ensures
        (x0 * y0 + x1 * y2) * z0 + (x0 * y1 + x1 * y3) * z2 == x0 * (y0 * z0 + y1 * z2) + x1 * (y2
            * z0 + y3 * z2),
{
    lemma_mul_is_distributive_add_other_way(z0, x0 * y0, x1 * y2);
    lemma_mul_is_distributive_add_other_way(z2, x0 * y1, x1 * y3);
    lemma_mul_is_distributive_add(x0, y0 * z0, y1 * z2);
    lemma_mul_is_distributive_add(x1, y2 * z0, y3 * z2);
    lemma_mul_is_associative(x0, y0, z0);
    lemma_mul_is_associative(x1, y2, z0);
    lemma_mul_is_associative(x0, y1, z2);
    lemma_mul_is_associative(x1, y3, z2);
}

/// An upward `Move` vector.
pub fn move_up() -> (r: Move)
    ensures
        r == Move(-1i32, 0),
{
    Move(-1i32, 0)
}

/// A rightward `Move` vector.
pub fn move_right() -> (r: Move)
    ensures
        r == Move(0, 1),
{
    Move(0, 1)
}

/// A downward `Move` vector.
pub fn move_down() -> (r: Move)
    ensures
        r == Move(1, 0),
{
    Move(1, 0)
}

/// A leftward `Move` vector.
pub fn move_left() -> (r: Move)
    ensures
        r == Move(0, -1i32),
{
    Move(0, -1i32)
}

/// `Move` vectors toward the four orthogonally adjacent points: up, right, down, left.
pub fn move_all_directions() -> (r: [Move; 4])
    ensures
        r@ == seq![Move(-1i32, 0), Move(0, 1), Move(1, 0), Move(0, -1i32)],
{
    let r = [move_up(), move_right(), move_down(), move_left()];
    assert(r@ =~= seq![Move(-1i32, 0), Move(0, 1), Move(1, 0), Move(0, -1i32)]);
    r
}

/// `Move` vectors toward the eight adjacent points, clockwise from up.
pub fn move_all_adjacents() -> (r: [Move; 8])
    ensures
        r@ == seq![
            Move(-1i32, 0),
            Move(-1i32, 1),
            Move(0, 1),
            Move(1, 1),
            Move(1, 0),
            Move(1, -1i32),
            Move(0, -1i32),
            Move(-1i32, -1i32),
        ],
{
    let r = [
        move_up(),
        Move(-1i32, 1),
        move_right(),
        Move(1, 1),
        move_down(),
        Move(1, -1i32),
        move_left(),
        Move(-1i32, -1i32),
    ];
    assert(r@ =~= seq![
        Move(-1i32, 0),
        Move(-1i32, 1),
        Move(0, 1),
        Move(1, 1),
        Move(1, 0),
        Move(1, -1i32),
        Move(0, -1i32),
        Move(-1i32, -1i32),
    ]);
    r
}

/// A 0-degree `Rotation` to the left (counterclockwise).
pub fn rot_ccw0() -> (r: Rotation)
    ensures
        r == Rotation(1, 0, 0, 1),
{
    Rotation(1, 0, 0, 1)
}

/// A 90-degree `Rotation` to the left (counterclockwise).
pub fn rot_ccw90() -> (r: Rotation)
    ensures
        r == Rotation(0, -1i32, 1, 0),
{
    Rotation(0, -1i32, 1, 0)
}

/// A 180-degree `Rotation` to the left (counterclockwise).
pub fn rot_ccw180() -> (r: Rotation)
    ensures
        r == Rotation(-1i32, 0, 0, -1i32),
{
    Rotation(-1i32, 0, 0, -1i32)
}

/// A 270-degree `Rotation` to the left (counterclockwise).
pub fn rot_ccw270() -> (r: Rotation)
    ensures
        r == Rotation(0, 1, -1i32, 0),
{
    Rotation(0, 1, -1i32, 0)
}

/// Flip horizontal: mirrors columns.
pub fn rot_h_flip() -> (r: Rotation)
    ensures
        r == Rotation(1, 0, 0, -1i32),
{
    Rotation(1, 0, 0, -1i32)
}

/// Flip vertical: mirrors rows.
pub fn rot_v_flip() -> (r: Rotation)
    ensures
        r == Rotation(-1i32, 0, 0, 1),
{
    Rotation(-1i32, 0, 0, 1)
}

impl vstd::std_specs::ops::AddSpecImpl<Move> for Point {
    open spec fn obeys_add_spec() -> bool {
        true
    }

    open spec fn add_req(self, rhs: Move) -> bool {
        fits_i32(self.0 + rhs.0) && fits_i32(self.1 + rhs.1)
    }

    open spec fn add_spec(self, rhs: Move) -> Point {
        Point((self.0 + rhs.0) as i32, (self.1 + rhs.1) as i32)
    }
}

impl Add<Move> for Point {
    type Output = Point;

    fn add(self, other: Move) -> Point {
        Point(self.0 + other.0, self.1 + other.1)
    }
}

impl vstd::std_specs::ops::SubSpecImpl<Point> for Point {
    open spec fn obeys_sub_spec() -> bool {
        true
    }

    open spec fn sub_req(self, rhs: Point) -> bool {
        fits_i32(self.0 - rhs.0) && fits_i32(self.1 - rhs.1)
    }

    open spec fn sub_spec(self, rhs: Point) -> Move {
        Move((self.0 - rhs.0) as i32, (self.1 - rhs.1) as i32)
    }
}

impl Sub<Point> for Point {
    type Output = Move;

    fn sub(self, other: Point) -> Move {
        Move(self.0 - other.0, self.1 - other.1)
    }
}

impl vstd::std_specs::ops::AddSpecImpl<Move> for Move {
    open spec fn obeys_add_spec() -> bool {
        true
    }

    open spec fn add_req(self, rhs: Move) -> bool {
        fits_i32(self.0 + rhs.0) && fits_i32(self.1 + rhs.1)
    }

    open spec fn add_spec(self, rhs: Move) -> Move {
        Move((self.0 + rhs.0) as i32, (self.1 + rhs.1) as i32)
    }
}

impl Add<Move> for Move {
    type Output = Move;

    fn add(self, other: Move) -> Move {
        Move(self.0 + other.0, self.1 + other.1)
    }
}

impl vstd::std_specs::ops::SubSpecImpl<Move> for Move {
    open spec fn obeys_sub_spec() -> bool {
        true
    }

    open spec fn sub_req(self, rhs: Move) -> bool {
        fits_i32(self.0 - rhs.0) && fits_i32(self.1 - rhs.1)
    }

    open spec fn sub_spec(self, rhs: Move) -> Move {
        Move((self.0 - rhs.0) as i32, (self.1 - rhs.1) as i32)
    }
}

impl Sub<Move> for Move {
    type Output = Move;

    fn sub(self, other: Move) -> Move {
        Move(self.0 - other.0, self.1 - other.1)
    }
}

impl vstd::std_specs::ops::NegSpecImpl for Move {
    open spec fn obeys_neg_spec() -> bool {
        true
    }

    open spec fn neg_req(self) -> bool {
        fits_i32(-self.0) && fits_i32(-self.1)
    }

    open spec fn neg_spec(self) -> Move {
        Move((-self.0) as i32, (-self.1) as i32)
    }
}

impl Neg for Move {
    type Output = Move;

    fn neg(self) -> Move {
        Move(-self.0, -self.1)
    }
}

impl vstd::std_specs::ops::MulSpecImpl<i32> for Move {
    open spec fn obeys_mul_spec() -> bool {
        true
    }

    open spec fn mul_req(self, rhs: i32) -> bool {
        fits_i32(self.0 * rhs) && fits_i32(self.1 * rhs)
    }

    open spec fn mul_spec(self, rhs: i32) -> Move {
        Move((self.0 * rhs) as i32, (self.1 * rhs) as i32)
    }
}

impl Mul<i32> for Move {
    type Output = Move;

    fn mul(self, other: i32) -> Move {
        Move(self.0 * other, self.1 * other)
    }
}

impl vstd::std_specs::ops::MulSpecImpl<Rotation> for Rotation {
    open spec fn obeys_mul_spec() -> bool {
        true
    }

    open spec fn mul_req(self, rhs: Rotation) -> bool {
        &&& dot_fits(self.0 as int, rhs.0 as int, self.1 as int, rhs.2 as int)
        &&& dot_fits(self.0 as int, rhs.1 as int, self.1 as int, rhs.3 as int)
        &&& dot_fits(self.2 as int, rhs.0 as int, self.3 as int, rhs.2 as int)
        &&& dot_fits(self.2 as int, rhs.1 as int, self.3 as int, rhs.3 as int)
    }

    open spec fn mul_spec(self, rhs: Rotation) -> Rotation {
        compose(self, rhs)
    }
}

impl Mul<Rotation> for Rotation {
    type Output = Rotation;

    fn mul(self, other: Rotation) -> Rotation {
        Rotation(
            self.0 * other.0 + self.1 * other.2,
            self.0 * other.1 + self.1 * other.3,
            self.2 * other.0 + self.3 * other.2,
            self.2 * other.1 + self.3 * other.3,
        )
    }
}

impl vstd::std_specs::ops::MulSpecImpl<Move> for Rotation {
    open spec fn obeys_mul_spec() -> bool {
        true
    }

    open spec fn mul_req(self, rhs: Move) -> bool {
        &&& dot_fits(self.0 as int, rhs.0 as int, self.1 as int, rhs.1 as int)
        &&& dot_fits(self.2 as int, rhs.0 as int, self.3 as int, rhs.1 as int)
    }

    open spec fn mul_spec(self, rhs: Move) -> Move {
        rotate(self, rhs)
    }
}

impl Mul<Move> for Rotation {
    type Output = Move;

    fn mul(self, other: Move) -> Move {
        Move(self.0 * other.0 + self.1 * other.1, self.2 * other.0 + self.3 * other.1)
    }
}

} // verus!
