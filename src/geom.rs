//! Rectangle coordinate spaces: containment, the bijection between points and
//! cell IDs, and iteration over the points of a rectangle.

use vstd::prelude::*;
use vstd::arithmetic::div_mod::lemma_fundamental_div_mod_converse;
use crate::vector::{fits_i32, Point, Size};

verus! {

/// True when `p` lies in the rectangle of size `s`.
pub open spec fn in_rect(s: Size, p: Point) -> bool {
    0 <= p.0 < s.0 && 0 <= p.1 < s.1
}

/// The number of points in the rectangle of size `s`.
pub open spec fn point_count(s: Size) -> int {
    if s.0 > 0 && s.1 > 0 {
        s.0 * s.1
    } else {
        0
    }
}

/// The cell ID of `p` in the rectangle of size `s`; 0 stands for every point outside.
pub open spec fn id_of_point(s: Size, p: Point) -> nat {
    if in_rect(s, p) {
        (p.0 * s.1 + p.1 + 1) as nat
    } else {
        0
    }
}

/// The point stored under cell ID `id`; the ID 0 gives the representative outside point.
pub open spec fn point_of_id(s: Size, id: nat) -> Point {
    if id == 0 {
        Point(-1i32, -1i32)
    } else {
        Point(((id - 1) / (s.1 as int)) as i32, ((id - 1) % (s.1 as int)) as i32)
    }
}

/// The `i`-th point of the rectangle of size `s` in row-major order.
pub open spec fn nth_point(s: Size, i: int) -> Point {
    Point((i / (s.1 as int)) as i32, (i % (s.1 as int)) as i32)
}

/// Every point of the rectangle of size `s`, in row-major order.
pub open spec fn row_major(s: Size) -> Seq<Point> {
    Seq::new(point_count(s) as nat, |i: int| nth_point(s, i))
}

/// The points `Point(row, 0)`, ..., `Point(row, columns - 1)`.
pub open spec fn row_points(s: Size, row: i32) -> Seq<Point> {
    Seq::new(if s.1 > 0 { s.1 as nat } else { 0 }, |i: int| Point(row, i as i32))
}

/// The points `Point(0, column)`, ..., `Point(rows - 1, column)`.
pub open spec fn column_points(s: Size, column: i32) -> Seq<Point> {
    Seq::new(if s.0 > 0 { s.0 as nat } else { 0 }, |i: int| Point(i as i32, column))
}

/// True when cell IDs of the rectangle of size `s` can be computed in `i32`.
pub open spec fn ids_fit(s: Size) -> bool {
    s.0 * s.1 <= i32::MAX
}

/// A point of the rectangle gets an ID in `1..=rows * columns`; every other point gets 0.
pub proof fn lemma_id_in_range(s: Size, p: Point)
    ensures
        in_rect(s, p) ==> 1 <= id_of_point(s, p) <= s.0 * s.1,
        !in_rect(s, p) ==> id_of_point(s, p) == 0,
{
    if in_rect(s, p) {
        assert(p.0 * s.1 <= (s.0 - 1) * s.1) by (nonlinear_arith)
            requires
                p.0 <= s.0 - 1,
                s.1 > 0,
        ;
        assert((s.0 - 1) * s.1 == s.0 * s.1 - s.1) by (nonlinear_arith);
        assert(0 <= p.0 * s.1) by (nonlinear_arith)
            requires
                p.0 >= 0,
                s.1 > 0,
        ;
    }
}

/// Converting a point of the rectangle to its cell ID and back gives the point again.
pub proof fn lemma_point_id_round_trip(s: Size, p: Point)
    requires
        in_rect(s, p),
    ensures
        point_of_id(s, id_of_point(s, p)) == p,
{
    lemma_id_in_range(s, p);
    lemma_fundamental_div_mod_converse(p.0 * s.1 + p.1, s.1 as int, p.0 as int, p.1 as int);
}

/// Every ID in `1..=rows * columns` names a point of the rectangle, and converting that point
/// back gives the ID again. (A size with both dimensions negative has a positive product but no
/// points, hence the positive column count.)
pub proof fn lemma_id_point_round_trip(s: Size, id: nat)
    requires
        1 <= id <= s.0 * s.1,
        s.1 > 0,
    ensures
        in_rect(s, point_of_id(s, id)),
        id_of_point(s, point_of_id(s, id)) == id,
{
    let k = id - 1;
    let c = s.1 as int;
    let q = k / c;
    let r = k % c;
    assert(k == q * c + r && 0 <= r < c) by {
        vstd::arithmetic::div_mod::lemma_fundamental_div_mod(k, c);
    }
    assert(0 <= q) by {
        vstd::arithmetic::div_mod::lemma_div_pos_is_pos(k, c);
    }
    assert(q < s.0) by {
        if q >= s.0 {
            assert(q * c >= s.0 * c) by (nonlinear_arith)
                requires
                    q >= s.0,
                    c > 0,
            ;
        }
    }
}

/// A point gets the outside ID exactly when it is not in the rectangle, and the point given for
/// the outside ID is not in the rectangle.
pub proof fn lemma_outside_sentinel(s: Size, p: Point)
    ensures
        (id_of_point(s, p) == 0) == !in_rect(s, p),
        !in_rect(s, point_of_id(s, 0)),
{
    lemma_id_in_range(s, p);
}

/// A rectangle with no rows or no columns has no points.
pub proof fn lemma_empty_rect(s: Size)
    requires
        s.0 == 0 || s.1 == 0,
    ensures
        row_major(s).len() == 0,
        forall|p: Point| !in_rect(s, p),
{
}

/// An ID identifying a cell in a lattice rectangle.
#[derive(Clone, Copy, Debug, PartialEq, Eq, Structural, Hash, PartialOrd, Ord)]
pub struct CellId(usize);

impl View for CellId {
    type V = nat;

    closed spec fn view(&self) -> nat {
        self.0 as nat
    }
}

impl CellId {
    /// Creates a new `CellId` from an ID.
    pub fn new(id: usize) -> (r: CellId)
        ensures
            r@ == id,
    {
        CellId(id)
    }

    /// Gets the ID of the cell.
    pub fn id(self) -> (r: usize)
        ensures
            r == self@,
    {
        self.0
    }

    /// Returns whether the cell is the one standing for every point outside the rectangle.
    pub fn is_outside(self) -> (r: bool)
        ensures
            r == (self@ == 0),
    {
        self.0 == 0
    }
}

/// The ID given to every point outside the rectangle.
pub fn cell_id_outside() -> (r: CellId)
    ensures
        r@ == 0,
{
    CellId(0)
}

/// The representative point of the points outside the rectangle.
fn outside_point() -> (r: Point)
    ensures
        r == Point(-1i32, -1i32),
{
    Point(-1, -1)
}

/// A rectangle area. Implementors give its size; everything else derives from it.
pub trait Geom {
    /// The rectangle's size, as a mathematical value.
    spec fn shape(&self) -> Size;

    /// Returns the rectangle's size.
    fn size(&self) -> (r: Size)
        ensures
            r == self.shape(),
    ;

    /// Returns the number of the rectangle's rows.
    fn row(&self) -> (r: i32)
        ensures
            r == self.shape().0,
    {
        self.size().0
    }

    /// Returns the number of the rectangle's columns.
    fn column(&self) -> (r: i32)
        ensures
            r == self.shape().1,
    {
        self.size().1
    }

    /// Returns the length of a storage holding every cell and the outside cell.
    fn cell_len(&self) -> (r: usize)
        requires
            0 <= self.shape().0 * self.shape().1,
            fits_i32(self.shape().0 * self.shape().1 + 1),
        ensures
            r == self.shape().0 * self.shape().1 + 1,
    {
        let s = self.size();
        (s.0 * s.1 + 1) as usize
    }

    /// Returns true if the point is contained in the rectangle.
    fn contains(&self, p: Point) -> (r: bool)
        ensures
            r == in_rect(self.shape(), p),
    {
        let size = self.size();
        0 <= p.0 && p.0 < size.0 && 0 <= p.1 && p.1 < size.1
    }

    /// Converts a point to the corresponding cell ID.
    fn point_to_cellid(&self, p: Point) -> (r: CellId)
        requires
            ids_fit(self.shape()),
        ensures
            r@ == id_of_point(self.shape(), p),
    {
        let s = self.size();
        if self.contains(p) {
            proof {
                assert(p.0 * s.1 <= (s.0 - 1) * s.1) by (nonlinear_arith)
                    requires
                        p.0 <= s.0 - 1,
                        s.1 > 0,
                ;
                assert((s.0 - 1) * s.1 == s.0 * s.1 - s.1) by (nonlinear_arith);
                assert(0 <= p.0 * s.1) by (nonlinear_arith)
                    requires
                        p.0 >= 0,
                        s.1 > 0,
                ;
            }
            CellId::new((p.0 * s.1 + p.1 + 1) as usize)
        } else {
            cell_id_outside()
        }
    }

    /// Converts a cell ID to the corresponding point.
    fn cellid_to_point(&self, id: CellId) -> (r: Point)
        requires
            id@ != 0 ==> self.shape().1 > 0 && id@ - 1 <= i32::MAX,
        ensures
            r == point_of_id(self.shape(), id@),
    {
        if id.is_outside() {
            outside_point()
        } else {
            let idx = (id.id() - 1) as i32;
            let c = self.column();
            Point(idx / c, idx % c)
        }
    }

    /// Returns an iterator over all points, in row-major order.
    fn points(&self) -> (r: Points)
        ensures
            r.wf(),
            r.remaining() == row_major(self.shape()),
    {
        let s = self.size();
        if s.0 > 0 && s.1 > 0 {
            let r = Points { point: Some(Point(0, 0)), size: s };
            proof {
                assert(r.remaining() =~= row_major(s));
            }
            r
        } else {
            let r = Points { point: None, size: s };
            proof {
                assert(r.remaining() =~= row_major(s));
            }
            r
        }
    }

    /// Returns an iterator over all points in the row, whether or not the row is in the rectangle.
    fn points_in_row(&self, row: i32) -> (r: PointsInRow)
        ensures
            r.remaining() == row_points(self.shape(), row),
    {
        let r = PointsInRow { row, next: 0, end: self.column() };
        proof {
            assert(r.remaining() =~= row_points(self.shape(), row));
        }
        r
    }

    /// Returns an iterator over all points in the column, whether or not the column is in the
    /// rectangle.
    fn points_in_column(&self, column: i32) -> (r: PointsInColumn)
        ensures
            r.remaining() == column_points(self.shape(), column),
    {
        let r = PointsInColumn { column, next: 0, end: self.row() };
        proof {
            assert(r.remaining() =~= column_points(self.shape(), column));
        }
        r
    }
}

/// A size is itself the rectangle of that size anchored at `Point(0, 0)`.
impl Geom for Size {
    open spec fn shape(&self) -> Size {
        *self
    }

    fn size(&self) -> (r: Size) {
        *self
    }
}

/// An iterator over all points in a rectangle.
#[derive(Clone, Copy, Debug)]
pub struct Points {
    point: Option<Point>,
    size: Size,
}

impl Points {
    /// The points that are still to come.
    pub closed spec fn remaining(&self) -> Seq<Point> {
        match self.point {
            None => Seq::empty(),
            Some(p) => row_major(self.size).subrange(
                p.0 * self.size.1 + p.1,
                point_count(self.size),
            ),
        }
    }

    /// The next point, when there is one, lies in the rectangle.
    pub closed spec fn wf(&self) -> bool {
        match self.point {
            None => true,
            Some(p) => in_rect(self.size, p),
        }
    }

    /// Returns the next point in row-major order, or `None` at the end.
    pub fn next(&mut self) -> (r: Option<Point>)
        requires
            old(self).wf(),
        ensures
            final(self).wf(),
            old(self).remaining().len() == 0 ==> r is None && final(self).remaining() == old(
                self,
            ).remaining(),
            old(self).remaining().len() > 0 ==> r == Some(old(self).remaining()[0])
                && final(self).remaining() == old(self).remaining().drop_first(),
    {
        if let Some(cur) = self.point {
            let ghost s = self.size;
            let ghost k = cur.0 * s.1 + cur.1;
            proof {
                lemma_fundamental_div_mod_converse(k, s.1 as int, cur.0 as int, cur.1 as int);
                assert(cur.0 * s.1 <= (s.0 - 1) * s.1) by (nonlinear_arith)
                    requires
                        cur.0 <= s.0 - 1,
                        s.1 > 0,
                ;
                assert((s.0 - 1) * s.1 == s.0 * s.1 - s.1) by (nonlinear_arith);
                assert(0 <= cur.0 * s.1) by (nonlinear_arith)
                    requires
                        cur.0 >= 0,
                        s.1 > 0,
                ;
                assert(nth_point(s, k) == cur);
            }
            let mut next = cur;
            let mut end = false;
            next.1 = next.1 + 1;
            if next.1 >= self.size.1 {
                proof {
                    assert((cur.0 + 1) * s.1 == cur.0 * s.1 + s.1) by (nonlinear_arith);
                }
                next.0 = next.0 + 1;
                next.1 = 0;
                if next.0 >= self.size.0 {
                    end = true;
                }
            }
            let ghost before = self.remaining();
            if !end {
                self.point = Some(next);
            } else {
                self.point = None;
            }
            proof {
                assert(self.remaining() =~= before.drop_first());
            }
            return Some(cur);
        }
        None
    }

    /// Collects the remaining points into a vector.
    pub fn into_vec(self) -> (r: Vec<Point>)
        requires
            self.wf(),
        ensures
            r@ == self.remaining(),
    {
        let mut it = self;
        let mut r: Vec<Point> = Vec::new();
        loop
            invariant
                it.wf(),
                r@ + it.remaining() == self.remaining(),
            decreases it.remaining().len(),
        {
            match it.next() {
                Some(p) => {
                    r.push(p);
                },
                None => {
                    assert(r@ =~= self.remaining());
                    return r;
                },
            }
        }
    }
}

/// An iterator over all points in a row of a rectangle.
#[derive(Clone, Copy, Debug)]
pub struct PointsInRow {
    row: i32,
    next: i32,
    end: i32,
}

impl PointsInRow {
    /// The points that are still to come.
    pub closed spec fn remaining(&self) -> Seq<Point> {
        Seq::new(
            if self.next < self.end { (self.end - self.next) as nat } else { 0 },
            |i: int| Point(self.row, (self.next + i) as i32),
        )
    }

    /// Returns the next point of the row, or `None` at the end.
    pub fn next(&mut self) -> (r: Option<Point>)
        ensures
            old(self).remaining().len() == 0 ==> r is None && final(self).remaining() == old(
                self,
            ).remaining(),
            old(self).remaining().len() > 0 ==> r == Some(old(self).remaining()[0])
                && final(self).remaining() == old(self).remaining().drop_first(),
    {
        if self.next < self.end {
            let ghost before = self.remaining();
            let c = self.next;
            self.next = self.next + 1;
            proof {
                assert(self.remaining() =~= before.drop_first());
            }
            Some(Point(self.row, c))
        } else {
            None
        }
    }
}

/// An iterator over all points in a column of a rectangle.
#[derive(Clone, Copy, Debug)]
pub struct PointsInColumn {
    column: i32,
    next: i32,
    end: i32,
}

impl PointsInColumn {
    /// The points that are still to come.
    pub closed spec fn remaining(&self) -> Seq<Point> {
        Seq::new(
            if self.next < self.end { (self.end - self.next) as nat } else { 0 },
            |i: int| Point((self.next + i) as i32, self.column),
        )
    }

    /// Returns the next point of the column, or `None` at the end.
    pub fn next(&mut self) -> (r: Option<Point>)
        ensures
            old(self).remaining().len() == 0 ==> r is None && final(self).remaining() == old(
                self,
            ).remaining(),
            old(self).remaining().len() > 0 ==> r == Some(old(self).remaining()[0])
                && final(self).remaining() == old(self).remaining().drop_first(),
    {
        if self.next < self.end {
            let ghost before = self.remaining();
            let r = self.next;
            self.next = self.next + 1;
            proof {
                assert(self.remaining() =~= before.drop_first());
            }
            Some(Point(r, self.column))
        } else {
            None
        }
    }
}

} // verus!
