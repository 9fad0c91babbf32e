//! A dense table holding one value per cell of a rectangle, plus one value
//! shared by every point outside it.

use vstd::prelude::*;
use std::ops::Index;
use crate::geom::{id_of_point, in_rect, lemma_id_in_range, Geom};
use crate::vector::{Point, Size};

verus! {

/// A table that stores values for each cell.
///
/// Slot 0 holds the value of the outside cell; the point `(row, column)` of the
/// rectangle is stored at `row * columns + column + 1`.
#[derive(Clone, Debug, PartialEq, Eq)]
pub struct Table<T> {
    size: Size,
    data: Vec<T>,
}

impl<T> View for Table<T> {
    type V = Seq<T>;

    /// The slots of the table: the outside value, then the cells in row-major order.
    closed spec fn view(&self) -> Seq<T> {
        self.data@
    }
}

impl<T> Table<T> {
    /// There is exactly one slot per cell plus the outside slot.
    pub closed spec fn wf(&self) -> bool {
        &&& self.data@.len() == self.size.0 * self.size.1 + 1
        &&& 0 <= self.size.0 * self.size.1 <= i32::MAX
    }

    /// Creates a new table from the outside value and the cell values in row-major order.
    pub fn new(size: Size, outside: T, data: Vec<T>) -> (r: Table<T>)
        requires
            data@.len() == size.0 * size.1,
            size.0 * size.1 <= i32::MAX,
        ensures
            r.wf(),
            r.shape() == size,
            r@ == seq![outside] + data@,
    {
        let ghost cells = data@;
        let mut data = data;
        data.insert(0, outside);
        assert(data@ =~= seq![outside] + cells);
        Table { size, data }
    }

    /// Creates a new table whose cells all hold a clone of `init`.
    pub fn new_empty(size: Size, outside: T, init: T) -> (r: Table<T>)
        where
            T: Clone,
        requires
            0 <= size.0 * size.1 <= i32::MAX,
        ensures
            r.wf(),
            r.shape() == size,
            r@.len() == size.0 * size.1 + 1,
            r@[0] == outside,
            forall|i: int| 1 <= i < r@.len() ==> cloned(init, #[trigger] r@[i]),
    {
        let data = vec![init; (size.0 * size.1) as usize];
        Table::new(size, outside, data)
    }

    /// Index of the slot that holds the value of `p`.
    fn slot(&self, p: Point) -> (r: usize)
        requires
            self.wf(),
        ensures
            r == id_of_point(self.shape(), p),
            r < self@.len(),
    {
        proof {
            lemma_id_in_range(self.size, p);
        }
        self.point_to_cellid(p).id()
    }

    /// Returns the value stored for `p`; every point outside the rectangle reads the outside slot.
    pub fn get(&self, p: Point) -> (r: &T)
        requires
            self.wf(),
        ensures
            *r == self@[id_of_point(self.shape(), p) as int],
    {
        let i = self.slot(p);
        &self.data[i]
    }

    /// Returns the value stored for `p` for writing; every point outside the rectangle shares
    /// the outside slot.
    pub fn get_mut(&mut self, p: Point) -> (r: &mut T)
        requires
            old(self).wf(),
        ensures
            final(self).wf(),
            *r == old(self)@[id_of_point(old(self).shape(), p) as int],
            final(self).shape() == old(self).shape(),
            final(self)@ == old(self)@.update(id_of_point(old(self).shape(), p) as int, *final(r)),
    {
        let i = self.slot(p);
        &mut self.data[i]
    }

    /// Stores `v` for `p`; every point outside the rectangle shares the outside slot.
    pub fn set(&mut self, p: Point, v: T)
        requires
            old(self).wf(),
        ensures
            final(self).wf(),
            final(self).shape() == old(self).shape(),
            final(self)@ == old(self)@.update(id_of_point(old(self).shape(), p) as int, v),
    {
        let i = self.slot(p);
        self.data[i] = v;
    }
}

/// A table built from `outside` and the row-major cell values `cells` reads back `cells` at
/// every point of the rectangle and `outside` at every other point.
pub proof fn lemma_read_back<T>(s: Size, outside: T, cells: Seq<T>, p: Point)
    requires
        cells.len() == s.0 * s.1,
    ensures
        in_rect(s, p) ==> (seq![outside] + cells)[id_of_point(s, p) as int] == cells[p.0 * s.1
            + p.1],
        !in_rect(s, p) ==> (seq![outside] + cells)[id_of_point(s, p) as int] == outside,
{
    lemma_id_in_range(s, p);
}

/// Every point outside the rectangle is stored in one shared slot: a value written at one of
/// them is read at any other.
pub proof fn lemma_outside_alias<T>(slots: Seq<T>, s: Size, p: Point, q: Point, v: T)
    requires
        !in_rect(s, p),
        !in_rect(s, q),
        slots.len() > 0,
    ensures
        id_of_point(s, p) == id_of_point(s, q),
        slots.update(id_of_point(s, p) as int, v)[id_of_point(s, q) as int] == v,
{
}

impl<T> vstd::std_specs::core::IndexSpecImpl<Point> for Table<T> {
    open spec fn index_req(&self, p: &Point) -> bool {
        self.wf()
    }
}

impl<T> Index<Point> for Table<T> {
    type Output = T;

    fn index(&self, p: Point) -> (r: &T)
        ensures
            *r == self@[id_of_point(self.shape(), p) as int],
    {
        self.get(p)
    }
}

impl<T> Geom for Table<T> {
    closed spec fn shape(&self) -> Size {
        self.size
    }

    fn size(&self) -> (r: Size) {
        self.size
    }
}

} // verus!
