use lattice_geom::{
    cell_id_outside, move_all_adjacents, move_all_directions, move_down, move_left, move_right,
    move_up, rot_ccw0, rot_ccw180, rot_ccw270, rot_ccw90, rot_h_flip, rot_v_flip, CellId, Geom,
    Move, Point, Size, Table,
};

#[test]
fn points() {
    let pts = [
        Point(0, 0),
        Point(0, 1),
        Point(0, 2),
        Point(1, 0),
        Point(1, 1),
        Point(1, 2),
        Point(2, 0),
        Point(2, 1),
        Point(2, 2),
        Point(3, 0),
        Point(3, 1),
        Point(3, 2),
    ];
    let rect = Size(4, 3);
    assert_eq!(&pts[..], &rect.points().into_vec()[..]);
}

#[test]
fn rotate_mat() {
    let mat = [rot_ccw0(), rot_ccw90(), rot_ccw180(), rot_ccw270()];
    for i in 0..mat.len() {
        for j in 0..mat.len() {
            assert_eq!(mat[(i + j) % mat.len()], mat[i] * mat[j]);
        }
    }
}

#[test]
fn rotate_point() {
    let mat = [rot_ccw0(), rot_ccw90(), rot_ccw180(), rot_ccw270()];
    let vec = [
        [move_up(), move_left(), move_down(), move_right()],
        [
            move_up() + move_right(),
            move_left() + move_up(),
            move_down() + move_left(),
            move_right() + move_down(),
        ],
    ];
    for i in 0..mat.len() {
        for v in &vec {
            for j in 0..v.len() {
                assert_eq!(v[(i + j) % v.len()], mat[i] * v[j]);
            }
        }
    }
}

#[test]
fn point_and_move_arithmetic() {
    assert_eq!(Point(3, 4) + Move(-1, 2), Point(2, 6));
    assert_eq!(Point(3, 4) - Point(1, 7), Move(2, -3));
    assert_eq!(Move(1, 2) + Move(3, -5), Move(4, -3));
    assert_eq!(Move(1, 2) - Move(3, -5), Move(-2, 7));
    assert_eq!(-Move(1, -2), Move(-1, 2));
    assert_eq!(Move(1, -2) * 3, Move(3, -6));
}

#[test]
fn rotation_constants() {
    assert_eq!(rot_ccw90() * Move(2, 5), Move(-5, 2));
    assert_eq!(rot_h_flip() * Move(2, 5), Move(2, -5));
    assert_eq!(rot_v_flip() * Move(2, 5), Move(-2, 5));
    assert_eq!(rot_h_flip() * rot_h_flip(), rot_ccw0());
    assert_eq!(rot_h_flip() * rot_v_flip(), rot_ccw180());
}

#[test]
fn direction_arrays() {
    assert_eq!(move_all_directions(), [Move(-1, 0), Move(0, 1), Move(1, 0), Move(0, -1)]);
    let adj = move_all_adjacents();
    assert_eq!(adj.len(), 8);
    assert_eq!(adj[1], Move(-1, 1));
    assert_eq!(adj[3], Move(1, 1));
    assert_eq!(adj[5], Move(1, -1));
    assert_eq!(adj[7], Move(-1, -1));
}

#[test]
fn cell_id_basics() {
    assert_eq!(CellId::new(7).id(), 7);
    assert!(!CellId::new(7).is_outside());
    assert!(CellId::new(0).is_outside());
    assert!(cell_id_outside().is_outside());
    assert!(CellId::new(1) < CellId::new(2));
}

#[test]
fn size_queries() {
    let s = Size(4, 3);
    assert_eq!(s.size(), Size(4, 3));
    assert_eq!(s.row(), 4);
    assert_eq!(s.column(), 3);
    assert_eq!(s.cell_len(), 13);
    assert!(s.contains(Point(0, 0)));
    assert!(s.contains(Point(3, 2)));
    assert!(!s.contains(Point(4, 0)));
    assert!(!s.contains(Point(0, 3)));
    assert!(!s.contains(Point(-1, 1)));
}

#[test]
fn cellid_bijection() {
    let s = Size(4, 3);
    assert_eq!(s.point_to_cellid(Point(0, 0)).id(), 1);
    assert_eq!(s.point_to_cellid(Point(2, 1)).id(), 8);
    assert_eq!(s.point_to_cellid(Point(3, 2)).id(), 12);
    assert_eq!(s.cellid_to_point(CellId::new(8)), Point(2, 1));
    for p in s.points().into_vec() {
        assert_eq!(s.cellid_to_point(s.point_to_cellid(p)), p);
    }
    for id in 1..=12 {
        let id = CellId::new(id);
        assert_eq!(s.point_to_cellid(s.cellid_to_point(id)), id);
    }
}

#[test]
fn outside_sentinel() {
    let s = Size(4, 3);
    assert!(s.point_to_cellid(Point(4, 0)).is_outside());
    assert!(s.point_to_cellid(Point(-1, 0)).is_outside());
    assert!(!s.point_to_cellid(Point(1, 1)).is_outside());
    let out = s.cellid_to_point(cell_id_outside());
    assert_eq!(out, Point(-1, -1));
    assert!(!s.contains(out));
}

#[test]
fn empty_rectangles() {
    for s in [Size(0, 5), Size(5, 0), Size(0, 0), Size(-2, 3)] {
        assert!(s.points().into_vec().is_empty());
        assert!(!s.contains(Point(0, 0)));
    }
    assert_eq!(Size(0, 5).cell_len(), 1);
}

#[test]
fn points_in_row_and_column() {
    let s = Size(2, 3);
    let mut row = s.points_in_row(1);
    assert_eq!(row.next(), Some(Point(1, 0)));
    assert_eq!(row.next(), Some(Point(1, 1)));
    assert_eq!(row.next(), Some(Point(1, 2)));
    assert_eq!(row.next(), None);
    let mut col = s.points_in_column(7);
    assert_eq!(col.next(), Some(Point(0, 7)));
    assert_eq!(col.next(), Some(Point(1, 7)));
    assert_eq!(col.next(), None);
    let mut empty = Size(0, 0).points_in_row(0);
    assert_eq!(empty.next(), None);
}

#[test]
fn table_round_trip() {
    let t = Table::new(Size(2, 2), 'X', vec!['a', 'b', 'c', 'd']);
    assert_eq!(*t.get(Point(0, 0)), 'a');
    assert_eq!(*t.get(Point(0, 1)), 'b');
    assert_eq!(*t.get(Point(1, 0)), 'c');
    assert_eq!(*t.get(Point(1, 1)), 'd');
    assert_eq!(*t.get(Point(-1, -1)), 'X');
    assert_eq!(t.size(), Size(2, 2));
    assert_eq!(t.cell_len(), 5);
    assert_eq!(t[Point(1, 0)], 'c');
    assert_eq!(t[Point(2, 2)], 'X');
}

#[test]
fn table_outside_aliasing() {
    let mut t = Table::new(Size(2, 2), 'X', vec!['a', 'b', 'c', 'd']);
    t.set(Point(5, 5), 'Y');
    assert_eq!(*t.get(Point(-7, 3)), 'Y');
    *t.get_mut(Point(0, 9)) = 'Z';
    assert_eq!(*t.get(Point(2, 0)), 'Z');
    assert_eq!(*t.get(Point(1, 1)), 'd');
}

#[test]
fn table_write_in_bounds() {
    let mut t = Table::new_empty(Size(2, 3), -1, 0);
    assert_eq!(*t.get(Point(1, 2)), 0);
    assert_eq!(*t.get(Point(9, 9)), -1);
    t.set(Point(1, 2), 42);
    *t.get_mut(Point(0, 1)) += 5;
    assert_eq!(*t.get(Point(1, 2)), 42);
    assert_eq!(*t.get(Point(0, 1)), 5);
    assert_eq!(*t.get(Point(0, 0)), 0);
    assert_eq!(*t.get(Point(-1, 0)), -1);
    let pts = t.points().into_vec();
    assert_eq!(pts.len(), 6);
}

#[test]
fn rotation_identity_and_associativity() {
    let all = [rot_ccw0(), rot_ccw90(), rot_ccw180(), rot_ccw270(), rot_h_flip(), rot_v_flip()];
    for a in all {
        assert_eq!(rot_ccw0() * a, a);
        assert_eq!(a * rot_ccw0(), a);
        for b in all {
            for c in all {
                assert_eq!((a * b) * c, a * (b * c));
            }
        }
    }
    assert_eq!(rot_ccw90() * rot_h_flip(), lattice_geom::Rotation(0, 1, 1, 0));
}

#[test]
fn zero_width_rectangle() {
    let s = Size(7, 0);
    assert!(s.points().into_vec().is_empty());
    assert!(!s.contains(Point(0, 0)));
    assert!(s.point_to_cellid(Point(0, 0)).is_outside());
    let mut row = s.points_in_row(3);
    assert_eq!(row.next(), None);
}
