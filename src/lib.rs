//! Geometric types for 2D lattice-shaped puzzles: points, moves, rotations,
//! rectangle coordinate spaces and a dense per-cell table.

pub mod geom;
pub mod table;
pub mod vector;

pub use vector::{
    move_all_adjacents, move_all_directions, move_down, move_left, move_right, move_up, rot_ccw0,
    rot_ccw180, rot_ccw270, rot_ccw90, rot_h_flip, rot_v_flip, Move, Point, Rotation, Size,
};

pub use geom::{cell_id_outside, CellId, Geom, Points, PointsInColumn, PointsInRow};
pub use table::Table;
