//! Geometry of the robot and of the painted maze.

use vstd::prelude::*;

verus! {

/// Length of one maze line segment, in maze pixels.
pub const MAZE_LINE_LENGTH: u64 = 80;

/// Width of a maze line, in maze pixels.
pub const MAZE_LINE_WIDTH: u64 = 5;

/// Side of one maze cell: a line's length plus a line's width, in maze pixels.
pub const MAZE_CELL_SIDE: u64 = MAZE_LINE_LENGTH + MAZE_LINE_WIDTH;

/// Big inter-sensor distance, in mm.
pub const B_ISD: u16 = 65;

/// Small inter-sensor distance, in mm.
pub const S_ISD: u16 = 15;

/// Length of the axle, in mm.
pub const AXLE_DIST: u16 = 100;

} // verus!
