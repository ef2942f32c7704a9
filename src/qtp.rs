//! The mazes of the navigation qualification test procedures.

use vstd::prelude::*;
use crate::colour::Colour;
use crate::maze::MazeLineMap;

verus! {

/// One cell wide and four high: a column of black, green, blue, red and black
/// horizontal lines between black walls.
pub fn navcon_qtp_1_maze() -> (r: MazeLineMap)
    ensures
        r.wf(),
        r@.height == 4,
        r@.width == 1,
        r@.columns == seq![seq![Colour::Black, Colour::Green, Colour::Blue, Colour::Red, Colour::Black]],
        r@.rows == seq![
            seq![Colour::Black, Colour::Black],
            seq![Colour::Black, Colour::Black],
            seq![Colour::Black, Colour::Black],
            seq![Colour::Black, Colour::Black],
        ],
{
    let mut maze = MazeLineMap::new(4, 1);
    let column = vec![Colour::Black, Colour::Green, Colour::Blue, Colour::Red, Colour::Black];
    let ghost c = column@;
    let _ = maze.add_column(column);
    let mut i: usize = 0;
    while i < 4
        invariant
            i <= 4,
            maze.wf(),
            maze@.height == 4,
            maze@.width == 1,
            maze@.columns == seq![c],
            maze@.rows.len() == i,
            forall|j: int| 0 <= j < i ==> maze@.rows[j] == seq![Colour::Black, Colour::Black],
        decreases 4 - i,
    {
        let row = vec![Colour::Black, Colour::Black];
        assert(row@ =~= seq![Colour::Black, Colour::Black]);
        let _ = maze.add_row(row);
        i = i + 1;
    }
    assert(c =~= seq![Colour::Black, Colour::Green, Colour::Blue, Colour::Red, Colour::Black]);
    assert(maze@.rows =~= seq![
        seq![Colour::Black, Colour::Black],
        seq![Colour::Black, Colour::Black],
        seq![Colour::Black, Colour::Black],
        seq![Colour::Black, Colour::Black],
    ]);
    maze
}

/// Two cells wide and four high, with a blue and a red line to meet.
pub fn navcon_qtp_3_maze() -> (r: MazeLineMap)
    ensures
        r.wf(),
        r@.height == 4,
        r@.width == 2,
        r@.columns == seq![
            seq![Colour::Black, Colour::Green, Colour::White, Colour::Blue, Colour::Black],
            seq![Colour::Black, Colour::White, Colour::Black, Colour::Black, Colour::Black],
        ],
        r@.rows == seq![
            seq![Colour::Black, Colour::Black, Colour::Black],
            seq![Colour::Black, Colour::Black, Colour::Black],
            seq![Colour::Red, Colour::White, Colour::Black],
            seq![Colour::Black, Colour::White, Colour::Black],
        ],
{
    let mut maze = MazeLineMap::new(4, 2);
    let c0 = vec![Colour::Black, Colour::Green, Colour::White, Colour::Blue, Colour::Black];
    let c1 = vec![Colour::Black, Colour::White, Colour::Black, Colour::Black, Colour::Black];
    let r0 = vec![Colour::Black, Colour::Black, Colour::Black];
    let r1 = vec![Colour::Black, Colour::Black, Colour::Black];
    let r2 = vec![Colour::Red, Colour::White, Colour::Black];
    let r3 = vec![Colour::Black, Colour::White, Colour::Black];
    assert(c0@ =~= seq![Colour::Black, Colour::Green, Colour::White, Colour::Blue, Colour::Black]);
    assert(c1@ =~= seq![Colour::Black, Colour::White, Colour::Black, Colour::Black, Colour::Black]);
    assert(r0@ =~= seq![Colour::Black, Colour::Black, Colour::Black]);
    assert(r1@ =~= seq![Colour::Black, Colour::Black, Colour::Black]);
    assert(r2@ =~= seq![Colour::Red, Colour::White, Colour::Black]);
    assert(r3@ =~= seq![Colour::Black, Colour::White, Colour::Black]);
    let ghost cols = seq![c0@, c1@];
    let ghost rows = seq![r0@, r1@, r2@, r3@];
    let _ = maze.add_column(c0);
    let _ = maze.add_column(c1);
    let _ = maze.add_row(r0);
    let _ = maze.add_row(r1);
    let _ = maze.add_row(r2);
    let _ = maze.add_row(r3);
    assert(maze@.columns =~= cols);
    assert(maze@.rows =~= rows);
    maze
}

} // verus!
