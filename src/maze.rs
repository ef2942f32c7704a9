//! The maze as a grid of coloured line segments, and the colour under a point.

use vstd::prelude::*;
use crate::colour::Colour;
use crate::constants::{MAZE_CELL_SIDE, MAZE_LINE_WIDTH};

verus! {

/// Why a line could not be added to a maze.
#[derive(Clone, Copy, Debug, PartialEq, Eq, Structural)]
pub enum MazeError {
    OutOfBounds,
    InvalidVecLength,
    ColumnsFull,
    RowsFull,
}

/// One line segment of the maze.
#[derive(Clone, Copy, Debug, PartialEq, Eq, Structural)]
pub struct Line {
    colour: Colour,
}

impl View for Line {
    type V = Colour;

    closed spec fn view(&self) -> Colour {
        self.colour
    }
}

impl Line {
    pub fn new(colour: Colour) -> (r: Self)
        ensures
            r@ == colour,
    {
        Line { colour }
    }

    pub fn colour(&self) -> (r: Colour)
        ensures
            r == self@,
    {
        self.colour
    }
}

/// The colours of a sequence of lines.
pub open spec fn colours_of(lines: Seq<Line>) -> Seq<Colour> {
    lines.map_values(|l: Line| l@)
}

/// A column of the maze: its horizontal lines, top to bottom.
#[derive(Debug)]
pub struct Column {
    lines: Vec<Line>,
}

impl View for Column {
    type V = Seq<Colour>;

    closed spec fn view(&self) -> Seq<Colour> {
        colours_of(self.lines@)
    }
}

impl Column {
    /// A column without lines.
    pub fn new() -> (r: Self)
        ensures
            r@ == Seq::<Colour>::empty(),
    {
        let r = Column { lines: Vec::new() };
        assert(r@ =~= Seq::<Colour>::empty());
        r
    }

    /// The column with these line colours, top to bottom.
    pub fn from_colours(colours: &Vec<Colour>) -> (r: Self)
        ensures
            r@ == colours@,
    {
        Column { lines: lines_from(colours) }
    }

    pub fn lines(&self) -> (r: &Vec<Line>)
        ensures
            colours_of(r@) == self@,
    {
        &self.lines
    }

    /// The colour of line `index`, or `None` past the last line.
    pub fn get(&self, index: usize) -> (r: Option<Colour>)
        ensures
            index < self@.len() ==> r == Some(self@[index as int]),
            index >= self@.len() ==> r.is_none(),
    {
        line_colour(&self.lines, index)
    }
}

/// A row of the maze: its vertical lines, left to right.
#[derive(Debug)]
pub struct Row {
    lines: Vec<Line>,
}

impl View for Row {
    type V = Seq<Colour>;

    closed spec fn view(&self) -> Seq<Colour> {
        colours_of(self.lines@)
    }
}

impl Row {
    /// A row without lines.
    pub fn new() -> (r: Self)
        ensures
            r@ == Seq::<Colour>::empty(),
    {
        let r = Row { lines: Vec::new() };
        assert(r@ =~= Seq::<Colour>::empty());
        r
    }

    /// The row with these line colours, left to right.
    pub fn from_colours(colours: &Vec<Colour>) -> (r: Self)
        ensures
            r@ == colours@,
    {
        Row { lines: lines_from(colours) }
    }

    pub fn lines(&self) -> (r: &Vec<Line>)
        ensures
            colours_of(r@) == self@,
    {
        &self.lines
    }

    /// The colour of line `index`, or `None` past the last line.
    pub fn get(&self, index: usize) -> (r: Option<Colour>)
        ensures
            index < self@.len() ==> r == Some(self@[index as int]),
            index >= self@.len() ==> r.is_none(),
    {
        line_colour(&self.lines, index)
    }
}

fn lines_from(colours: &Vec<Colour>) -> (r: Vec<Line>)
    ensures
        colours_of(r@) == colours@,
{
    let mut r: Vec<Line> = Vec::new();
    let mut i: usize = 0;
    while i < colours.len()
        invariant
            i <= colours@.len(),
            colours_of(r@) == colours@.subrange(0, i as int),
        decreases colours@.len() - i,
    {
        let line = Line::new(colours[i]);
        let ghost before = r@;
        r.push(line);
        assert(r@ == before.push(line));
        assert(colours_of(r@) =~= colours_of(before).push(line@));
        i = i + 1;
        assert(colours_of(r@) =~= colours@.subrange(0, i as int));
    }
    assert(colours@.subrange(0, i as int) =~= colours@);
    r
}

fn line_colour(lines: &Vec<Line>, index: usize) -> (r: Option<Colour>)
    ensures
        index < lines@.len() ==> r == Some(colours_of(lines@)[index as int]),
        index >= lines@.len() ==> r.is_none(),
{
    if index < lines.len() {
        Some(lines[index].colour())
    } else {
        None
    }
}

/// What a maze holds: its declared size and the colours of the lines added so far.
pub struct MazeView {
    pub height: nat,
    pub width: nat,
    /// Per column, its horizontal lines top to bottom.
    pub columns: Seq<Seq<Colour>>,
    /// Per row, its vertical lines left to right.
    pub rows: Seq<Seq<Colour>>,
}

/// The colour at whole maze pixel `(x, y)`. Each cell is `MAZE_CELL_SIDE` square;
/// its top strip of `MAZE_LINE_WIDTH + 1` pixels belongs to the horizontal line of
/// its column, its left strip of the same width to the vertical line of its row
/// (the horizontal strip wins at the corner), and the rest is white. Lines that
/// the maze does not hold, and points left of or above the maze, are white.
pub open spec fn colour_at_spec(m: MazeView, x: int, y: int) -> Colour {
    if x < 0 || y < 0 {
        Colour::White
    } else {
        let c = x / MAZE_CELL_SIDE as int;
        let r = y / MAZE_CELL_SIDE as int;
        let xb = x % MAZE_CELL_SIDE as int;
        let yb = y % MAZE_CELL_SIDE as int;
        if yb <= MAZE_LINE_WIDTH {
            if c < m.columns.len() && r < m.columns[c].len() {
                m.columns[c][r]
            } else {
                Colour::White
            }
        } else if xb <= MAZE_LINE_WIDTH {
            if r < m.rows.len() && c < m.rows[r].len() {
                m.rows[r][c]
            } else {
                Colour::White
            }
        } else {
            Colour::White
        }
    }
}

/// Whether a pixel lies beyond the drawn grid of a maze of the given size.
pub open spec fn outside_grid(m: MazeView, x: int, y: int) -> bool {
    x < 0 || y < 0 || x > m.width * MAZE_CELL_SIDE + MAZE_LINE_WIDTH || y > m.height
        * MAZE_CELL_SIDE + MAZE_LINE_WIDTH
}

/// A map of the horizontal and vertical lines of a maze `width` cells wide and
/// `height` cells high: `width` columns of `height + 1` horizontal lines, and
/// `height` rows of `width + 1` vertical lines.
pub struct MazeLineMap {
    columns: Vec<Column>,
    rows: Vec<Row>,
    height: usize,
    width: usize,
}

impl View for MazeLineMap {
    type V = MazeView;

    closed spec fn view(&self) -> MazeView {
        MazeView {
            height: self.height as nat,
            width: self.width as nat,
            columns: self.columns@.map_values(|c: Column| c@),
            rows: self.rows@.map_values(|r: Row| r@),
        }
    }
}

impl MazeLineMap {
    /// Each column holds `height + 1` lines and each row `width + 1`; there are
    /// at most `width` columns and `height` rows.
    pub open spec fn wf(&self) -> bool {
        let m = self@;
        &&& m.columns.len() <= m.width
        &&& m.rows.len() <= m.height
        &&& forall|i: int| 0 <= i < m.columns.len() ==> #[trigger] m.columns[i].len() == m.height + 1
        &&& forall|i: int| 0 <= i < m.rows.len() ==> #[trigger] m.rows[i].len() == m.width + 1
    }

    /// An empty maze of `height` rows and `width` columns of cells.
    pub fn new(height: usize, width: usize) -> (r: Self)
        ensures
            r.wf(),
            r@.height == height,
            r@.width == width,
            r@.columns.len() == 0,
            r@.rows.len() == 0,
    {
        let r = MazeLineMap { columns: Vec::new(), rows: Vec::new(), height, width };
        r
    }

    pub fn height(&self) -> (r: usize)
        ensures
            r == self@.height,
    {
        self.height
    }

    pub fn width(&self) -> (r: usize)
        ensures
            r == self@.width,
    {
        self.width
    }

    /// Appends a column of `height + 1` horizontal line colours, top to bottom.
    pub fn add_column(&mut self, column: Vec<Colour>) -> (r: Result<(), MazeError>)
        requires
            old(self).wf(),
        ensures
            final(self).wf(),
            final(self)@.height == old(self)@.height,
            final(self)@.width == old(self)@.width,
            final(self)@.rows == old(self)@.rows,
            column@.len() != old(self)@.height + 1 ==> r == Err::<(), MazeError>(MazeError::InvalidVecLength)
                && final(self)@ == old(self)@,
            column@.len() == old(self)@.height + 1 && old(self)@.columns.len() == old(self)@.width
                ==> r == Err::<(), MazeError>(MazeError::ColumnsFull) && final(self)@ == old(self)@,
            column@.len() == old(self)@.height + 1 && old(self)@.columns.len() < old(self)@.width
                ==> r == Ok::<(), MazeError>(()) && final(self)@.columns == old(self)@.columns.push(column@),
    {
        if column.len() == 0 || column.len() - 1 != self.height {
            Err(MazeError::InvalidVecLength)
        } else if self.columns.len() == self.width {
            Err(MazeError::ColumnsFull)
        } else {
            let col = Column::from_colours(&column);
            self.columns.push(col);
            assert(self@.columns =~= old(self)@.columns.push(column@));
            Ok(())
        }
    }

    /// Appends a row of `width + 1` vertical line colours, left to right.
    pub fn add_row(&mut self, row: Vec<Colour>) -> (r: Result<(), MazeError>)
        requires
            old(self).wf(),
        ensures
            final(self).wf(),
            final(self)@.height == old(self)@.height,
            final(self)@.width == old(self)@.width,
            final(self)@.columns == old(self)@.columns,
            row@.len() != old(self)@.width + 1 ==> r == Err::<(), MazeError>(MazeError::InvalidVecLength)
                && final(self)@ == old(self)@,
            row@.len() == old(self)@.width + 1 && old(self)@.rows.len() == old(self)@.height
                ==> r == Err::<(), MazeError>(MazeError::RowsFull) && final(self)@ == old(self)@,
            row@.len() == old(self)@.width + 1 && old(self)@.rows.len() < old(self)@.height
                ==> r == Ok::<(), MazeError>(()) && final(self)@.rows == old(self)@.rows.push(row@),
    {
        if row.len() == 0 || row.len() - 1 != self.width {
            Err(MazeError::InvalidVecLength)
        } else if self.rows.len() == self.height {
            Err(MazeError::RowsFull)
        } else {
            let r = Row::from_colours(&row);
            self.rows.push(r);
            assert(self@.rows =~= old(self)@.rows.push(row@));
            Ok(())
        }
    }

    /// The colour at whole maze pixel `(x, y)`; white off the grid.
    pub fn colour_at(&self, x: i64, y: i64) -> (r: Colour)
        ensures
            r == colour_at_spec(self@, x as int, y as int),
    {
        if x < 0 || y < 0 {
            return Colour::White;
        }
        let xu = x as u64;
        let yu = y as u64;
        let c = xu / MAZE_CELL_SIDE;
        let r = yu / MAZE_CELL_SIDE;
        let xb = xu % MAZE_CELL_SIDE;
        let yb = yu % MAZE_CELL_SIDE;
        if yb <= MAZE_LINE_WIDTH {
            if c < self.columns.len() as u64 {
                let col = &self.columns[c as usize];
                if r < col.lines.len() as u64 {
                    col.lines[r as usize].colour()
                } else {
                    Colour::White
                }
            } else {
                Colour::White
            }
        } else if xb <= MAZE_LINE_WIDTH {
            if r < self.rows.len() as u64 {
                let row = &self.rows[r as usize];
                if c < row.lines.len() as u64 {
                    row.lines[c as usize].colour()
                } else {
                    Colour::White
                }
            } else {
                Colour::White
            }
        } else {
            Colour::White
        }
    }
}

/// Every point beyond the drawn grid of a well-formed maze is white.
pub proof fn lemma_outside_grid_is_white(maze: MazeLineMap, x: int, y: int)
    requires
        maze.wf(),
        outside_grid(maze@, x, y),
    ensures
        colour_at_spec(maze@, x, y) == Colour::White,
{
    let m = maze@;
    if x >= 0 && y >= 0 {
        let c = x / 85;
        let r = y / 85;
        let xb = x % 85;
        let yb = y % 85;
        assert(x == c * 85 + xb);
        assert(y == r * 85 + yb);
        if x > m.width * 85 + 5 {
            assert(c > m.width || (c == m.width && xb > 5)) by (nonlinear_arith)
                requires
                    x == c * 85 + xb,
                    0 <= xb < 85,
                    x > m.width * 85 + 5,
            ;
        } else {
            assert(r > m.height || (r == m.height && yb > 5)) by (nonlinear_arith)
                requires
                    y == r * 85 + yb,
                    0 <= yb < 85,
                    y > m.height * 85 + 5,
            ;
            if yb <= 5 && c < m.columns.len() {
                assert(m.columns[c].len() == m.height + 1);
            }
        }
    }
}

} // verus!
