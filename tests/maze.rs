use marv_emu::colour::Colour;
use marv_emu::maze::{Column, Line, MazeError, MazeLineMap, Row};

fn two_by_one() -> MazeLineMap {
    // two cells high, one cell wide
    let mut m = MazeLineMap::new(2, 1);
    m.add_column(vec![Colour::Black, Colour::Green, Colour::Red]).unwrap();
    m.add_row(vec![Colour::Blue, Colour::Black]).unwrap();
    m.add_row(vec![Colour::Red, Colour::Green]).unwrap();
    m
}

#[test]
fn maze_construction_errors() {
    let mut m = MazeLineMap::new(2, 1);
    assert_eq!(m.add_column(vec![Colour::Black; 2]), Err(MazeError::InvalidVecLength));
    assert_eq!(m.add_column(vec![Colour::Black; 3]), Ok(()));
    assert_eq!(m.add_column(vec![Colour::Black; 3]), Err(MazeError::ColumnsFull));
    assert_eq!(m.add_row(vec![Colour::Black; 3]), Err(MazeError::InvalidVecLength));
    assert_eq!(m.add_row(vec![Colour::Black; 2]), Ok(()));
    assert_eq!(m.add_row(vec![Colour::Black; 2]), Ok(()));
    assert_eq!(m.add_row(vec![Colour::Black; 2]), Err(MazeError::RowsFull));
    assert_eq!(m.height(), 2);
    assert_eq!(m.width(), 1);
}

#[test]
fn colour_at_horizontal_lines() {
    let m = two_by_one();
    assert_eq!(m.colour_at(40, 2), Colour::Black);
    assert_eq!(m.colour_at(40, 85 + 3), Colour::Green);
    assert_eq!(m.colour_at(40, 170 + 5), Colour::Red);
}

#[test]
fn colour_at_vertical_lines() {
    let m = two_by_one();
    assert_eq!(m.colour_at(2, 40), Colour::Blue);
    assert_eq!(m.colour_at(85 + 2, 40), Colour::Black);
    assert_eq!(m.colour_at(3, 85 + 40), Colour::Red);
    assert_eq!(m.colour_at(85 + 4, 85 + 40), Colour::Green);
}

#[test]
fn colour_at_interior_is_white() {
    let m = two_by_one();
    assert_eq!(m.colour_at(40, 40), Colour::White);
    assert_eq!(m.colour_at(6, 6), Colour::White);
}

#[test]
fn colour_at_corner_belongs_to_horizontal_line() {
    let m = two_by_one();
    assert_eq!(m.colour_at(2, 2), Colour::Black);
    assert_eq!(m.colour_at(1, 85 + 1), Colour::Green);
}

#[test]
fn colour_at_outside_grid_is_white() {
    let m = two_by_one();
    assert_eq!(m.colour_at(-1, 40), Colour::White);
    assert_eq!(m.colour_at(40, -10), Colour::White);
    assert_eq!(m.colour_at(85 + 6, 40), Colour::White);
    assert_eq!(m.colour_at(1000, 2), Colour::White);
    assert_eq!(m.colour_at(40, 170 + 6), Colour::White);
    assert_eq!(m.colour_at(2, 10_000), Colour::White);
}

#[test]
fn lines_columns_rows() {
    let l = Line::new(Colour::Blue);
    assert_eq!(l.colour(), Colour::Blue);
    let c = Column::new();
    assert_eq!(c.get(0), None);
    assert_eq!(c.lines().len(), 0);
    let r = Row::from_colours(&vec![Colour::Red, Colour::Green]);
    assert_eq!(r.get(1), Some(Colour::Green));
    assert_eq!(r.get(2), None);
    assert_eq!(r.lines().len(), 2);
    let c2 = Column::from_colours(&vec![Colour::Black]);
    assert_eq!(c2.get(0), Some(Colour::Black));
    assert_eq!(Row::new().get(0), None);
}

#[test]
fn qtp_mazes() {
    let m = marv_emu::qtp::navcon_qtp_1_maze();
    assert_eq!((m.height(), m.width()), (4, 1));
    assert_eq!(m.colour_at(40, 85 + 2), Colour::Green);
    assert_eq!(m.colour_at(40, 170 + 2), Colour::Blue);
    assert_eq!(m.colour_at(40, 255 + 2), Colour::Red);
    assert_eq!(m.colour_at(2, 300), Colour::Black);
    let q = marv_emu::qtp::navcon_qtp_3_maze();
    assert_eq!((q.height(), q.width()), (4, 2));
    assert_eq!(q.colour_at(85 + 40, 170 + 2), Colour::Black);
    assert_eq!(q.colour_at(2, 170 + 40), Colour::Red);
    assert_eq!(q.colour_at(85 + 2, 170 + 40), Colour::White);
}
