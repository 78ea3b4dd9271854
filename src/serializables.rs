//! Wire-shaped copies of the board engine's values: plain records that the
//! message catalog carries, with lossless conversions to and from the engine.
use crate::board::{cell_at_or_default, cell_or_default, difficulty_label, grid_height, label_of};
use minesweeper_core::{Board, Cell, Difficulty, Point, Vec2};
use vstd::prelude::*;

verus! {

/// A position on the board: `x` is the column, `y` the row.
#[derive(Clone, Copy, Debug, PartialEq, Eq, Structural)]
pub struct SerializablePoint {
    pub x: usize,
    pub y: usize,
}

impl From<Point> for SerializablePoint {
    fn from(point: Point) -> SerializablePoint {
        SerializablePoint { x: point.x, y: point.y }
    }
}

impl vstd::std_specs::convert::FromSpecImpl<Point> for SerializablePoint {
    open spec fn obeys_from_spec() -> bool {
        true
    }

    open spec fn from_spec(v: Point) -> SerializablePoint {
        SerializablePoint { x: v.x, y: v.y }
    }
}

impl From<SerializablePoint> for Point {
    fn from(point: SerializablePoint) -> Point {
        Point { x: point.x, y: point.y }
    }
}

impl vstd::std_specs::convert::FromSpecImpl<SerializablePoint> for Point {
    open spec fn obeys_from_spec() -> bool {
        true
    }

    open spec fn from_spec(v: SerializablePoint) -> Point {
        Point { x: v.x, y: v.y }
    }
}

/// A cell as it travels: its number (negative for a mine), whether it is
/// cleared or flagged, and its position.
#[derive(Clone, Copy, Debug, PartialEq, Eq, Structural)]
pub struct SerializableCell {
    pub number: i8,
    pub cleared: bool,
    pub flagged: bool,
    pub coordinates: SerializablePoint,
}

/// The wire record of an engine cell.
pub open spec fn wire_cell(c: Cell) -> SerializableCell {
    SerializableCell {
        number: c.number,
        cleared: c.cleared,
        flagged: c.flagged,
        coordinates: SerializablePoint { x: c.coordinates.x, y: c.coordinates.y },
    }
}

/// The engine cell of a wire record.
pub open spec fn engine_cell(c: SerializableCell) -> Cell {
    Cell {
        number: c.number,
        cleared: c.cleared,
        flagged: c.flagged,
        coordinates: Point { x: c.coordinates.x, y: c.coordinates.y },
    }
}

impl From<Cell> for SerializableCell {
    fn from(cell: Cell) -> Self {
        SerializableCell {
            number: cell.number,
            cleared: cell.cleared,
            flagged: cell.flagged,
            coordinates: SerializablePoint::from(cell.coordinates),
        }
    }
}

impl vstd::std_specs::convert::FromSpecImpl<Cell> for SerializableCell {
    open spec fn obeys_from_spec() -> bool {
        true
    }

    open spec fn from_spec(v: Cell) -> SerializableCell {
        wire_cell(v)
    }
}

impl From<SerializableCell> for Cell {
    fn from(cell: SerializableCell) -> Self {
        Cell {
            number: cell.number,
            cleared: cell.cleared,
            flagged: cell.flagged,
            coordinates: Point::from(cell.coordinates),
        }
    }
}

impl vstd::std_specs::convert::FromSpecImpl<SerializableCell> for Cell {
    open spec fn obeys_from_spec() -> bool {
        true
    }

    open spec fn from_spec(v: SerializableCell) -> Cell {
        engine_cell(v)
    }
}

/// A game as advertised in the lobby.
#[derive(Clone, Debug)]
pub struct GameDefinition {
    pub name: String,
    pub id: String,
    pub difficulty: String,
}

impl GameDefinition {
    pub fn new(id: &str, name: &str, difficulty: Difficulty) -> (r: Self)
        ensures
            r.id@ == id@,
            r.name@ == name@,
            r.difficulty@ == label_of(difficulty),
    {
        GameDefinition { name: name.to_owned(), id: id.to_owned(), difficulty: difficulty_label(&difficulty) }
    }
}

/// Builds `width` columns of `height` values each, the value at column `x`
/// and row `y` being `closure(x, y)`.
pub fn populate_vec_with_closure<T, F>(width: usize, height: usize, closure: F) -> (rows: Vec<Vec<T>>)
    where
        F: Fn(usize, usize) -> T,
    requires
        forall|x: usize, y: usize| x < width && y < height ==> #[trigger] closure.requires((x, y)),
    ensures
        rows@.len() == width,
        forall|x: int| 0 <= x < width ==> #[trigger] rows@[x]@.len() == height,
        forall|x: int, y: int|
            0 <= x < width && 0 <= y < height ==> closure.ensures(
                (x as usize, y as usize),
                #[trigger] rows@[x]@[y],
            ),
{
    let mut rows = Vec::<Vec<T>>::with_capacity(width);
    for x in 0..width
        invariant
            forall|x: usize, y: usize| x < width && y < height ==> #[trigger] closure.requires((x, y)),
            rows@.len() == x,
            forall|i: int| 0 <= i < x ==> #[trigger] rows@[i]@.len() == height,
            forall|i: int, j: int|
                0 <= i < x && 0 <= j < height ==> closure.ensures(
                    (i as usize, j as usize),
                    #[trigger] rows@[i]@[j],
                ),
    {
        let mut columns = Vec::<T>::with_capacity(height);
        for y in 0..height
            invariant
                forall|x: usize, y: usize| x < width && y < height ==> #[trigger] closure.requires((x, y)),
                x < width,
                columns@.len() == y,
                forall|j: int| 0 <= j < y ==> closure.ensures((x, j as usize), #[trigger] columns@[j]),
        {
            let cell = closure(x, y);
            columns.push(cell);
        }
        rows.push(columns);
    }
    rows
}

/// The board as it travels: `data[x][y]` is the cell at column `x`, row `y`.
#[derive(Clone, Debug)]
pub struct SerializableBoard {
    pub data: Vec<Vec<SerializableCell>>,
}

/// The wire cell at column `x`, row `y`, or a default one outside the rows.
pub open spec fn wire_cell_or_default(data: Seq<Vec<SerializableCell>>, x: int, y: int) -> SerializableCell {
    if 0 <= x < data.len() && 0 <= y < data[x]@.len() {
        data[x]@[y]
    } else {
        wire_cell(cell_or_default(Seq::empty(), Point { x: 0, y: 0 }))
    }
}

pub open spec fn wire_height(data: Seq<Vec<SerializableCell>>) -> int {
    if data.len() == 0 {
        0
    } else {
        data[0]@.len() as int
    }
}

/// `s` is the wire form of `b`: as many columns, each as long as `b`'s first
/// column, holding the wire records of `b`'s cells.
pub open spec fn wire_of(s: SerializableBoard, b: Board) -> bool {
    let cells = b.cells.data@;
    &&& s.data@.len() == cells.len()
    &&& forall|x: int| 0 <= x < s.data@.len() ==> #[trigger] s.data@[x]@.len() == grid_height(cells)
    &&& forall|x: int, y: int|
        0 <= x < s.data@.len() && 0 <= y < grid_height(cells) ==> #[trigger] s.data@[x]@[y]
            == wire_cell(cell_at_or_default(cells, x, y))
}

/// `b` is the engine board of `s`: as many columns, each as long as `s`'s
/// first column, holding the engine cells of `s`'s records.
pub open spec fn engine_of(b: Board, s: SerializableBoard) -> bool {
    let cells = b.cells.data@;
    &&& cells.len() == s.data@.len()
    &&& forall|x: int| 0 <= x < s.data@.len() ==> #[trigger] cells[x]@.len() == wire_height(s.data@)
    &&& forall|x: int, y: int|
        0 <= x < s.data@.len() && 0 <= y < wire_height(s.data@) ==> #[trigger] cells[x]@[y]
            == engine_cell(wire_cell_or_default(s.data@, x, y))
}

/// Every column of the grid is as long as the first.
pub open spec fn rectangular(cells: Seq<Vec<Cell>>) -> bool {
    forall|x: int| 0 <= x < cells.len() ==> #[trigger] cells[x]@.len() == grid_height(cells)
}

/// A cell survives the trip to its wire record and back.
pub proof fn lemma_cell_round_trip(c: Cell)
    ensures
        engine_cell(wire_cell(c)) == c,
{
}

/// A rectangular board survives the trip to its wire form and back, cell
/// for cell.
pub proof fn lemma_board_round_trip(b: Board, s: SerializableBoard, back: Board)
    requires
        rectangular(b.cells.data@),
        wire_of(s, b),
        engine_of(back, s),
    ensures
        back.cells.data@.len() == b.cells.data@.len(),
        forall|x: int| 0 <= x < b.cells.data@.len() ==> #[trigger] back.cells.data@[x]@.len() == b.cells.data@[x]@.len(),
        forall|x: int, y: int|
            0 <= x < b.cells.data@.len() && 0 <= y < b.cells.data@[x]@.len() ==> #[trigger] back.cells.data@[x]@[y]
                == b.cells.data@[x]@[y],
{
    let cells = b.cells.data@;
    if cells.len() > 0 {
        assert(wire_height(s.data@) == grid_height(cells));
    }
    assert forall|x: int, y: int|
        0 <= x < cells.len() && 0 <= y < cells[x]@.len() implies #[trigger] back.cells.data@[x]@[y]
            == cells[x]@[y] by {
        assert(wire_height(s.data@) == grid_height(cells));
        assert(cells[x]@.len() == grid_height(cells));
        assert(s.data@[x]@[y] == wire_cell(cells[x]@[y]));
        lemma_cell_round_trip(cells[x]@[y]);
    }
}

impl SerializableBoard {
    /// The wire form of `board`: as many columns as it has, each as long as
    /// its first column.
    pub fn of_board(board: &Board) -> (r: SerializableBoard)
        ensures
            wire_of(r, *board),
    {
        let size = board.get_size();
        let wire_at = |x: usize, y: usize| -> (c: SerializableCell)
            ensures
                c == wire_cell(cell_or_default(board.cells.data@, Point { x, y })),
            {
                    match board.cell_at(Point { x, y }) {
                        Some(cell) => SerializableCell::from(*cell),
                        None => SerializableCell {
                            number: 0,
                            cleared: false,
                            flagged: false,
                            coordinates: SerializablePoint { x: 0, y: 0 },
                        },
                    }
                };
        let rows = populate_vec_with_closure(size.width, size.height, wire_at);
        SerializableBoard { data: rows }
    }

    /// The engine board of this wire form: as many columns as it has, each as
    /// long as its first column.
    pub fn to_board(&self) -> (r: Board)
        ensures
            engine_of(r, *self),
    {
        let width = self.data.len();
        let height = if width == 0 {
            0
        } else {
            self.data[0].len()
        };
        let data = &self.data;
        let engine_at = |x: usize, y: usize| -> (c: Cell)
            ensures
                c == engine_cell(wire_cell_or_default(data@, x as int, y as int)),
            {
                    if x < data.len() && y < data[x].len() {
                        Cell::from(data[x][y])
                    } else {
                        Cell { number: 0, cleared: false, flagged: false, coordinates: Point { x: 0, y: 0 } }
                    }
                };
        let rows = populate_vec_with_closure(width, height, engine_at);
        Board::new_with_cells(Vec2::new(rows))
    }
}

impl From<Board> for SerializableBoard {
    fn from(board: Board) -> Self {
        SerializableBoard::of_board(&board)
    }
}

impl From<SerializableBoard> for Board {
    fn from(s_board: SerializableBoard) -> Self {
        s_board.to_board()
    }
}

// A board holds vectors, which no spec function can build: the conversions
// between boards are stated by `of_board` and `to_board` instead.
impl vstd::std_specs::convert::FromSpecImpl<Board> for SerializableBoard {
    open spec fn obeys_from_spec() -> bool {
        false
    }

    open spec fn from_spec(v: Board) -> SerializableBoard {
        arbitrary()
    }
}

impl vstd::std_specs::convert::FromSpecImpl<SerializableBoard> for Board {
    open spec fn obeys_from_spec() -> bool {
        false
    }

    open spec fn from_spec(v: SerializableBoard) -> Board {
        arbitrary()
    }
}

} // verus!
