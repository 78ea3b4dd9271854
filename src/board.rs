//! The single-player board engine of `minesweeper_core`, as this library sees it.
//!
//! Its data types have public fields of plain values, so they are declared
//! here with those fields visible; the engine's operations that the session
//! relies on are declared with the behaviour their source shows.
use minesweeper_core::{Board, Cell, Difficulty, Game, Point, Size, Vec2};
use vstd::prelude::*;

verus! {

#[verifier::external_type_specification]
pub struct ExPoint(Point);

#[verifier::external_type_specification]
pub struct ExSize(Size);

#[verifier::external_type_specification]
pub struct ExCell(Cell);

#[verifier::external_type_specification]
#[verifier::reject_recursive_types(T)]
pub struct ExVec2<T>(Vec2<T>);

#[verifier::external_type_specification]
pub struct ExBoard(Board);

#[verifier::external_type_specification]
pub struct ExDifficulty(Difficulty);

#[verifier::external_type_specification]
pub struct ExGame(Game);

/// A cell holds a mine when its number is negative.
pub open spec fn is_mine_cell(c: Cell) -> bool {
    c.number < 0
}

/// What the engine reports for a coordinate outside the grid: a default cell.
pub open spec fn default_cell() -> Cell {
    Cell { number: 0, cleared: false, flagged: false, coordinates: Point { x: 0, y: 0 } }
}

pub open spec fn in_grid(cells: Seq<Vec<Cell>>, p: Point) -> bool {
    p.x < cells.len() && p.y < cells[p.x as int]@.len()
}

/// The cell at column `x`, row `y`, or the default cell outside the grid.
pub open spec fn cell_at_or_default(cells: Seq<Vec<Cell>>, x: int, y: int) -> Cell {
    if 0 <= x < cells.len() && 0 <= y < cells[x]@.len() {
        cells[x]@[y]
    } else {
        default_cell()
    }
}

/// The cell at `p`, or the default cell where `p` lies outside the grid.
pub open spec fn cell_or_default(cells: Seq<Vec<Cell>>, p: Point) -> Cell {
    cell_at_or_default(cells, p.x as int, p.y as int)
}

/// Every cell records its own position, and the grid's coordinates fit the
/// engine's signed neighbour arithmetic.
pub open spec fn grid_consistent(cells: Seq<Vec<Cell>>) -> bool {
    &&& cells.len() < 0x7fff_ffff
    &&& forall|x: int| 0 <= x < cells.len() ==> #[trigger] cells[x]@.len() < 0x7fff_ffff
    &&& forall|x: int, y: int|
        0 <= x < cells.len() && 0 <= y < cells[x]@.len() ==> #[trigger] cells[x]@[y].coordinates
            == (Point { x: x as usize, y: y as usize })
}

/// A reveal keeps the grid's shape and every cell's contents, and never hides a cell.
pub open spec fn revealed_from(before: Seq<Vec<Cell>>, after: Seq<Vec<Cell>>) -> bool {
    &&& after.len() == before.len()
    &&& forall|x: int| 0 <= x < before.len() ==> #[trigger] after[x]@.len() == before[x]@.len()
    &&& forall|x: int, y: int|
        0 <= x < before.len() && 0 <= y < before[x]@.len() ==> {
            let b = #[trigger] before[x]@[y];
            let a = after[x]@[y];
            &&& a.number == b.number
            &&& a.flagged == b.flagged
            &&& a.coordinates == b.coordinates
            &&& (b.cleared ==> a.cleared)
        }
}

/// A reveal keeps a consistent grid consistent.
pub proof fn lemma_reveal_keeps_consistent(before: Seq<Vec<Cell>>, after: Seq<Vec<Cell>>)
    requires
        grid_consistent(before),
        revealed_from(before, after),
    ensures
        grid_consistent(after),
{
    assert forall|x: int| 0 <= x < after.len() implies #[trigger] after[x]@.len() < 0x7fff_ffff by {
        assert(after[x]@.len() == before[x]@.len());
    }
    assert forall|x: int, y: int|
        0 <= x < after.len() && 0 <= y < after[x]@.len() implies #[trigger] after[x]@[y].coordinates
            == (Point { x: x as usize, y: y as usize }) by {
        assert(after[x]@.len() == before[x]@.len());
        assert(before[x]@[y].coordinates == (Point { x: x as usize, y: y as usize }));
    }
}

/// A position inside the grid stays inside it after a reveal.
pub proof fn lemma_reveal_keeps_grid(before: Seq<Vec<Cell>>, after: Seq<Vec<Cell>>, p: Point)
    requires
        revealed_from(before, after),
        in_grid(before, p),
    ensures
        in_grid(after, p),
{
    assert(after[p.x as int]@.len() == before[p.x as int]@.len());
}

/// Relies on Game::selected_at of minesweeper_core: it returns the cell found at
/// `coordinates` before the selection (a default cell outside the grid) and
/// clears that cell and, from an empty one, its empty-connected neighbours.
pub assume_specification[ Game::selected_at ](g: &mut Game, coordinates: Point) -> (r: Cell)
    requires
        grid_consistent(old(g).board.cells.data@),
    ensures
        r == cell_or_default(old(g).board.cells.data@, coordinates),
        final(g).total_mines == old(g).total_mines,
        final(g).difficulty == old(g).difficulty,
        revealed_from(old(g).board.cells.data@, final(g).board.cells.data@),
        in_grid(old(g).board.cells.data@, coordinates) ==> cell_or_default(
            final(g).board.cells.data@,
            coordinates,
        ).cleared,
;

/// Mines on a board of the given difficulty.
pub open spec fn mines_for(d: Difficulty) -> i32 {
    match d {
        Difficulty::Easy => 11,
        Difficulty::Medium => 41,
        Difficulty::Hard => 99,
    }
}

/// Columns (the outer dimension) of a board of the given difficulty.
pub open spec fn width_for(d: Difficulty) -> usize {
    match d {
        Difficulty::Easy => 10,
        Difficulty::Medium => 16,
        Difficulty::Hard => 30,
    }
}

/// Rows (the inner dimension) of a board of the given difficulty.
pub open spec fn height_for(d: Difficulty) -> usize {
    match d {
        Difficulty::Easy => 10,
        Difficulty::Medium => 16,
        Difficulty::Hard => 16,
    }
}

/// The height the engine reports: the length of the first column, or zero.
pub open spec fn grid_height(cells: Seq<Vec<Cell>>) -> usize {
    if cells.len() == 0 {
        0
    } else {
        cells[0]@.len() as usize
    }
}

/// Relies on Game::new of minesweeper_core: a fresh board sized by the
/// difficulty, every cell hidden and unflagged and recording its position,
/// with the difficulty's mine count as the game's total.
pub assume_specification[ Game::new ](difficulty: Difficulty) -> (g: Game)
    ensures
        g.total_mines == mines_for(difficulty),
        g.difficulty == difficulty,
        g.board.cells.data@.len() == width_for(difficulty),
        forall|x: int|
            0 <= x < g.board.cells.data@.len() ==> #[trigger] g.board.cells.data@[x]@.len()
                == height_for(difficulty),
        grid_consistent(g.board.cells.data@),
        forall|x: int, y: int|
            0 <= x < g.board.cells.data@.len() && 0 <= y < g.board.cells.data@[x]@.len() ==> {
                let c = #[trigger] g.board.cells.data@[x]@[y];
                !c.cleared && !c.flagged
            },
;

/// Relies on Game::get_board of minesweeper_core: a reference to the game's board.
pub assume_specification[ Game::get_board ](g: &Game) -> (r: &Board)
    ensures
        *r == g.board,
;

/// Relies on Board::get_size of minesweeper_core: the column count and the
/// length of the first column.
pub assume_specification[ Board::get_size ](b: &Board) -> (r: Size)
    ensures
        r.width == b.cells.data@.len(),
        r.height == grid_height(b.cells.data@),
;

/// Relies on Board::cell_at of minesweeper_core: the cell at a position inside
/// the grid, none outside it.
pub assume_specification[ Board::cell_at ](b: &Board, coordinates: Point) -> (r: Option<&Cell>)
    ensures
        in_grid(b.cells.data@, coordinates) ==> r == Some(
            &b.cells.data@[coordinates.x as int]@[coordinates.y as int],
        ),
        !in_grid(b.cells.data@, coordinates) ==> r.is_none(),
;

/// Relies on Board::new_with_cells of minesweeper_core: a board over the given grid.
pub assume_specification[ Board::new_with_cells ](cells: Vec2<Cell>) -> (r: Board)
    ensures
        r.cells == cells,
;

/// Relies on Vec2::new of minesweeper_core: a grid over the given columns.
pub assume_specification<T: Copy + Clone>[ Vec2::<T>::new ](data: Vec<Vec<T>>) -> (r: Vec2<T>)
    ensures
        r.data == data,
;

/// Relies on Cell::is_mine of minesweeper_core: a negative number marks a mine.
pub assume_specification[ Cell::is_mine ](c: &Cell) -> (r: bool)
    ensures
        r == is_mine_cell(*c),
;

/// The label a difficulty is shown and advertised with: its variant's name.
pub open spec fn label_of(d: Difficulty) -> Seq<char> {
    match d {
        Difficulty::Easy => "Easy"@,
        Difficulty::Medium => "Medium"@,
        Difficulty::Hard => "Hard"@,
    }
}

/// Relies on the Display impl of minesweeper_core's Difficulty, which prints
/// the variant's name.
#[verifier::external_body]
pub(crate) fn difficulty_label(d: &Difficulty) -> (r: String)
    ensures
        r@ == label_of(*d),
{
    d.to_string()
}

} // verus!
