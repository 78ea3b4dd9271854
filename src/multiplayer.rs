//! The two-player session engine: whose turn it is, what a selection does to
//! the players and the board, and who is winning.
use crate::board::{
    cell_or_default, grid_consistent, height_for, in_grid, is_mine_cell, lemma_reveal_keeps_consistent,
    mines_for,
    revealed_from, width_for,
};
use crate::player::Player;
use minesweeper_core::{Board, Cell, Difficulty, Game, Point, Size};
use vstd::prelude::*;

verus! {

/// The number of mines a player must find to end the session: half of the
/// board's mines, a half rounded up.
pub open spec fn threshold(total_mines: int) -> int {
    (total_mines + 1) / 2
}

/// Why a selection was refused.
#[derive(Debug, Clone, Copy, PartialEq, Eq, Structural)]
pub enum SelectionError {
    /// A player already reached the threshold: the session is over.
    GameFinished,
}

/// A session: two players taking turns on one shared board.
pub struct Multiplayer {
    pub players: Vec<Player>,
    pub game: Game,
}

impl Multiplayer {
    /// Mines found by the player at `i`.
    pub open spec fn count(&self, i: int) -> int {
        self.players@[i].mines_found@.len() as int
    }

    pub open spec fn goal(&self) -> int {
        threshold(self.game.total_mines as int)
    }

    pub open spec fn cells(&self) -> Seq<Vec<Cell>> {
        self.game.board.cells.data@
    }

    /// Two players, exactly one of them on turn, neither past the threshold,
    /// over a board whose cells record their own positions.
    pub open spec fn wf(&self) -> bool {
        &&& self.players@.len() == 2
        &&& self.players@[0].is_active != self.players@[1].is_active
        &&& 0 <= self.game.total_mines
        &&& self.count(0) <= self.goal()
        &&& self.count(1) <= self.goal()
        &&& grid_consistent(self.cells())
    }

    /// The index of the player on turn.
    pub open spec fn active_index(&self) -> int {
        if self.players@[0].is_active {
            0
        } else {
            1
        }
    }

    pub open spec fn finished(&self) -> bool {
        self.count(0) == self.goal() || self.count(1) == self.goal()
    }

    pub open spec fn remaining(&self) -> int {
        self.goal() - if self.count(0) >= self.count(1) {
            self.count(0)
        } else {
            self.count(1)
        }
    }

    /// The index of the player with strictly more mines, if there is one.
    pub open spec fn leader_index(&self) -> Option<int> {
        if self.count(0) > self.count(1) {
            Some(0)
        } else if self.count(1) > self.count(0) {
            Some(1)
        } else {
            None
        }
    }

    /// The players' identities are those of `self` in `after`.
    pub open spec fn same_identities(&self, after: Multiplayer) -> bool {
        &&& after.players@.len() == 2
        &&& forall|i: int|
            0 <= i < 2 ==> (#[trigger] after.players@[i]).name == self.players@[i].name
                && after.players@[i].id == self.players@[i].id
    }

    pub open spec fn same_turn(&self, after: Multiplayer) -> bool {
        forall|i: int| 0 <= i < 2 ==> (#[trigger] after.players@[i]).is_active == self.players@[i].is_active
    }

    pub open spec fn flipped_turn(&self, after: Multiplayer) -> bool {
        forall|i: int| 0 <= i < 2 ==> (#[trigger] after.players@[i]).is_active != self.players@[i].is_active
    }

    pub open spec fn same_finds(&self, after: Multiplayer) -> bool {
        forall|i: int|
            0 <= i < 2 ==> (#[trigger] after.players@[i]).mines_found@ == self.players@[i].mines_found@
    }

    /// `after` is `self` once `p` has been selected: the board revealed `p`; a
    /// cell already cleared changes no player; a hidden mine goes to the
    /// player on turn, who keeps the turn; any other cell passes the turn.
    pub open spec fn selected(&self, after: Multiplayer, p: Point) -> bool {
        let c = cell_or_default(self.cells(), p);
        let a = self.active_index();
        &&& after.game.total_mines == self.game.total_mines
        &&& after.game.difficulty == self.game.difficulty
        &&& revealed_from(self.cells(), after.cells())
        &&& (in_grid(self.cells(), p) ==> cell_or_default(after.cells(), p).cleared)
        &&& self.same_identities(after)
        &&& if c.cleared {
            self.same_turn(after) && self.same_finds(after)
        } else if is_mine_cell(c) {
            &&& self.same_turn(after)
            &&& after.players@[a].mines_found@ == self.players@[a].mines_found@.push(p)
            &&& after.players@[1 - a].mines_found@ == self.players@[1 - a].mines_found@
        } else {
            self.flipped_turn(after) && self.same_finds(after)
        }
    }

    /// A session on a fresh board of the given difficulty; the first name
    /// given takes the first turn.
    pub fn new(player_names: [&str; 2], difficulty: Difficulty) -> (r: Multiplayer)
        ensures
            r.wf(),
            r.players@[0].name@ == player_names@[0]@,
            r.players@[1].name@ == player_names@[1]@,
            r.players@[0].is_active,
            r.count(0) == 0,
            r.count(1) == 0,
            r.game.total_mines == mines_for(difficulty),
            r.game.difficulty == difficulty,
            r.cells().len() == width_for(difficulty),
            forall|x: int| 0 <= x < r.cells().len() ==> #[trigger] r.cells()[x]@.len() == height_for(difficulty),
            forall|x: int, y: int|
                0 <= x < r.cells().len() && 0 <= y < r.cells()[x]@.len() ==> !(#[trigger] r.cells()[x]@[y]).cleared,
            r.players@[0].id@.len() == 36,
            r.players@[1].id@.len() == 36,
    {
        let mut first = Player::new(player_names[0]);
        first.is_active = true;
        let second = Player::new(player_names[1]);
        let mut players: Vec<Player> = Vec::new();
        players.push(first);
        players.push(second);
        Multiplayer { players, game: Game::new(difficulty) }
    }

    pub fn get_board(&self) -> (r: &Board)
        ensures
            *r == self.game.board,
    {
        self.game.get_board()
    }

    /// The player on turn, for changes.
    pub fn current_player_mut(&mut self) -> (r: &mut Player)
        requires
            old(self).wf(),
        ensures
            *r == old(self).players@[old(self).active_index()],
            final(self).players@ == old(self).players@.update(
                old(self).active_index(),
                *final(r),
            ),
            final(self).game == old(self).game,
    {
        let i: usize = if self.players[0].is_active {
            0
        } else {
            1
        };
        &mut self.players[i]
    }

    /// The player on turn.
    pub fn current_player(&self) -> (r: &Player)
        requires
            self.wf(),
        ensures
            *r == self.players@[self.active_index()],
            r.is_active,
    {
        if self.players[0].is_active {
            &self.players[0]
        } else {
            &self.players[1]
        }
    }

    /// The board's width (columns) and height (rows).
    pub fn get_board_dimentions(&self) -> (r: Size)
        ensures
            r.width == self.cells().len(),
            r.height == crate::board::grid_height(self.cells()),
    {
        self.game.board.get_size()
    }

    /// Applies the selection of `coordinates` by the player on turn. Once the
    /// session is finished every selection is refused and changes nothing.
    pub fn player_selected(&mut self, coordinates: Point) -> (r: Result<(), SelectionError>)
        requires
            old(self).wf(),
        ensures
            final(self).wf(),
            old(self).finished() ==> r == Err::<(), SelectionError>(SelectionError::GameFinished)
                && *final(self) == *old(self),
            !old(self).finished() ==> r is Ok && old(self).selected(*final(self), coordinates),
    {
        if self.did_game_finish() {
            return Err(SelectionError::GameFinished);
        }
        let selected_cell = self.game.selected_at(coordinates);
        proof {
            lemma_reveal_keeps_consistent(old(self).cells(), self.cells());
        }
        if selected_cell.is_mine() && !selected_cell.cleared {
            self.current_player_mut().mines_found.push(coordinates);
        } else if !selected_cell.cleared {
            self.switch_active_player();
        }
        Ok(())
    }

    fn switch_active_player(&mut self)
        requires
            old(self).players@.len() == 2,
        ensures
            final(self).game == old(self).game,
            old(self).same_identities(*final(self)),
            old(self).flipped_turn(*final(self)),
            old(self).same_finds(*final(self)),
    {
        let first = !self.players[0].is_active;
        let second = !self.players[1].is_active;
        self.players[0].is_active = first;
        self.players[1].is_active = second;
    }

    /// Half of the board's mines, a half rounded up.
    fn half_mines(&self) -> (r: i32)
        requires
            self.wf(),
        ensures
            r == self.goal(),
    {
        ((self.game.total_mines as i64 + 1) / 2) as i32
    }

    /// Whether a player has found the threshold number of mines.
    pub fn did_game_finish(&self) -> (r: bool)
        requires
            self.wf(),
        ensures
            r == self.finished(),
    {
        let half_mines = self.half_mines();
        let player_1 = self.players[0].mines_found.len() as i32;
        let player_2 = self.players[1].mines_found.len() as i32;
        half_mines == player_1 || half_mines == player_2
    }

    /// The player with strictly more mines found; none on a tie.
    pub fn player_winning(&self) -> (r: Option<&Player>)
        requires
            self.wf(),
        ensures
            r == (match self.leader_index() {
                Some(i) => Some(&self.players@[i]),
                None => None,
            }),
    {
        let first = &self.players[0];
        let second = &self.players[1];
        if first.mines_found.len() > second.mines_found.len() {
            Some(first)
        } else if first.mines_found.len() < second.mines_found.len() {
            Some(second)
        } else {
            None
        }
    }

    /// How many more mines the leading player needs to end the session.
    pub fn remaining_to_win(&self) -> (r: i32)
        requires
            self.wf(),
        ensures
            r == self.remaining(),
            r >= 0,
    {
        let player_1 = self.players[0].mines_found.len();
        let player_2 = self.players[1].mines_found.len();
        let half_mines = self.half_mines();
        let max = if player_1 >= player_2 {
            player_1
        } else {
            player_2
        };
        half_mines - max as i32
    }

    /// The player who ended the session with strictly more mines; none while
    /// the session goes on. Should both players stand at the threshold, no
    /// one has won.
    pub fn winner(&self) -> (r: Option<&Player>)
        requires
            self.wf(),
        ensures
            !self.finished() ==> r.is_none(),
            self.finished() ==> r == (match self.leader_index() {
                Some(i) => Some(&self.players@[i]),
                None => None,
            }),
    {
        if !self.did_game_finish() {
            return None;
        }
        self.player_winning()
    }
}

/// In every well-formed session exactly one of the two players is on turn;
/// `Multiplayer::new` establishes well-formedness and every selection keeps it.
pub proof fn lemma_exactly_one_active(m: Multiplayer)
    requires
        m.wf(),
    ensures
        m.players@[0].is_active <==> !m.players@[1].is_active,
        m.players@[m.active_index()].is_active,
        !m.players@[1 - m.active_index()].is_active,
{
}

/// Selecting a coordinate a second time changes neither player's turn nor
/// their mines: the first selection cleared it.
pub proof fn lemma_reselection_is_noop(first: Multiplayer, second: Multiplayer, third: Multiplayer, p: Point)
    requires
        in_grid(first.cells(), p),
        first.selected(second, p),
        second.selected(third, p),
    ensures
        second.same_turn(third),
        second.same_finds(third),
{
    crate::board::lemma_reveal_keeps_grid(first.cells(), second.cells(), p);
}

/// The session is finished exactly when no mine remains for the leader to
/// find, and the remaining count never goes below zero.
pub proof fn lemma_finished_exactly_at_threshold(m: Multiplayer)
    requires
        m.wf(),
    ensures
        m.remaining() >= 0,
        m.finished() <==> m.remaining() == 0,
{
}

} // verus!
