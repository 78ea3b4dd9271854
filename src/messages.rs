//! The messages two peers exchange. Each carries its kind in `name`; the
//! constructors set it, and `has_expected_name` tells whether a received
//! message carries the kind its shape belongs to.
use crate::board::label_of;
use crate::serializables::{
    engine_of, GameDefinition, SerializableBoard, SerializablePoint,
};
use minesweeper_core::{Board, Difficulty};
use vstd::prelude::*;

verus! {

/// Whether `name` holds exactly the characters of `tag`.
fn name_is(name: &String, tag: &str) -> (r: bool)
    ensures
        r == (name@ == tag@),
{
    let expected = tag.to_owned();
    *name == expected
}

/// Opens a session: the board both peers play on and whether the receiver
/// takes the first turn.
pub struct GameStartMessage {
    pub name: String,
    pub board: SerializableBoard,
    pub is_active: bool,
}

impl GameStartMessage {
    pub fn new(board: SerializableBoard, is_active: bool) -> (r: Self)
        ensures
            r.name@ == "start"@,
            r.board == board,
            r.is_active == is_active,
    {
        GameStartMessage { name: "start".to_owned(), board, is_active }
    }

    /// The engine board this message carries.
    pub fn get_board(&self) -> (r: Board)
        ensures
            engine_of(r, self.board),
    {
        self.board.to_board()
    }

    pub fn has_expected_name(&self) -> (r: bool)
        ensures
            r == (self.name@ == "start"@),
    {
        name_is(&self.name, "start")
    }
}

/// A message that carries its kind alone.
pub struct SimpleMessage {
    pub name: String,
}

impl SimpleMessage {
    pub fn new(name: &str) -> (r: Self)
        ensures
            r.name@ == name@,
    {
        SimpleMessage { name: name.to_owned() }
    }
}

/// Tells the server which user a connection belongs to.
pub struct IdentificationMessage {
    pub name: String,
    pub user_id: String,
}

impl IdentificationMessage {
    pub fn new(user_id: String) -> (r: Self)
        ensures
            r.name@ == "user_identification"@,
            r.user_id == user_id,
    {
        IdentificationMessage { name: "user_identification".to_owned(), user_id }
    }

    pub fn has_expected_name(&self) -> (r: bool)
        ensures
            r == (self.name@ == "user_identification"@),
    {
        name_is(&self.name, "user_identification")
    }
}

/// A selection made on one peer, and whether its sender was on turn.
pub struct CellSelectedMessage {
    pub name: String,
    pub is_active_player: bool,
    pub coordinates: SerializablePoint,
}

impl CellSelectedMessage {
    pub fn new(coordinates: SerializablePoint, is_active_player: bool) -> (r: Self)
        ensures
            r.name@ == "cell_selected"@,
            r.is_active_player == is_active_player,
            r.coordinates == coordinates,
    {
        CellSelectedMessage { name: "cell_selected".to_owned(), is_active_player, coordinates }
    }

    pub fn has_expected_name(&self) -> (r: bool)
        ensures
            r == (self.name@ == "cell_selected"@),
    {
        name_is(&self.name, "cell_selected")
    }
}

/// The games waiting for a second player.
pub struct OpenGamesMessage {
    pub name: String,
    pub games: Vec<GameDefinition>,
}

impl OpenGamesMessage {
    pub fn new(games: Vec<GameDefinition>) -> (r: Self)
        ensures
            r.name@ == "open_games"@,
            r.games == games,
    {
        OpenGamesMessage { name: "open_games".to_owned(), games }
    }

    pub fn has_expected_name(&self) -> (r: bool)
        ensures
            r == (self.name@ == "open_games"@),
    {
        name_is(&self.name, "open_games")
    }
}

/// Asks the server to open a game; the server assigns its id.
pub struct CreateGameMessage {
    pub name: String,
    pub game: GameDefinition,
}

impl CreateGameMessage {
    pub fn new(name: &str, difficulty: Difficulty) -> (r: Self)
        ensures
            r.name@ == "create_game"@,
            r.game.id@ == ""@,
            r.game.name@ == name@,
            r.game.difficulty@ == label_of(difficulty),
    {
        let game = GameDefinition::new("", name, difficulty);
        CreateGameMessage { name: "create_game".to_owned(), game }
    }

    pub fn has_expected_name(&self) -> (r: bool)
        ensures
            r == (self.name@ == "create_game"@),
    {
        name_is(&self.name, "create_game")
    }
}

/// Asks to join the game with the given id.
pub struct JoinGameMessage {
    pub name: String,
    pub game_id: String,
    pub client_name: String,
}

impl JoinGameMessage {
    pub fn new(game_id: &str, client_name: &str) -> (r: Self)
        ensures
            r.name@ == "join_game"@,
            r.game_id@ == game_id@,
            r.client_name@ == client_name@,
    {
        JoinGameMessage {
            name: "join_game".to_owned(),
            game_id: game_id.to_owned(),
            client_name: client_name.to_owned(),
        }
    }

    pub fn has_expected_name(&self) -> (r: bool)
        ensures
            r == (self.name@ == "join_game"@),
    {
        name_is(&self.name, "join_game")
    }
}

} // verus!
