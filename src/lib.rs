//! Two-player competitive minesweeper: the turn-based session engine and
//! the message catalog exchanged between the two peers.
mod board;
mod messages;
mod multiplayer;
mod player;
mod serializables;

pub use board::{cell_or_default, grid_consistent, is_mine_cell};
pub use multiplayer::{threshold, Multiplayer, SelectionError};
pub use player::Player;
pub use serializables::{
    populate_vec_with_closure, GameDefinition, SerializableBoard, SerializableCell,
    SerializablePoint,
};
pub use messages::{
    CellSelectedMessage, CreateGameMessage, GameStartMessage, IdentificationMessage,
    JoinGameMessage, OpenGamesMessage, SimpleMessage,
};
pub use minesweeper_core::{Board, Cell, Difficulty, Game, Point, Size, Vec2};
