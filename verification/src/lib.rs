//! The rules of tic-tac-toe: a board of nine cells, two players who move in
//! turn, and the detection of wins and draws.

pub mod board;
pub mod console;
pub mod decimal;
pub mod engine;
pub mod player;
pub mod position;
mod scan;
pub mod status;
pub mod theorems;
pub mod web;
pub mod wire;

pub use board::{winning_line, Board, WINNING_COMBINATIONS};
pub use engine::{EventError, GameEngine, GameEvent, GameState, InvalidGameMoveError};
pub use player::Player;
pub use position::Position;
pub use status::GameStatus;
pub use web::WasmGameEngine;
