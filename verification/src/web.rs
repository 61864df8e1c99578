//! The engine as a page's script sees it: cells are plain numbers, refusals
//! are plain messages.

use crate::engine::{GameEngine, GameState};
use crate::position::Position;
use crate::wire::{json_state, state_json};
use vstd::prelude::*;

verus! {

/// A game that is driven with plain numbers and answers with plain text.
pub struct WasmGameEngine {
    engine: GameEngine,
}

impl View for WasmGameEngine {
    type V = GameState;

    closed spec fn view(&self) -> GameState {
        self.engine@
    }
}

/// A game shown through this type has a board of nine cells, as every
/// engine has.
pub proof fn lemma_web_game_has_nine_cells(game: WasmGameEngine)
    ensures
        game@.cells.len() == 9,
{
}

/// What `play_move(position)` answers in state `s`: success, or the reason
/// for the refusal. A number above 8 names no cell.
pub open spec fn play_reply(s: GameState, position: u8) -> Result<(), Seq<char>> {
    if position > 8 {
        Err("Invalid position (must be 0-8)"@)
    } else {
        match s.move_check(position as int) {
            Ok(_) => Ok(()),
            Err(e) => Err(e.name_text()),
        }
    }
}

impl WasmGameEngine {
    /// A new game.
    pub fn new() -> (r: WasmGameEngine)
        ensures
            r@ == GameState::initial(),
    {
        WasmGameEngine { engine: GameEngine::new() }
    }

    /// The engine, to read the board, the player to move and the status.
    pub fn engine(&self) -> (r: &GameEngine)
        ensures
            r@ == self@,
    {
        &self.engine
    }

    /// Plays the current player's move to cell `position`. A refused move
    /// leaves the game as it was.
    pub fn play_move(&mut self, position: u8) -> (r: Result<(), String>)
        ensures
            match r {
                Ok(_) => play_reply(old(self)@, position) is Ok,
                Err(message) => play_reply(old(self)@, position) == Err::<(), Seq<char>>(message@),
            },
            final(self)@ == if position <= 8 {
                old(self)@.play(position as int)
            } else {
                old(self)@
            },
    {
        let pos: Position = match Position::new(position) {
            Some(p) => p,
            None => {
                return Err(String::from_str("Invalid position (must be 0-8)"));
            },
        };
        match self.engine.play_move(pos) {
            Ok(()) => Ok(()),
            Err(e) => Err(String::from_str(e.name())),
        }
    }

    /// Starts a new game.
    pub fn reset(&mut self)
        ensures
            final(self)@ == GameState::initial(),
    {
        self.engine.reset();
    }

    /// The state of the game as JSON text: the board, the player to move
    /// and the status.
    pub fn get_state(&self) -> (r: String)
        ensures
            r@ == state_json(self@),
            json_state(r@) == Some(self@),
    {
        self.engine.to_json()
    }

    /// Whether `play_move(position)` would succeed.
    pub fn is_valid_move(&self, position: u8) -> (r: bool)
        ensures
            r == play_reply(self@, position) is Ok,
    {
        let pos: Position = match Position::new(position) {
            Some(p) => p,
            None => {
                return false;
            },
        };
        self.engine.validate_move(pos).is_ok()
    }
}

} // verus!
