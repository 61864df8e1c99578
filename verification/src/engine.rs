//! The engine: the state of one game and the events that change it.

use crate::board::{is_full, lemma_first_held, status_of, winning_line, Board};
use crate::player::Player;
use crate::position::Position;
use crate::status::GameStatus;
use vstd::prelude::*;

verus! {

/// Why a move was refused.
#[derive(Debug, Clone, Copy, PartialEq, Eq, Structural)]
pub enum InvalidGameMoveError {
    /// The game has ended already, by a win or by a draw.
    GameAlreadyWon,
    /// The cell is taken.
    SpaceOccupied,
}

impl InvalidGameMoveError {
    /// The name of the reason.
    pub open spec fn name_text(self) -> Seq<char> {
        match self {
            InvalidGameMoveError::GameAlreadyWon => "GameAlreadyWon"@,
            InvalidGameMoveError::SpaceOccupied => "SpaceOccupied"@,
        }
    }

    /// The name of the reason.
    pub fn name(&self) -> (r: &'static str)
        ensures
            r@ == self.name_text(),
    {
        match self {
            InvalidGameMoveError::GameAlreadyWon => "GameAlreadyWon",
            InvalidGameMoveError::SpaceOccupied => "SpaceOccupied",
        }
    }
}

/// Why an event was refused.
pub type EventError = InvalidGameMoveError;

/// What a player can ask of the engine.
#[derive(Clone, Copy, Debug)]
pub enum GameEvent {
    /// Put the current player's mark on a cell.
    PlayMove(Position),
    /// Start a new game.
    Reset,
}

/// A game of tic-tac-toe: the board, the player to move, and how the game
/// stands.
#[derive(Clone, Copy, Debug)]
pub struct GameEngine {
    pub board: Board,
    pub current_player: Player,
    pub status: GameStatus,
}

/// A game as a mathematical value.
pub struct GameState {
    /// The nine cells, row by row.
    pub cells: Seq<Option<Player>>,
    /// The player to move.
    pub turn: Player,
    /// How the game stands.
    pub status: GameStatus,
}

impl View for GameEngine {
    type V = GameState;

    open spec fn view(&self) -> GameState {
        GameState { cells: self.board@, turn: self.current_player, status: self.status }
    }
}

impl GameState {
    /// A new game: an empty board, X to move.
    pub open spec fn initial() -> GameState {
        GameState {
            cells: Seq::new(9, |i: int| None::<Player>),
            turn: Player::X,
            status: GameStatus::Ongoing,
        }
    }

    /// Whether the player to move may take `cell`; if not, why not. A game
    /// that has ended refuses every move, whatever the cell holds.
    pub open spec fn move_check(self, cell: int) -> Result<(), InvalidGameMoveError> {
        if self.status.finished() {
            Err(InvalidGameMoveError::GameAlreadyWon)
        } else if self.cells[cell] is Some {
            Err(InvalidGameMoveError::SpaceOccupied)
        } else {
            Ok(())
        }
    }

    /// The game after the player to move has taken `cell`: the mark is
    /// placed, the status follows from the new board, and the turn passes on
    /// only if the game goes on.
    pub open spec fn after_move(self, cell: int) -> GameState {
        let cells = self.cells.update(cell, Some(self.turn));
        let status = status_of(cells);
        GameState {
            cells,
            turn: if status.finished() {
                self.turn
            } else {
                self.turn.opponent()
            },
            status,
        }
    }

    /// The game after an attempt to take `cell`: a refused move changes
    /// nothing.
    pub open spec fn play(self, cell: int) -> GameState {
        if self.move_check(cell) is Ok {
            self.after_move(cell)
        } else {
            self
        }
    }

    /// Whether `event` is accepted; if not, why not.
    pub open spec fn event_check(self, event: GameEvent) -> Result<(), EventError> {
        match event {
            GameEvent::PlayMove(pos) => self.move_check(pos.index()),
            GameEvent::Reset => Ok(()),
        }
    }

    /// The game after `event`.
    pub open spec fn apply(self, event: GameEvent) -> GameState {
        match event {
            GameEvent::PlayMove(pos) => self.play(pos.index()),
            GameEvent::Reset => GameState::initial(),
        }
    }

    /// Whether the status is the one that the board calls for.
    pub open spec fn consistent(self) -> bool {
        &&& self.cells.len() == 9
        &&& self.status == status_of(self.cells)
    }
}

/// Two engines with the same view are the same engine.
pub proof fn lemma_view_tells_engine(a: GameEngine, b: GameEngine)
    requires
        a@ == b@,
    ensures
        a == b,
{
    assert(a.board@ == b.board@);
    assert(a.board =~= b.board);
}

impl GameEngine {
    /// A new game: an empty board, X to move.
    pub fn new() -> (e: Self)
        ensures
            e@ == GameState::initial(),
    {
        let e = Self { board: [None; 9], current_player: Player::X, status: GameStatus::Ongoing };
        assert(e@.cells =~= GameState::initial().cells);
        e
    }

    /// Starts a new game, whatever the state of this one.
    pub fn reset(&mut self)
        ensures
            final(self)@ == GameState::initial(),
    {
        *self = Self::new();
    }

    /// Puts the current player's mark on `pos`. On success the status is
    /// worked out anew, and the turn passes to the other player unless the
    /// move ended the game. A refused move leaves the engine as it was.
    pub fn play_move(&mut self, pos: Position) -> (r: Result<(), InvalidGameMoveError>)
        ensures
            r == old(self)@.move_check(pos.index()),
            final(self)@ == old(self)@.play(pos.index()),
            r is Err ==> *final(self) == *old(self),
    {
        match self.validate_move(pos) {
            Err(e) => {
                return Err(e);
            },
            Ok(()) => {},
        }
        self.board[pos.to_index()] = Some(self.current_player);
        self.update_winner();
        if !self.status.is_over() {
            self.update_next_player();
        }
        Ok(())
    }

    /// Whether `play_move(pos)` would succeed; if not, why not.
    pub fn validate_move(&self, pos: Position) -> (r: Result<(), InvalidGameMoveError>)
        ensures
            r == self@.move_check(pos.index()),
    {
        if self.status.is_over() {
            return Err(InvalidGameMoveError::GameAlreadyWon);
        }
        let pos: usize = pos.to_index();
        if self.board[pos].is_some() {
            return Err(InvalidGameMoveError::SpaceOccupied);
        }
        Ok(())
    }

    /// How the game stands, going by the board alone.
    pub fn calculate_status(&self) -> (r: GameStatus)
        ensures
            r == status_of(self.board@),
    {
        match winning_line(&self.board) {
            Some(line) => {
                proof {
                    lemma_first_held(self.board@);
                }
                let player: Player = self.board[line[0]].unwrap();
                GameStatus::Win { player, line }
            },
            None => {
                if is_full(&self.board) {
                    GameStatus::Draw
                } else {
                    GameStatus::Ongoing
                }
            },
        }
    }

    /// Applies `event`. A refused event leaves the engine as it was.
    pub fn handle_event(&mut self, event: GameEvent) -> (r: Result<(), EventError>)
        ensures
            r == old(self)@.event_check(event),
            final(self)@ == old(self)@.apply(event),
            r is Err ==> *final(self) == *old(self),
    {
        match event {
            GameEvent::PlayMove(pos) => self.play_move(pos),
            GameEvent::Reset => {
                self.reset();
                Ok(())
            },
        }
    }

    /// Whether `handle_event(event)` would succeed; if not, why not.
    pub fn validate_event(&self, event: GameEvent) -> (r: Result<(), EventError>)
        ensures
            r == self@.event_check(event),
    {
        match event {
            GameEvent::PlayMove(pos) => self.validate_move(pos),
            GameEvent::Reset => Ok(()),
        }
    }

    /// Passes the turn to the other player.
    pub fn update_next_player(&mut self)
        ensures
            final(self)@ == (GameState { turn: old(self)@.turn.opponent(), ..old(self)@ }),
    {
        self.current_player = self.current_player.next();
    }

    /// Sets the status to what the board calls for.
    pub fn update_winner(&mut self)
        ensures
            final(self)@ == (GameState { status: status_of(old(self)@.cells), ..old(self)@ }),
    {
        self.status = self.calculate_status();
    }

    /// Whether a move to `cell` would be accepted now: `cell` is on the
    /// board and empty, and the game goes on.
    pub fn is_playable(&self, cell: usize) -> (r: bool)
        ensures
            r == (cell < 9 && self@.move_check(cell as int) is Ok),
    {
        cell < 9 && !self.status.is_over() && self.board[cell].is_none()
    }

    /// The winner, if the game was won.
    pub fn winner(&self) -> (r: Option<Player>)
        ensures
            r == self@.status.victor(),
    {
        match self.status {
            GameStatus::Win { player, .. } => Some(player),
            _ => None,
        }
    }
}

} // verus!
