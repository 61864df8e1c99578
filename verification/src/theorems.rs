//! What holds of every game, stated over `GameState` and proved from the
//! definitions that the engine's contracts use.

use crate::board::{first_held_from, full, lemma_first_held, line_held, status_of, WINNING_COMBINATIONS};
use crate::engine::{GameEvent, GameState, InvalidGameMoveError};
use crate::player::Player;
use crate::position::Position;
use crate::status::GameStatus;
use vstd::prelude::*;

verus! {

/// The board of a new game calls for the status of a new game.
pub proof fn lemma_new_game_is_consistent()
    ensures
        GameState::initial().consistent(),
{
    let cells = GameState::initial().cells;
    lemma_first_held(cells);
    assert(cells[0] is None);
    assert(!full(cells));
}

/// After a reset every move is accepted: the board is empty and the game
/// goes on.
pub proof fn lemma_reset_game_accepts_every_move(s: GameState, p: Position)
    requires
        p.in_range(),
    ensures
        s.apply(GameEvent::Reset).move_check(p.index()) == Ok::<(), InvalidGameMoveError>(()),
{
    crate::position::lemma_position_is_its_index(p, p);
}

/// A game that has ended, by a win or by a draw, refuses every move with
/// `GameAlreadyWon` and stays as it is.
pub proof fn lemma_finished_game_refuses_every_move(s: GameState, p: Position)
    requires
        s.status.finished(),
    ensures
        s.move_check(p.index()) == Err::<(), InvalidGameMoveError>(
            InvalidGameMoveError::GameAlreadyWon,
        ),
        s.play(p.index()) == s,
        s.apply(GameEvent::PlayMove(p)) == s,
{
}

/// A move to a taken cell is refused and changes nothing, however the game
/// stands.
pub proof fn lemma_taken_cell_is_refused(s: GameState, p: Position)
    requires
        s.cells[p.index()] is Some,
    ensures
        s.move_check(p.index()) is Err,
        s.play(p.index()) == s,
        s.apply(GameEvent::PlayMove(p)) == s,
{
}

/// While the game goes on, a move to a taken cell is refused with
/// `SpaceOccupied`. (Once the game has ended the reason is `GameAlreadyWon`,
/// as for every other move.)
pub proof fn lemma_taken_cell_in_open_game(s: GameState, p: Position)
    requires
        s.cells[p.index()] is Some,
        !s.status.finished(),
    ensures
        s.move_check(p.index()) == Err::<(), InvalidGameMoveError>(
            InvalidGameMoveError::SpaceOccupied,
        ),
        s.play(p.index()) == s,
{
}

/// An accepted move that does not end the game passes the turn to the other
/// player; one that ends it leaves the turn with the player who moved.
pub proof fn lemma_turn_passes_unless_game_ends(s: GameState, p: Position)
    requires
        s.move_check(p.index()) is Ok,
    ensures
        !s.play(p.index()).status.finished() ==> s.play(p.index()).turn == s.turn.opponent(),
        s.play(p.index()).status.finished() ==> s.play(p.index()).turn == s.turn,
        s.play(p.index()).cells == s.cells.update(p.index(), Some(s.turn)),
{
}

/// Resetting twice is resetting once: either way the game is a new game.
pub proof fn lemma_reset_twice_is_reset_once(s: GameState)
    ensures
        s.apply(GameEvent::Reset).apply(GameEvent::Reset) == s.apply(GameEvent::Reset),
        s.apply(GameEvent::Reset) == GameState::initial(),
{
}

/// Only a reset reopens a game that has ended: a move leaves its status as
/// it is.
pub proof fn lemma_finished_game_stays_finished(s: GameState, event: GameEvent)
    requires
        s.status.finished(),
        event is PlayMove,
    ensures
        s.apply(event).status == s.status,
        s.apply(event) == s,
{
}

/// Events keep the status in step with the board.
pub proof fn lemma_events_keep_consistency(s: GameState, event: GameEvent)
    requires
        s.consistent(),
        event matches GameEvent::PlayMove(p) ==> p.in_range(),
    ensures
        s.apply(event).consistent(),
{
    match event {
        GameEvent::PlayMove(p) => {
            crate::position::lemma_position_is_its_index(p, p);
        },
        GameEvent::Reset => {
            lemma_new_game_is_consistent();
        },
    }
}

/// In a game whose status is in step with its board, every line that is
/// held after an accepted move is held by the player who moved and runs
/// through the cell taken. So a move that wins does so for the player who
/// made it, whichever held line is looked at first.
pub proof fn lemma_winner_is_the_mover(s: GameState, p: Position)
    requires
        s.consistent(),
        p.in_range(),
        s.move_check(p.index()) is Ok,
    ensures
        forall|k: int|
            0 <= k < 8 && #[trigger] line_held(s.play(p.index()).cells, k) ==> {
                let line = WINNING_COMBINATIONS[k];
                &&& s.play(p.index()).cells[line[0] as int] == Some(s.turn)
                &&& line[0] == p.index() || line[1] == p.index() || line[2] == p.index()
            },
        s.play(p.index()).status matches GameStatus::Win { player, line } ==> {
            &&& player == s.turn
            &&& line[0] == p.index() || line[1] == p.index() || line[2] == p.index()
            &&& exists|k: int| 0 <= k < 8 && line == #[trigger] WINNING_COMBINATIONS[k]
        },
{
    crate::position::lemma_position_is_its_index(p, p);
    let c = p.index();
    let after = s.cells.update(c, Some(s.turn));
    lemma_first_held(s.cells);
    lemma_first_held(after);
    assert forall|k: int| 0 <= k < 8 && #[trigger] line_held(after, k) implies {
        let line = WINNING_COMBINATIONS[k];
        &&& after[line[0] as int] == Some(s.turn)
        &&& line[0] == c || line[1] == c || line[2] == c
    } by {
        assert(!line_held(s.cells, k));
    }
    if let Some(k) = first_held_from(after, 0) {
        assert(line_held(after, k));
        let line = WINNING_COMBINATIONS[k];
        assert(status_of(after) matches GameStatus::Win { player, line: l } && l == line);
    }
}

/// A move completes lines and breaks none: a line that was held before a
/// mark went on an empty cell is held after it.
pub proof fn lemma_marks_keep_held_lines(cells: Seq<Option<Player>>, cell: int, player: Player, k: int)
    requires
        cells.len() == 9,
        0 <= cell < 9,
        cells[cell] is None,
        0 <= k < 8,
        line_held(cells, k),
    ensures
        line_held(cells.update(cell, Some(player)), k),
{
}

/// Whoever holds a line on a board whose status is `Win` is named in it: the
/// status names the first held line and the player on it.
pub proof fn lemma_win_names_a_held_line(cells: Seq<Option<Player>>)
    ensures
        status_of(cells) matches GameStatus::Win { player, line } ==> {
            &&& cells[line[0] as int] == Some(player)
            &&& cells[line[1] as int] == Some(player)
            &&& cells[line[2] as int] == Some(player)
        },
        status_of(cells) is Draw ==> full(cells),
        status_of(cells) is Ongoing ==> !full(cells),
        !(status_of(cells) is Win) ==> forall|k: int| 0 <= k < 8 ==> !line_held(cells, k),
{
    lemma_first_held(cells);
}

} // verus!
