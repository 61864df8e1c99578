//! What a text front end needs: the board as text, and the reading of a
//! line that the player typed.

use crate::decimal::{all_digits, digits_value};
use crate::engine::{GameEngine, GameEvent, GameState, InvalidGameMoveError};
use crate::player::Player;
use crate::position::Position;
use crate::status::GameStatus;
use vstd::prelude::*;

verus! {

/// The mark that stands for a cell: `X`, `O`, or a blank for an empty cell.
pub open spec fn mark_text(cell: Option<Player>) -> Seq<char> {
    match cell {
        Some(Player::X) => "X"@,
        Some(Player::O) => "O"@,
        None => " "@,
    }
}

/// Row `row` of the board: its three marks between bars, and a line end.
pub open spec fn row_text(cells: Seq<Option<Player>>, row: int) -> Seq<char> {
    " "@ + mark_text(cells[3 * row]) + " | "@ + mark_text(cells[3 * row + 1]) + " | "@ + mark_text(
        cells[3 * row + 2],
    ) + " \n"@
}

/// The board: three rows with a rule between them.
pub open spec fn board_text(cells: Seq<Option<Player>>) -> Seq<char> {
    row_text(cells, 0) + "-----------\n"@ + row_text(cells, 1) + "-----------\n"@ + row_text(
        cells,
        2,
    )
}

fn mark(cell: Option<Player>) -> (r: &'static str)
    ensures
        r@ == mark_text(cell),
{
    match cell {
        Some(Player::X) => "X",
        Some(Player::O) => "O",
        None => " ",
    }
}

/// Adds row `row` of the board to `text`.
fn push_row(text: &mut String, engine: &GameEngine, row: usize)
    requires
        row < 3,
    ensures
        final(text)@ == old(text)@ + row_text(engine@.cells, row as int),
{
    let first: usize = 3 * row;
    let ghost cells = engine@.cells;
    let ghost a = mark_text(cells[3 * row]);
    let ghost b = mark_text(cells[3 * row + 1]);
    let ghost c = mark_text(cells[3 * row + 2]);
    text.append(" ");
    text.append(mark(engine.board[first]));
    text.append(" | ");
    text.append(mark(engine.board[first + 1]));
    text.append(" | ");
    text.append(mark(engine.board[first + 2]));
    text.append(" \n");
    assert(text@ == old(text)@ + " "@ + a + " | "@ + b + " | "@ + c + " \n"@);
    assert(old(text)@ + " "@ + a + " | "@ + b + " | "@ + c + " \n"@ =~= old(text)@ + (" "@ + a
        + " | "@ + b + " | "@ + c + " \n"@));
}

/// The board as text, three lines of marks with a rule between them.
pub fn board_as_string(engine: &GameEngine) -> (r: String)
    ensures
        r@ == board_text(engine@.cells),
{
    let mut text = String::new();
    push_row(&mut text, engine, 0);
    text.append("-----------\n");
    push_row(&mut text, engine, 1);
    text.append("-----------\n");
    push_row(&mut text, engine, 2);
    assert(text@ =~= board_text(engine@.cells));
    text
}

/// What to say above the prompt: who won, that nobody did, or whose turn
/// it is.
pub open spec fn headline_text(s: GameState) -> Seq<char> {
    match s.status {
        GameStatus::Win { player, .. } => "Game over! Winner: "@ + player.name_text(),
        GameStatus::Draw => "Game over! It's a draw!"@,
        GameStatus::Ongoing => "Current player: "@ + s.turn.name_text(),
    }
}

/// What to say above the prompt: who won, that nobody did, or whose turn
/// it is.
pub fn headline(engine: &GameEngine) -> (r: String)
    ensures
        r@ == headline_text(engine@),
{
    match engine.status {
        GameStatus::Win { player, .. } => {
            let mut text = String::from_str("Game over! Winner: ");
            text.append(player.name());
            text
        },
        GameStatus::Draw => String::from_str("Game over! It's a draw!"),
        GameStatus::Ongoing => {
            let mut text = String::from_str("Current player: ");
            text.append(engine.current_player.name());
            text
        },
    }
}

/// Why a line of input led to no move.
#[derive(Debug, Clone, Copy, PartialEq, Eq, Structural)]
pub enum InputError {
    /// The line is neither `r` nor a number that fits in a byte.
    NotANumber,
    /// The number names no cell: it is above 8.
    OffBoard,
    /// The engine refuses the move.
    Refused(InvalidGameMoveError),
}

impl InputError {
    /// What to tell the player.
    pub open spec fn message_text(self) -> Seq<char> {
        match self {
            InputError::NotANumber =>
                "Invalid input. Please enter a number between 0 and 8 or 'r' to reset."@,
            InputError::OffBoard => "Invalid position. Please enter a number between 0 and 8."@,
            InputError::Refused(InvalidGameMoveError::GameAlreadyWon) =>
                "Error: The game is already won! Press 'r' to reset."@,
            InputError::Refused(InvalidGameMoveError::SpaceOccupied) =>
                "Error: That space is already occupied. Try another."@,
        }
    }

    /// What to tell the player.
    pub fn message(&self) -> (r: &'static str)
        ensures
            r@ == self.message_text(),
    {
        match self {
            InputError::NotANumber =>
                "Invalid input. Please enter a number between 0 and 8 or 'r' to reset.",
            InputError::OffBoard => "Invalid position. Please enter a number between 0 and 8.",
            InputError::Refused(InvalidGameMoveError::GameAlreadyWon) =>
                "Error: The game is already won! Press 'r' to reset.",
            InputError::Refused(InvalidGameMoveError::SpaceOccupied) =>
                "Error: That space is already occupied. Try another.",
        }
    }
}

/// `text` without the `+` that may stand in front of a number.
pub open spec fn without_sign(text: Seq<char>) -> Seq<char> {
    if text.len() > 0 && text[0] == '+' {
        text.subrange(1, text.len() as int)
    } else {
        text
    }
}

/// The byte that `text` writes in decimal: one or more digits, which may
/// follow a single `+`, with a value of at most 255. Anything else, the
/// empty string and a string with blanks among them, writes no byte.
pub open spec fn decimal_u8(text: Seq<char>) -> Option<u8> {
    let digits = without_sign(text);
    if digits.len() > 0 && all_digits(digits) && digits_value(digits) <= 255 {
        Some(digits_value(digits) as u8)
    } else {
        None
    }
}

/// `str::parse::<u8>`, with the error dropped. The standard library reads an
/// optional `+` and then decimal digits only, and fails on an empty string,
/// on any other character and on a value above 255.
#[verifier::external_body]
fn parse_u8(text: &str) -> (r: Option<u8>)
    ensures
        r == decimal_u8(text@),
{
    text.parse::<u8>().ok()
}

/// What a line of input asks for: `r` asks for a new game, a number from 0
/// to 8 for a move to that cell, provided the engine accepts the move.
pub open spec fn read_event(s: GameState, input: Seq<char>) -> Result<GameEvent, InputError> {
    if input == "r"@ {
        Ok(GameEvent::Reset)
    } else {
        match decimal_u8(input) {
            None => Err(InputError::NotANumber),
            Some(n) => if n > 8 {
                Err(InputError::OffBoard)
            } else {
                match s.move_check(n as int) {
                    Err(e) => Err(InputError::Refused(e)),
                    Ok(_) => Ok(GameEvent::PlayMove(Position::at(n as int))),
                }
            },
        }
    }
}

/// Whether the line asks for a new game: it is the single letter `r`.
pub fn wants_reset(input: &str) -> (r: bool)
    ensures
        r == (input@ == "r"@),
{
    proof {
        reveal_strlit("r");
    }
    let wanted: bool = input.unicode_len() == 1 && input.get_char(0) == 'r';
    assert(wanted ==> input@ =~= "r"@);
    wanted
}

/// Reads a line of input as an event that the engine would accept now.
pub fn parse_event(engine: &GameEngine, input: &str) -> (r: Result<GameEvent, InputError>)
    ensures
        r == read_event(engine@, input@),
{
    if wants_reset(input) {
        return Ok(GameEvent::Reset);
    }
    let number: u8 = match parse_u8(input) {
        Some(n) => n,
        None => {
            return Err(InputError::NotANumber);
        },
    };
    let pos: Position = match Position::new(number) {
        Some(p) => p,
        None => {
            return Err(InputError::OffBoard);
        },
    };
    match engine.validate_move(pos) {
        Err(e) => Err(InputError::Refused(e)),
        Ok(()) => Ok(GameEvent::PlayMove(pos)),
    }
}

/// Reads a line of input and applies what it asks for. A line that asks for
/// nothing the engine accepts leaves the engine as it was.
pub fn handle_input(engine: &mut GameEngine, input: &str) -> (r: Result<(), InputError>)
    ensures
        match read_event(old(engine)@, input@) {
            Ok(event) => r is Ok && final(engine)@ == old(engine)@.apply(event),
            Err(e) => r == Err::<(), InputError>(e) && *final(engine) == *old(engine),
        },
{
    match parse_event(engine, input) {
        Err(e) => Err(e),
        Ok(event) => {
            let _ = engine.handle_event(event);
            Ok(())
        },
    }
}

} // verus!
