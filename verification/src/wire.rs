//! The state of a game as JSON text, and back.
//!
//! The text is one object with the keys `board`, `currentPlayer` and
//! `status`, in that order and without blanks:
//!
//! ```text
//! {"board":[null,"X","O",null,null,null,null,null,null],"currentPlayer":"X","status":{"type":"Ongoing"}}
//! ```
//!
//! A cell is `null`, `"X"` or `"O"`. The status is `{"type":"Ongoing"}`,
//! `{"type":"Draw"}` or
//! `{"type":"Win","value":{"player":"X","line":[0,1,2]}}`.

use crate::decimal::{decimal_text, digit_char};
use crate::engine::{GameEngine, GameState};
use crate::player::Player;
use crate::scan::{lemma_scan_reads_what_was_written, scan_game};
use crate::status::GameStatus;
use vstd::prelude::*;

verus! {

/// A player as JSON: `"X"` or `"O"`.
pub open spec fn player_json(player: Player) -> Seq<char> {
    match player {
        Player::X => "\"X\""@,
        Player::O => "\"O\""@,
    }
}

/// A cell as JSON: `null` when empty, else the player on it.
pub open spec fn cell_json(cell: Option<Player>) -> Seq<char> {
    match cell {
        None => "null"@,
        Some(player) => player_json(player),
    }
}

/// The cells as JSON, each followed by a comma but the last, which is
/// followed by the closing bracket.
pub open spec fn cells_json(cells: Seq<Option<Player>>) -> Seq<char>
    decreases cells.len(),
{
    if cells.len() == 0 {
        Seq::empty()
    } else if cells.len() == 1 {
        cell_json(cells[0]) + "]"@
    } else {
        cell_json(cells[0]) + ","@ + cells_json(cells.skip(1))
    }
}

/// A winning line as JSON: its three cells in brackets.
pub open spec fn line_json(line: [usize; 3]) -> Seq<char> {
    "["@ + decimal_text(line[0] as nat) + ","@ + decimal_text(line[1] as nat) + ","@
        + decimal_text(line[2] as nat) + "]"@
}

/// A status as JSON: an object with its `type`, and for a win its `value`.
pub open spec fn status_json(status: GameStatus) -> Seq<char> {
    match status {
        GameStatus::Ongoing => "{\"type\":\"Ongoing\"}"@,
        GameStatus::Draw => "{\"type\":\"Draw\"}"@,
        GameStatus::Win { player, line } => "{\"type\":\"Win\",\"value\":{\"player\":"@
            + player_json(player) + ",\"line\":"@ + line_json(line) + "}}"@,
    }
}

/// A game as JSON.
pub open spec fn state_json(s: GameState) -> Seq<char> {
    "{\"board\":["@ + cells_json(s.cells) + ",\"currentPlayer\":"@ + player_json(s.turn)
        + ",\"status\":"@ + status_json(s.status) + "}"@
}

fn digit_str(d: usize) -> (r: &'static str)
    requires
        d < 10,
    ensures
        r@ == seq![digit_char(d as int)],
{
    proof {
        reveal_strlit("0");
        reveal_strlit("1");
        reveal_strlit("2");
        reveal_strlit("3");
        reveal_strlit("4");
        reveal_strlit("5");
        reveal_strlit("6");
        reveal_strlit("7");
        reveal_strlit("8");
        reveal_strlit("9");
    }
    let r: &'static str = match d {
        0 => "0",
        1 => "1",
        2 => "2",
        3 => "3",
        4 => "4",
        5 => "5",
        6 => "6",
        7 => "7",
        8 => "8",
        _ => "9",
    };
    assert(r@ =~= seq![digit_char(d as int)]);
    r
}

fn push_decimal(text: &mut String, n: usize)
    ensures
        final(text)@ == old(text)@ + decimal_text(n as nat),
    decreases n,
{
    if n >= 10 {
        push_decimal(text, n / 10);
    }
    text.append(digit_str(n % 10));
    assert(text@ =~= old(text)@ + decimal_text(n as nat));
}

fn player_str(player: Player) -> (r: &'static str)
    ensures
        r@ == player_json(player),
{
    match player {
        Player::X => "\"X\"",
        Player::O => "\"O\"",
    }
}

fn cell_str(cell: Option<Player>) -> (r: &'static str)
    ensures
        r@ == cell_json(cell),
{
    match cell {
        None => "null",
        Some(player) => player_str(player),
    }
}

fn push_cells(text: &mut String, engine: &GameEngine)
    ensures
        final(text)@ == old(text)@ + cells_json(engine@.cells),
{
    let ghost cells = engine@.cells;
    let mut i: usize = 0;
    assert(cells.skip(0) =~= cells);
    while i < 9
        invariant
            i <= 9,
            cells == engine@.cells,
            cells.len() == 9,
            text@ + cells_json(cells.skip(i as int)) == old(text)@ + cells_json(cells),
        decreases 9 - i,
    {
        let ghost before = text@;
        let ghost rest = cells.skip(i as int);
        text.append(cell_str(engine.board[i]));
        if i == 8 {
            text.append("]");
        } else {
            text.append(",");
        }
        proof {
            assert(rest[0] == cells[i as int]);
            assert(rest.skip(1) =~= cells.skip(i + 1));
            assert(rest.len() == 9 - i);
            if i == 8 {
                assert(cells_json(rest.skip(1)) =~= Seq::empty());
            }
            assert(text@ + cells_json(rest.skip(1)) =~= before + cells_json(rest));
        }
        i += 1;
    }
    assert(cells_json(cells.skip(9)) =~= Seq::empty());
    assert(text@ =~= text@ + cells_json(cells.skip(9)));
}

fn push_status(text: &mut String, status: &GameStatus)
    ensures
        final(text)@ == old(text)@ + status_json(*status),
{
    match status {
        GameStatus::Ongoing => {
            text.append("{\"type\":\"Ongoing\"}");
        },
        GameStatus::Draw => {
            text.append("{\"type\":\"Draw\"}");
        },
        GameStatus::Win { player, line } => {
            text.append("{\"type\":\"Win\",\"value\":{\"player\":");
            text.append(player_str(*player));
            text.append(",\"line\":");
            let ghost before = text@;
            text.append("[");
            push_decimal(text, line[0]);
            text.append(",");
            push_decimal(text, line[1]);
            text.append(",");
            push_decimal(text, line[2]);
            text.append("]");
            assert(text@ =~= before + line_json(*line));
            text.append("}}");
            assert(text@ =~= old(text)@ + status_json(*status));
        },
    }
}

/// Whether `text` is the JSON of the game `s` with its nine cells.
pub open spec fn writes(s: GameState, text: Seq<char>) -> bool {
    s.cells.len() == 9 && state_json(s) == text
}

/// The game that `text` is the JSON of, if it is that of any.
pub open spec fn json_state(text: Seq<char>) -> Option<GameState> {
    if exists|s: GameState| writes(s, text) {
        Some(choose|s: GameState| writes(s, text))
    } else {
        None
    }
}

/// No two games have the same JSON.
pub proof fn lemma_json_tells_state(a: GameState, b: GameState)
    requires
        a.cells.len() == 9,
        b.cells.len() == 9,
        state_json(a) == state_json(b),
    ensures
        a == b,
{
    lemma_scan_reads_what_was_written(a);
    lemma_scan_reads_what_was_written(b);
}

/// Writing a game, reading the text and writing what was read gives the
/// text that was written first: reading gives back the game itself.
pub proof fn lemma_json_round_trip(s: GameState)
    requires
        s.cells.len() == 9,
    ensures
        json_state(state_json(s)) == Some(s),
        state_json(json_state(state_json(s))->0) == state_json(s),
{
    assert(writes(s, state_json(s)));
    let read = choose|r: GameState| writes(r, state_json(s));
    lemma_json_tells_state(read, s);
}

/// A text that is the JSON of a game is written again letter for letter
/// when the game it gives is written.
pub proof fn lemma_json_is_stable(text: Seq<char>)
    requires
        json_state(text) is Some,
    ensures
        state_json(json_state(text)->0) == text,
        json_state(text)->0.cells.len() == 9,
{
}

impl GameEngine {
    /// The game that `text` is the JSON of. Only the text that `to_json`
    /// writes is taken: no blanks, no other order of keys, no zeros before a
    /// number.
    pub fn from_json(text: &str) -> (r: Option<GameEngine>)
        ensures
            match r {
                Some(engine) => json_state(text@) == Some(engine@),
                None => json_state(text@) is None,
            },
    {
        let found: Option<GameEngine> = match scan_game(text) {
            Some(engine) => {
                if engine.to_json() == String::from_str(text) {
                    Some(engine)
                } else {
                    None
                }
            },
            None => None,
        };
        proof {
            match found {
                Some(engine) => {
                    assert(writes(engine@, text@));
                    lemma_json_tells_state(json_state(text@)->0, engine@);
                },
                None => {
                    if exists|s: GameState| writes(s, text@) {
                        let s = choose|s: GameState| writes(s, text@);
                        lemma_scan_reads_what_was_written(s);
                    }
                },
            }
        }
        found
    }

    /// The game as JSON text.
    pub fn to_json(&self) -> (r: String)
        ensures
            r@ == state_json(self@),
            json_state(r@) == Some(self@),
    {
        proof {
            lemma_json_round_trip(self@);
        }
        let mut text = String::from_str("{\"board\":[");
        push_cells(&mut text, self);
        text.append(",\"currentPlayer\":");
        text.append(player_str(self.current_player));
        text.append(",\"status\":");
        push_status(&mut text, &self.status);
        text.append("}");
        text
    }
}

} // verus!
