//! The board, the lines that win, and how a game with a given board stands.

use crate::player::Player;
use crate::status::GameStatus;
use vstd::prelude::*;

verus! {

/// The nine cells, row by row. Cell `i` lies in row `i / 3`, column `i % 3`.
pub type Board = [Option<Player>; 9];

/// The eight lines that win: rows, then columns, then the two diagonals.
pub const WINNING_COMBINATIONS: [[usize; 3]; 8] = [
    [0, 1, 2],
    [3, 4, 5],
    [6, 7, 8],
    [0, 3, 6],
    [1, 4, 7],
    [2, 5, 8],
    [0, 4, 8],
    [2, 4, 6],
];

/// Whether one player holds all three cells of winning line `k`.
pub open spec fn line_held(cells: Seq<Option<Player>>, k: int) -> bool {
    let line = WINNING_COMBINATIONS[k];
    &&& cells[line[0] as int] is Some
    &&& cells[line[0] as int] == cells[line[1] as int]
    &&& cells[line[1] as int] == cells[line[2] as int]
}

/// The first held line among the lines `from`, `from + 1`, ...
pub open spec fn first_held_from(cells: Seq<Option<Player>>, from: int) -> Option<int>
    decreases 8 - from,
{
    if from < 0 || from >= 8 {
        None
    } else if line_held(cells, from) {
        Some(from)
    } else {
        first_held_from(cells, from + 1)
    }
}

/// The first held line in the order of `WINNING_COMBINATIONS`.
pub open spec fn first_held(cells: Seq<Option<Player>>) -> Option<int> {
    first_held_from(cells, 0)
}

/// Whether no cell is empty.
pub open spec fn full(cells: Seq<Option<Player>>) -> bool {
    forall|i: int| 0 <= i < cells.len() ==> cells[i] is Some
}

/// How a game with these cells stands: won on the first held line, drawn
/// when the board is full and no line is held, going on otherwise.
pub open spec fn status_of(cells: Seq<Option<Player>>) -> GameStatus {
    match first_held(cells) {
        Some(k) => GameStatus::Win {
            player: cells[WINNING_COMBINATIONS[k][0] as int]->0,
            line: WINNING_COMBINATIONS[k],
        },
        None => if full(cells) {
            GameStatus::Draw
        } else {
            GameStatus::Ongoing
        },
    }
}

/// `first_held_from` finds the least held line that is not below `from`.
pub proof fn lemma_first_held_from(cells: Seq<Option<Player>>, from: int)
    requires
        0 <= from <= 8,
    ensures
        match first_held_from(cells, from) {
            Some(k) => from <= k < 8 && line_held(cells, k) && forall|j: int|
                from <= j < k ==> !line_held(cells, j),
            None => forall|j: int| from <= j < 8 ==> !line_held(cells, j),
        },
    decreases 8 - from,
{
    if from < 8 && !line_held(cells, from) {
        lemma_first_held_from(cells, from + 1);
    }
}

/// `first_held` is the least held line, and `None` when no line is held.
pub proof fn lemma_first_held(cells: Seq<Option<Player>>)
    ensures
        match first_held(cells) {
            Some(k) => 0 <= k < 8 && line_held(cells, k) && forall|j: int|
                0 <= j < k ==> !line_held(cells, j),
            None => forall|j: int| 0 <= j < 8 ==> !line_held(cells, j),
        },
{
    lemma_first_held_from(cells, 0);
}

/// The first line of `WINNING_COMBINATIONS` that one player holds.
pub fn winning_line(board: &Board) -> (r: Option<[usize; 3]>)
    ensures
        r == match first_held(board@) {
            Some(k) => Some(WINNING_COMBINATIONS[k]),
            None => None,
        },
{
    let mut k: usize = 0;
    while k < 8
        invariant
            k <= 8,
            first_held(board@) == first_held_from(board@, k as int),
        decreases 8 - k,
    {
        let line: [usize; 3] = WINNING_COMBINATIONS[k];
        let first: Option<Player> = board[line[0]];
        if first.is_some() && first == board[line[1]] && board[line[1]] == board[line[2]] {
            return Some(line);
        }
        k += 1;
    }
    None
}

/// Whether no cell of the board is empty.
pub fn is_full(board: &Board) -> (r: bool)
    ensures
        r == full(board@),
{
    let mut i: usize = 0;
    while i < 9
        invariant
            i <= 9,
            forall|j: int| 0 <= j < i ==> board@[j] is Some,
        decreases 9 - i,
    {
        if board[i].is_none() {
            return false;
        }
        i += 1;
    }
    true
}

} // verus!
