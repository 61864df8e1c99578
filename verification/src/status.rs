//! How a game stands: going on, drawn, or won.

use crate::player::Player;
use vstd::prelude::*;

verus! {

/// How a game stands.
#[derive(Clone, Copy, PartialEq, Debug)]
pub enum GameStatus {
    /// `player` holds the three cells of `line`.
    Win { player: Player, line: [usize; 3] },
    /// Every cell is taken and nobody holds a line.
    Draw,
    /// The game goes on.
    Ongoing,
}

impl GameStatus {
    /// The winner, if the game was won.
    pub open spec fn victor(self) -> Option<Player> {
        match self {
            GameStatus::Win { player, .. } => Some(player),
            _ => None,
        }
    }

    /// Whether the game has ended, by a win or by a draw.
    pub open spec fn finished(self) -> bool {
        self !is Ongoing
    }

    /// Whether the game has ended, by a win or by a draw.
    pub fn is_over(&self) -> (r: bool)
        ensures
            r == self.finished(),
    {
        match self {
            GameStatus::Ongoing => false,
            _ => true,
        }
    }

    /// Whether `cell` is one of the three cells of the winning line.
    pub fn highlights(&self, cell: usize) -> (r: bool)
        ensures
            r == (self matches GameStatus::Win { line, .. } && (line[0] == cell || line[1] == cell
                || line[2] == cell)),
    {
        match self {
            GameStatus::Win { line, .. } => line[0] == cell || line[1] == cell || line[2] == cell,
            _ => false,
        }
    }
}

} // verus!
