//! The two players.

use vstd::prelude::*;

verus! {

/// One of the two sides of a game.
#[derive(Debug, Clone, Copy, PartialEq, Eq, Structural)]
pub enum Player {
    X,
    O,
}

impl Player {
    /// The other side.
    pub open spec fn opponent(self) -> Player {
        match self {
            Player::X => Player::O,
            Player::O => Player::X,
        }
    }

    /// The letter of the player.
    pub open spec fn name_text(self) -> Seq<char> {
        match self {
            Player::X => "X"@,
            Player::O => "O"@,
        }
    }

    /// The letter of the player: `X` or `O`.
    pub fn name(&self) -> (r: &'static str)
        ensures
            r@ == self.name_text(),
    {
        match self {
            Player::X => "X",
            Player::O => "O",
        }
    }

    /// The player whose turn follows this player's turn.
    pub fn next(&self) -> (r: Player)
        ensures
            r == self.opponent(),
    {
        match self {
            Player::X => Player::O,
            Player::O => Player::X,
        }
    }
}

/// Playing twice in a row hands the turn back.
pub proof fn lemma_opponent_is_an_involution(p: Player)
    ensures
        p.opponent() != p,
        p.opponent().opponent() == p,
{
}

} // verus!
