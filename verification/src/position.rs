//! Cells of the board by number.

use vstd::prelude::*;

verus! {

/// A cell of the board, counted row by row from the top left: 0 to 8.
///
/// `Position::new` is the only way to make one, so a `Position` never holds
/// an index outside the board.
#[derive(Clone, Copy, Debug)]
pub struct Position(u8);

impl Position {
    /// What every `Position` obeys: its index lies on the board.
    #[verifier::type_invariant]
    pub closed spec fn in_range(self) -> bool {
        self.0 <= 8
    }

    /// The index of the cell.
    pub closed spec fn index(self) -> int {
        self.0 as int
    }

    /// The position of cell `cell`, for `cell` from 0 to 8.
    pub closed spec fn at(cell: int) -> Position {
        Position(cell as u8)
    }

    /// The position of cell `pos`, or `None` when `pos` is off the board.
    pub fn new(pos: u8) -> (r: Option<Self>)
        ensures
            pos <= 8 ==> (r matches Some(p) && p == Position::at(pos as int) && p.in_range()
                && p.index() == pos),
            pos > 8 ==> r is None,
    {
        if pos > 8 {
            return None;
        }
        Some(Self(pos))
    }

    /// The index of the cell, for use with the board array.
    pub fn to_index(&self) -> (i: usize)
        ensures
            i == self.index(),
            i < 9,
    {
        proof {
            use_type_invariant(self);
        }
        self.0 as usize
    }
}

/// A valid position is a cell of the board, and the cell tells the position.
pub proof fn lemma_position_is_its_index(p: Position, q: Position)
    requires
        p.in_range(),
    ensures
        0 <= p.index() < 9,
        p.index() == q.index() ==> p == q,
{
}

/// Every cell of the board has a position.
pub proof fn lemma_every_cell_has_a_position(cell: int)
    requires
        0 <= cell < 9,
    ensures
        Position::at(cell).in_range(),
        Position::at(cell).index() == cell,
{
}

} // verus!
