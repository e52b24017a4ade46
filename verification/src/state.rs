//! The mathematical model of a player: what a turn yields and how it moves
//! the counter, stated over natural numbers.

use vstd::prelude::*;

verus! {

/// The largest value the stored counter can take.
pub open spec fn counter_limit() -> nat {
    0xffff_ffff
}

/// The cell that the counter value `turn` stands for on a grid `width` cells
/// wide: column first, then row. The cells are numbered row by row.
pub open spec fn cell_of(width: nat, turn: nat) -> (nat, nat)
    recommends
        width > 0,
{
    (turn % width, turn / width)
}

/// What a player is: the grid it plays on and the number of its next turn.
pub struct PlayerState {
    /// Width and height of the grid, in cells.
    pub dimensions: (nat, nat),
    /// The number of the next turn.
    pub counter: nat,
}

/// Why a turn cannot be taken.
#[derive(Debug, Clone, Copy, PartialEq, Eq, Structural)]
pub enum TurnError {
    /// The grid is zero cells wide, so no counter value names a cell.
    DivisionByZero,
    /// The counter stands at its largest value and cannot advance.
    CounterOverflow,
}

impl PlayerState {
    /// The state right after creation.
    pub open spec fn initial(dimensions: (nat, nat), start: nat) -> PlayerState {
        PlayerState { dimensions, counter: start }
    }

    /// The width of the grid.
    pub open spec fn width(self) -> nat {
        self.dimensions.0
    }

    /// Whether a turn can be taken in this state: the grid has a width and
    /// the counter has room to advance.
    pub open spec fn can_move(self) -> bool {
        self.width() > 0 && self.counter < counter_limit()
    }

    /// The reason for which no turn can be taken in this state, if there is
    /// one. A grid without width is reported before a counter at its limit.
    pub open spec fn refusal(self) -> Option<TurnError> {
        if self.width() == 0 {
            Some(TurnError::DivisionByZero)
        } else if self.counter >= counter_limit() {
            Some(TurnError::CounterOverflow)
        } else {
            None
        }
    }

    /// The cell that the next turn yields.
    pub open spec fn next_move(self) -> (nat, nat)
        recommends
            self.width() > 0,
    {
        cell_of(self.width(), self.counter)
    }

    /// The state after one turn: the same grid, the counter one further.
    pub open spec fn advance(self) -> PlayerState {
        PlayerState { dimensions: self.dimensions, counter: self.counter + 1 }
    }

    /// The state after `turns` turns.
    pub open spec fn advance_by(self, turns: nat) -> PlayerState
        decreases turns,
    {
        if turns == 0 {
            self
        } else {
            self.advance().advance_by((turns - 1) as nat)
        }
    }
}

} // verus!
