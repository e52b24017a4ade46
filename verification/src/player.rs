//! The player itself: two stored numbers and the turn operation.

use vstd::prelude::*;
use crate::state::{PlayerState, TurnError};

verus! {

/// A player on a shared grid. It holds the grid's dimensions, fixed at
/// creation, and the number of its next turn.
#[derive(Debug, Clone, Copy, PartialEq, Eq)]
pub struct Player {
    dimensions: (u32, u32),
    next_turn: u32,
}

impl View for Player {
    type V = PlayerState;

    closed spec fn view(&self) -> PlayerState {
        PlayerState {
            dimensions: (self.dimensions.0 as nat, self.dimensions.1 as nat),
            counter: self.next_turn as nat,
        }
    }
}

/// A pair of machine integers as a pair of natural numbers.
pub open spec fn as_nats(pair: (u32, u32)) -> (nat, nat) {
    (pair.0 as nat, pair.1 as nat)
}

impl Player {
    /// Creates a player for a grid of the given `(width, height)` whose first
    /// turn has the number `start`. Nothing is validated: a grid without
    /// width is accepted here and refused when a turn is asked for.
    pub fn new(dimensions: (u32, u32), start: u32) -> (player: Self)
        ensures
            player@ == PlayerState::initial(as_nats(dimensions), start as nat),
    {
        Self { dimensions, next_turn: start }
    }

    /// The `(width, height)` of the grid.
    pub fn dimensions(&self) -> (dimensions: (u32, u32))
        ensures
            as_nats(dimensions) == self@.dimensions,
    {
        self.dimensions
    }

    /// The number of the next turn.
    pub fn next_turn(&self) -> (turn: u32)
        ensures
            turn as nat == self@.counter,
    {
        self.next_turn
    }

    /// Takes one turn: returns the cell `(x, y)` that the counter stands for
    /// and advances the counter by one. The result is always `Some`.
    ///
    /// The caller sees to it that the grid has a width and that the counter
    /// is below its limit; `try_your_turn` tests both.
    pub fn your_turn(&mut self) -> (cell: Option<(u32, u32)>)
        requires
            old(self)@.can_move(),
        ensures
            final(self)@ == old(self)@.advance(),
            final(self)@.counter == old(self)@.counter + 1,
            final(self)@.dimensions == old(self)@.dimensions,
            cell matches Some(xy) && as_nats(xy) == old(self)@.next_move(),
            cell matches Some(xy) && xy.0 < old(self)@.width(),
    {
        let turn: u32 = self.next_turn;
        self.next_turn = turn + 1;
        Some((turn % self.dimensions.0, turn / self.dimensions.0))
    }

    /// Takes one turn if one can be taken, and says why not otherwise.
    ///
    /// On a grid without width the answer is `DivisionByZero`, whatever the
    /// counter holds; with the counter at its limit it is `CounterOverflow`.
    /// A refused turn leaves the player as it was.
    pub fn try_your_turn(&mut self) -> (outcome: Result<(u32, u32), TurnError>)
        ensures
            outcome.is_ok() <==> old(self)@.can_move(),
            old(self)@.width() == 0 ==> outcome == Err::<(u32, u32), TurnError>(
                TurnError::DivisionByZero,
            ),
            match outcome {
                Ok(xy) => {
                    &&& final(self)@ == old(self)@.advance()
                    &&& as_nats(xy) == old(self)@.next_move()
                    &&& xy.0 < old(self)@.width()
                },
                Err(reason) => {
                    &&& old(self)@.refusal() == Some(reason)
                    &&& final(self)@ == old(self)@
                },
            },
    {
        if self.dimensions.0 == 0 {
            Err(TurnError::DivisionByZero)
        } else if self.next_turn == u32::MAX {
            Err(TurnError::CounterOverflow)
        } else {
            let cell = self.your_turn();
            Ok(cell.unwrap())
        }
    }
}

} // verus!
