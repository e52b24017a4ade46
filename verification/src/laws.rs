//! What holds of every sequence of turns, proved over the model.

use vstd::prelude::*;
use vstd::arithmetic::div_mod::{lemma_fundamental_div_mod, lemma_mod_bound};
use crate::state::{cell_of, counter_limit, PlayerState, TurnError};

verus! {

/// Turns only move the counter: after `turns` turns the grid is the same and
/// the counter is `turns` further.
pub proof fn lemma_advance_by(state: PlayerState, turns: nat)
    ensures
        state.advance_by(turns) == (PlayerState {
            dimensions: state.dimensions,
            counter: state.counter + turns,
        }),
    decreases turns,
{
    if turns > 0 {
        lemma_advance_by(state.advance(), (turns - 1) as nat);
    }
}

/// A cell names its counter value: on a grid with a width, the column lies
/// within the width, and row times width plus column gives the counter back.
pub proof fn lemma_cell_names_turn(width: nat, turn: nat)
    requires
        width > 0,
    ensures
        cell_of(width, turn).0 < width,
        cell_of(width, turn).1 * width + cell_of(width, turn).0 == turn,
{
    lemma_mod_bound(turn as int, width as int);
    lemma_fundamental_div_mod(turn as int, width as int);
    assert((turn as int / width as int) * width == width * (turn as int / width as int))
        by (nonlinear_arith);
}

/// A state either allows a turn or has exactly one reason to refuse it.
pub proof fn law_move_or_refusal(state: PlayerState)
    ensures
        state.can_move() <==> state.refusal().is_none(),
        state.width() == 0 <==> state.refusal() == Some(TurnError::DivisionByZero),
        state.width() > 0 && state.counter >= counter_limit() <==> state.refusal() == Some(
            TurnError::CounterOverflow,
        ),
{
}

/// Counting turns from zero, the turn number `k` after creation with the
/// counter at `start` yields column `(start + k) % width` and row
/// `(start + k) / width`, as long as the grid has a width and the counter
/// stays below its limit. Every turn up to that one can be taken.
pub proof fn law_kth_move(dimensions: (nat, nat), start: nat, k: nat)
    requires
        dimensions.0 > 0,
        start + k < counter_limit(),
    ensures
        forall|j: nat| j <= k ==> (#[trigger] PlayerState::initial(dimensions, start).advance_by(j)).can_move(),
        PlayerState::initial(dimensions, start).advance_by(k).next_move() == (
            (start + k) as nat % dimensions.0,
            (start + k) as nat / dimensions.0,
        ),
{
    let first = PlayerState::initial(dimensions, start);
    assert forall|j: nat| j <= k implies (#[trigger] first.advance_by(j)).can_move() by {
        lemma_advance_by(first, j);
    }
    lemma_advance_by(first, k);
}

/// A turn moves the counter by exactly one and leaves the grid alone.
pub proof fn law_counter_steps_by_one(state: PlayerState)
    ensures
        state.advance().counter == state.counter + 1,
        state.advance().dimensions == state.dimensions,
        state.advance() == state.advance_by(1),
{
    reveal_with_fuel(PlayerState::advance_by, 2);
}

/// The column of every move lies within the grid's width.
pub proof fn law_move_within_width(state: PlayerState)
    requires
        state.width() > 0,
    ensures
        state.next_move().0 < state.width(),
{
    lemma_cell_names_turn(state.width(), state.counter);
}

/// Two different counter values never stand for the same cell.
pub proof fn law_distinct_turns_distinct_cells(width: nat, a: nat, b: nat)
    requires
        width > 0,
        a != b,
    ensures
        cell_of(width, a) != cell_of(width, b),
{
    lemma_cell_names_turn(width, a);
    lemma_cell_names_turn(width, b);
}

/// No move comes twice: out of one state, turns with different numbers yield
/// different cells.
pub proof fn law_moves_never_repeat(state: PlayerState, j: nat, k: nat)
    requires
        state.width() > 0,
        j != k,
    ensures
        state.advance_by(j).next_move() != state.advance_by(k).next_move(),
{
    lemma_advance_by(state, j);
    lemma_advance_by(state, k);
    law_distinct_turns_distinct_cells(state.width(), state.counter + j, state.counter + k);
}

} // verus!
