//! When a running simulation advances.
//!
//! The simulation runs while the run input is held, one generation at a
//! time, and no faster than one generation in `STEP_INTERVAL_MILLIS`. Time
//! is measured since the last step. Nothing is saved up while the simulation
//! stands still: however long the pause, one generation is due after it.

use vstd::prelude::*;
use crate::grid::Grid;
use crate::rules::next_generation;

verus! {

/// The least time between two steps, in milliseconds.
pub const STEP_INTERVAL_MILLIS: u128 = 100;

/// Whether a step is due: the run input is held and the interval has gone by
/// since the last step.
pub open spec fn due(run_held: bool, elapsed_millis: u128) -> bool {
    run_held && elapsed_millis >= STEP_INTERVAL_MILLIS
}

/// Whether a step is due.
pub fn step_due(run_held: bool, elapsed_millis: u128) -> (is_due: bool)
    ensures
        is_due == due(run_held, elapsed_millis),
{
    run_held && elapsed_millis >= STEP_INTERVAL_MILLIS
}

/// Advances the grid by one generation if a step is due, and by exactly one
/// however much time has gone by. Returns whether it did: the caller then
/// starts measuring anew.
pub fn advance_if_due(grid: &mut Grid, run_held: bool, elapsed_millis: u128) -> (stepped: bool)
    ensures
        stepped == due(run_held, elapsed_millis),
        stepped ==> final(grid)@ == next_generation(old(grid)@) && final(grid).scratch() == old(
            grid,
        )@,
        !stepped ==> final(grid)@ == old(grid)@ && final(grid).scratch() == old(grid).scratch(),
{
    if step_due(run_held, elapsed_millis) {
        grid.update();
        true
    } else {
        false
    }
}

} // verus!
