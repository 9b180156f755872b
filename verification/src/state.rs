use vstd::prelude::*;
use crate::grid::Grid;

verus! {

/// The authoritative simulation state: the current grid, a running flag the
/// clock loop consults once per tick, and a terminal flag. All cross-thread
/// access goes through the coordinator's exclusive region.
pub struct SimulationState {
    pub grid: Grid,
    pub is_active: bool,
    pub is_over: bool,
}

impl SimulationState {
    /// The state is well-formed exactly when its grid is.
    pub open spec fn wf(&self) -> bool {
        self.grid.wf()
    }

    /// Start a simulation over `grid`: running, not over.
    pub fn new(grid: Grid) -> (s: SimulationState)
        requires
            grid.wf(),
        ensures
            s.wf(),
            s.grid == grid,
            s.is_active,
            !s.is_over,
    {
        SimulationState { grid, is_active: true, is_over: false }
    }

    /// Replace the grid wholesale by its next generation; the flags are
    /// untouched. The new matrix is computed entirely from the old one before
    /// the old one is let go.
    pub fn advance(&mut self)
        requires
            old(self).wf(),
        ensures
            final(self).wf(),
            final(self).grid.is_next_of(&old(self).grid),
            final(self).is_active == old(self).is_active,
            final(self).is_over == old(self).is_over,
    {
        let next = self.grid.next_generation();
        self.grid = next;
    }

    /// Request a cooperative stop: the clock loop exits at its next tick
    /// boundary. The grid and the terminal flag are untouched.
    pub fn stop(&mut self)
        ensures
            !final(self).is_active,
            final(self).grid == old(self).grid,
            final(self).is_over == old(self).is_over,
    {
        self.is_active = false;
    }

    /// Mark the simulation as over. The grid and the running flag are
    /// untouched.
    pub fn set_over(&mut self)
        ensures
            final(self).is_over,
            final(self).grid == old(self).grid,
            final(self).is_active == old(self).is_active,
    {
        self.is_over = true;
    }

    /// Whether the clock loop should run another tick: exactly the running
    /// flag, so the loop stops at the first tick boundary after a stop
    /// request.
    pub fn should_run(&self) -> (b: bool)
        ensures
            b == self.is_active,
    {
        self.is_active
    }
}

} // verus!
