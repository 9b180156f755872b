use vstd::prelude::*;
use vstd::rwlock::RwLock;
use vstd::rwlock::RwLockPredicate;
use crate::grid::Grid;
use crate::state::SimulationState;

verus! {

/// The lock invariant on the simulation state: whatever generation is stored,
/// it is a complete, well-formed grid. Writers may only release the lock on a
/// state satisfying this, so readers never observe a grid mid-mutation.
pub struct SimInv {}

impl RwLockPredicate<SimulationState> for SimInv {
    open spec fn inv(self, v: SimulationState) -> bool {
        v.wf()
    }
}

/// The display surface's client area. Width and height travel together in one
/// value, written and read under a single lock acquisition, so no consumer
/// can see a half-old, half-new pair after a resize.
#[derive(Clone, Copy, Debug, PartialEq, Eq, Structural)]
pub struct SurfaceSize {
    pub width: i32,
    pub height: i32,
}

impl SurfaceSize {
    /// A client area never has negative extents.
    pub open spec fn wf(&self) -> bool {
        self.width >= 0 && self.height >= 0
    }
}

/// The lock invariant on the display-surface state.
pub struct SurfaceInv {}

impl RwLockPredicate<SurfaceSize> for SurfaceInv {
    open spec fn inv(self, v: SurfaceSize) -> bool {
        v.wf()
    }
}

/// The concurrency boundary between the simulation-clock thread and the
/// display-event thread. Each logically-atomic group of fields sits behind
/// its own mutual-exclusion lock: the simulation state behind one, the
/// surface rectangle behind another. Every acquisition observes the group's
/// invariant in full.
pub struct Coordinator {
    sim: RwLock<SimulationState, SimInv>,
    surface: RwLock<SurfaceSize, SurfaceInv>,
}

impl Coordinator {
    /// Both locks guard their intended invariants.
    pub closed spec fn wf(&self) -> bool {
        &&& self.sim.pred() == (SimInv {  })
        &&& self.surface.pred() == (SurfaceInv {  })
    }

    /// Whether the simulation lock can hold state `s`: writers may release
    /// the exclusive region only on such a state, and every reader is handed
    /// one.
    pub closed spec fn can_hold_sim(&self, s: SimulationState) -> bool {
        self.sim.inv(s)
    }

    /// Whether the surface lock can hold size `s`.
    pub closed spec fn can_hold_surface(&self, s: SurfaceSize) -> bool {
        self.surface.inv(s)
    }

    /// Take ownership of the initial state and surface size and share them
    /// behind the two locks.
    pub fn new(state: SimulationState, surface: SurfaceSize) -> (c: Coordinator)
        requires
            state.wf(),
            surface.wf(),
        ensures
            c.wf(),
    {
        Coordinator {
            sim: RwLock::new(state, Ghost(SimInv {  })),
            surface: RwLock::new(surface, Ghost(SurfaceInv {  })),
        }
    }

    /// One tick of the simulation clock: under the exclusive region, advance
    /// the grid one generation if the simulation is running; report whether
    /// it was running, so the clock loop stops at the first tick boundary
    /// after a stop request. The generation transition completes, and the
    /// lock invariant is re-established, before the tick returns and any
    /// repaint can be signalled.
    pub fn tick(&self) -> (was_active: bool)
        requires
            self.wf(),
    {
        let (mut state, handle) = self.sim.acquire_write();
        let was_active = state.should_run();
        if was_active {
            state.advance();
        }
        handle.release_write(state);
        was_active
    }

    /// Request a cooperative stop of the simulation clock.
    pub fn stop(&self)
        requires
            self.wf(),
    {
        let (mut state, handle) = self.sim.acquire_write();
        state.stop();
        handle.release_write(state);
    }

    /// Whether the simulation is currently running.
    pub fn is_active(&self) -> (b: bool)
        requires
            self.wf(),
    {
        let read = self.sim.acquire_read();
        let b = read.borrow().is_active;
        read.release_read();
        b
    }

    /// Read the current grid for rendering: a copy taken under the shared
    /// region, so it is a complete generation — the one most recently
    /// computed at the time of the read — never a torn intermediate.
    pub fn snapshot_grid(&self) -> (g: Grid)
        requires
            self.wf(),
        ensures
            g.wf(),
    {
        let read = self.sim.acquire_read();
        let g = read.borrow().grid.snapshot();
        read.release_read();
        g
    }

    /// Record a resize: both extents are replaced in one exclusive
    /// acquisition.
    pub fn set_surface_size(&self, size: SurfaceSize)
        requires
            self.wf(),
            size.wf(),
    {
        let (_, handle) = self.surface.acquire_write();
        handle.release_write(size);
    }

    /// Read the client area: both extents come from one acquisition, so the
    /// pair is never a torn combination of an old width and a new height.
    pub fn surface_size(&self) -> (s: SurfaceSize)
        requires
            self.wf(),
        ensures
            s.wf(),
    {
        let read = self.surface.acquire_read();
        let s = *read.borrow();
        read.release_read();
        s
    }
}

/// Mutual exclusion never exposes a torn value: the simulation lock can hold
/// exactly the well-formed states — every complete generation, and nothing
/// else — and the surface lock exactly the well-formed sizes. However the
/// clock thread's exclusive writes interleave with the display thread's
/// reads, what a reader observes satisfies the group's invariant in full.
pub proof fn lemma_locks_hold_only_complete_values(
    c: &Coordinator,
    state: SimulationState,
    size: SurfaceSize,
)
    requires
        c.wf(),
    ensures
        c.can_hold_sim(state) <==> state.wf(),
        c.can_hold_surface(size) <==> size.wf(),
{
}

} // verus!
