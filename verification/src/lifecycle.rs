//! The Lifecycle Controller: owns the graph's running state and sequences it
//! — built, then running, then stopped — so that the running state is
//! released on every exit path from the Event Merge Loop, error exits
//! included. Stopping releases all branch resources; a branch never outlives
//! the graph.

use vstd::prelude::*;

verus! {

/// The graph's lifecycle phase.
#[derive(Clone, Copy, PartialEq, Eq, Structural, Debug)]
pub enum GraphPhase {
    /// Constructed and wired, not yet running.
    Built,
    /// Running; packets may flow and branches may be attached.
    Running,
    /// Fully stopped; every branch's resources are released. Terminal.
    Stopped,
}

/// Explicit owner of the graph's lifecycle state, passed by handle to the
/// router and the merge loop rather than kept as ambient global state.
pub struct Lifecycle {
    phase: GraphPhase,
}

impl Lifecycle {
    pub closed spec fn phase_of(self) -> GraphPhase {
        self.phase
    }

    /// A controller for a freshly constructed, wired graph.
    pub fn new() -> (r: Lifecycle)
        ensures
            r.phase_of() == GraphPhase::Built,
    {
        Lifecycle { phase: GraphPhase::Built }
    }

    pub fn phase(&self) -> (r: GraphPhase)
        ensures
            r == self.phase_of(),
    {
        self.phase
    }

    /// Sets the graph running, once, before the merge loop starts.
    pub fn start(&mut self)
        requires
            old(self).phase_of() == GraphPhase::Built,
        ensures
            final (self).phase_of() == GraphPhase::Running,
    {
        self.phase = GraphPhase::Running;
    }

    /// Releases the running state. Taken on every exit path from the loop,
    /// normal and error alike, so it accepts any phase; stopping is
    /// idempotent and terminal.
    pub fn shutdown(&mut self)
        ensures
            final (self).phase_of() == GraphPhase::Stopped,
    {
        self.phase = GraphPhase::Stopped;
    }
}

} // verus!
