//! A generic finite-state-machine core: a closed, statically checked
//! transition relation over a finite set of state identities, and the
//! transition result one advance of the machine produces.
//!
//! The relation is fixed at definition time and carried entirely in
//! specifications: building a `Transition` toward a successor is only
//! possible where the relation admits the edge, so an illegal progression
//! is unrepresentable rather than defensively checked at run time.

use vstd::prelude::*;

verus! {

/// A finite set of state identities together with its closed transition
/// relation. Implementors fix the relation once; every edge must strictly
/// reduce the number of advances still possible, which bounds every run of
/// the machine by the graph's longest path.
pub trait TransitionGraph: Sized + Copy {
    /// The allowed-pairs relation: the machine may move from `self` to
    /// `next` exactly when this holds.
    spec fn allowed(self, next: Self) -> bool;

    /// How many advances are still possible from this state. A terminal
    /// state has none left.
    spec fn steps_left(self) -> nat;

    /// Every allowed edge strictly decreases `steps_left`: the graph has
    /// no cycles and every path is finite.
    proof fn edges_decrease(self, next: Self)
        requires
            self.allowed(next),
        ensures
            next.steps_left() < self.steps_left(),
    ;
}

/// A state with no outgoing edge in the relation.
pub open spec fn terminal<S: TransitionGraph>(s: S) -> bool {
    forall|n: S| !s.allowed(n)
}

/// The successor state one advance hands to the engine.
pub struct StateHolder<S> {
    pub state: S,
}

/// What one advance of the machine yields: either the successor state to
/// move to, or the machine's completion report, consumed exactly once.
pub enum Transition<S, E> {
    /// Move to a new state.
    Next(StateHolder<S>),
    /// Stop executing the state machine and report the result of the run.
    Complete(Result<(), E>),
}

impl<S: TransitionGraph, E> Transition<S, E> {
    /// Build the transition from `_from` to `to`. The edge must be in the
    /// relation; the check is static, not a run-time test.
    pub fn next(_from: S, to: S) -> (t: Transition<S, E>)
        requires
            _from.allowed(to),
        ensures
            t matches Transition::Next(h) && h.state == to,
    {
        Transition::Next(StateHolder { state: to })
    }
}

} // verus!
