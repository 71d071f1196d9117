//! The unit of work that the scheduler runs.
use vstd::prelude::*;
use crate::common::Duration;

verus! {

/// When a task wants to run again.
#[derive(PartialEq, Eq, Structural, Copy, Clone, Debug)]
pub enum NextRun {
    /// Whenever its round-robin turn comes.
    InOrder,
    /// Not before this span has passed since the start of the call that ran it.
    After(Duration),
}

/// A unit of work: given the shared state, it does a short piece of work and
/// hands back at most one action for the hardware and when it wants to run again.
/// It must not block.
pub trait Task<State, Action> {
    /// The contract of one run: started on `state`, the task ends in `after`,
    /// the state ends in `state_after`, and the result is `result`. A task
    /// that states nothing promises nothing.
    open spec fn ran(
        &self,
        state: State,
        after: &Self,
        state_after: State,
        result: (Option<Action>, NextRun),
    ) -> bool {
        true
    }

    fn run(&mut self, state: &mut State) -> (r: (Option<Action>, NextRun))
        ensures
            old(self).ran(*old(state), &*final(self), *final(state), r),
    ;
}

} // verus!
