//! The destination guard: whether a directory may be used for a new project.

use vstd::prelude::*;

verus! {

/// What was found at the destination.
#[derive(Debug, PartialEq, Eq, Copy, Clone, Structural)]
pub enum DestinationState {
    /// There is nothing at the path.
    Absent,
    /// The directory is there and holds nothing.
    Empty,
    /// The directory is there and holds something.
    Occupied,
}

/// Whether the run may go on with the destination.
#[derive(Debug, PartialEq, Eq, Copy, Clone, Structural)]
pub enum Decision {
    Proceed,
    Abort,
}

/// What the guard asks for first, once the destination was inspected.
#[derive(Debug, PartialEq, Eq, Copy, Clone, Structural)]
pub enum GuardStep {
    /// Create the directory, with its parents.
    Create,
    /// Ask whether everything in the directory may be deleted.
    Confirm,
    /// Nothing: the directory can be used as it is.
    Nothing,
}

/// The first step for a destination in the state `found`.
pub open spec fn first_step_for(found: DestinationState) -> GuardStep {
    match found {
        DestinationState::Absent => GuardStep::Create,
        DestinationState::Empty => GuardStep::Nothing,
        DestinationState::Occupied => GuardStep::Confirm,
    }
}

/// The guard's decision.
///
/// `confirmed` is the answer to the question whether the directory may be
/// emptied and `cleared` whether emptying it went well. Both matter only for
/// a directory that holds something: it may be used only if the answer was
/// yes and everything in it was deleted.
pub open spec fn decision_for(found: DestinationState, confirmed: bool, cleared: bool) -> Decision {
    if found == DestinationState::Occupied && !(confirmed && cleared) {
        Decision::Abort
    } else {
        Decision::Proceed
    }
}

/// Whether the guard has anything created or deleted on its way to the
/// decision.
pub open spec fn touches_disk(found: DestinationState, confirmed: bool) -> bool {
    found == DestinationState::Absent || (found == DestinationState::Occupied && confirmed)
}

/// What to do first with a destination in the state `found`.
pub fn first_step(found: DestinationState) -> (step: GuardStep)
    ensures
        step == first_step_for(found),
{
    match found {
        DestinationState::Absent => GuardStep::Create,
        DestinationState::Empty => GuardStep::Nothing,
        DestinationState::Occupied => GuardStep::Confirm,
    }
}

/// Decides whether the destination may be used.
pub fn prepare(found: DestinationState, confirmed: bool, cleared: bool) -> (decision: Decision)
    ensures
        decision == decision_for(found, confirmed, cleared),
{
    match found {
        DestinationState::Occupied => if confirmed && cleared {
            Decision::Proceed
        } else {
            Decision::Abort
        },
        _ => Decision::Proceed,
    }
}

} // verus!
