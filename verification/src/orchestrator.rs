//! The orchestrator: the order of the steps of a run.
//!
//! The orchestrator does nothing itself. It names the action that is due,
//! is told how the action ended, and moves on: from the check of the
//! destination over fetching, extracting and patching to the end of the run.
//! A run never goes back to an earlier step and never repeats one.

use crate::guard::{
    decision_for, first_step, first_step_for, prepare, touches_disk, Decision, DestinationState,
    GuardStep,
};
use crate::language::{language_of_index, ProgrammingLanguage};
use vstd::prelude::*;

verus! {

/// Why a run failed.
#[derive(Debug, PartialEq, Eq, Copy, Clone, Structural)]
pub enum Failure {
    /// The question whether the destination may be emptied got no answer.
    ConfirmationFailed,
    /// The destination could not be created.
    DirectoryCreationFailed,
    /// The destination could not be emptied.
    DirectoryDeletionFailed,
    /// The language or the use of version control could not be asked for.
    SelectionFailed,
    /// The selected language is none that a project can be generated for.
    InvalidVariant,
    /// The archive could not be fetched.
    DownloadFailed,
    /// The archive could not be read.
    ArchiveCorrupt,
    /// An entry of the archive could not be written.
    ExtractFailed,
    /// The generated files could not be patched.
    PatchFailed,
    /// Version control could not be set up.
    VcsInitFailed,
}

/// What a run waits for between the check of the destination and the
/// fetched archive.
#[derive(Debug, PartialEq, Eq, Copy, Clone, Structural)]
pub enum Pending {
    Creation,
    Confirmation,
    Clearing,
    Selection,
    Fetch,
}

/// How far a run has come.
#[derive(Debug, PartialEq, Eq, Copy, Clone, Structural)]
pub enum RunState {
    Idle,
    GuardChecked(Pending),
    Fetched,
    Extracted,
    Patched,
    VcsInitialized,
    Done,
    Aborted,
    Failed(Failure),
}

/// What is to be done next.
#[derive(Debug, PartialEq, Eq, Copy, Clone, Structural)]
pub enum Action {
    /// Find out whether the destination is there and whether it is empty.
    InspectDestination,
    /// Create the destination, with its parents.
    CreateDestination,
    /// Ask whether everything in the destination may be deleted.
    ConfirmReset,
    /// Delete everything in the destination.
    ClearDestination,
    /// Ask for the language and for the use of version control.
    Select,
    /// Fetch the archive.
    Fetch,
    /// Extract the archive into the destination.
    Extract,
    /// Patch the generated files for the language.
    Patch(ProgrammingLanguage),
    /// Set up version control in the destination.
    InitVcs,
    /// Tell that the project is ready.
    Finish,
    /// Nothing: the run is over.
    Stop,
}

/// How the action that was due ended.
#[derive(Debug, PartialEq, Eq, Copy, Clone, Structural)]
pub enum Event {
    /// The destination was inspected.
    Inspected(DestinationState),
    /// The question whether the destination may be emptied was answered.
    Answered(bool),
    /// The menu index of the language and the use of version control were
    /// chosen.
    Selected { index: usize, init_vcs: bool },
    /// The action was carried out.
    Completed,
    /// The action failed.
    Failed(Failure),
}

/// A run: how far it has come and what was chosen for it.
#[derive(Debug, PartialEq, Eq, Copy, Clone, Structural)]
pub struct Run {
    pub state: RunState,
    pub variant: ProgrammingLanguage,
    pub init_vcs: bool,
}

/// The run before anything was done.
pub open spec fn initial_run() -> Run {
    Run { state: RunState::Idle, variant: ProgrammingLanguage::Unknown, init_vcs: false }
}

/// Whether a run is over.
pub open spec fn is_terminal(state: RunState) -> bool {
    state == RunState::Done || state == RunState::Aborted || state is Failed
}

/// Whether the language of a run is known from the point on where it is
/// needed, and version control is only set up where it was asked for.
pub open spec fn well_formed(run: Run) -> bool {
    &&& (run.state == RunState::GuardChecked(Pending::Fetch) || run.state == RunState::Fetched
        || run.state == RunState::Extracted || run.state == RunState::Patched || run.state
        == RunState::VcsInitialized || run.state == RunState::Done) ==> run.variant
        != ProgrammingLanguage::Unknown
    &&& run.state == RunState::VcsInitialized ==> run.init_vcs
}

/// The action that is due in a run.
pub open spec fn due_action(run: Run) -> Action {
    match run.state {
        RunState::Idle => Action::InspectDestination,
        RunState::GuardChecked(Pending::Creation) => Action::CreateDestination,
        RunState::GuardChecked(Pending::Confirmation) => Action::ConfirmReset,
        RunState::GuardChecked(Pending::Clearing) => Action::ClearDestination,
        RunState::GuardChecked(Pending::Selection) => Action::Select,
        RunState::GuardChecked(Pending::Fetch) => Action::Fetch,
        RunState::Fetched => Action::Extract,
        RunState::Extracted => Action::Patch(run.variant),
        RunState::Patched => if run.init_vcs {
            Action::InitVcs
        } else {
            Action::Finish
        },
        RunState::VcsInitialized => Action::Finish,
        _ => Action::Stop,
    }
}

/// Whether an action creates, changes or deletes anything in the
/// destination.
pub open spec fn changes_destination(action: Action) -> bool {
    action == Action::CreateDestination || action == Action::ClearDestination || action
        == Action::Extract || action is Patch || action == Action::InitVcs
}

/// The failure that an action that went wrong stands for. Inspecting the
/// destination, telling that the project is ready and stopping have none.
pub open spec fn failure_for(action: Action) -> Option<Failure> {
    match action {
        Action::CreateDestination => Some(Failure::DirectoryCreationFailed),
        Action::ConfirmReset => Some(Failure::ConfirmationFailed),
        Action::ClearDestination => Some(Failure::DirectoryDeletionFailed),
        Action::Select => Some(Failure::SelectionFailed),
        Action::Fetch => Some(Failure::DownloadFailed),
        Action::Extract => Some(Failure::ExtractFailed),
        Action::Patch(_) => Some(Failure::PatchFailed),
        Action::InitVcs => Some(Failure::VcsInitFailed),
        Action::InspectDestination => None,
        Action::Finish => None,
        Action::Stop => None,
    }
}

impl Action {
    /// The failure to report where the action went wrong, if it has one.
    pub fn failure(self) -> (failure: Option<Failure>)
        ensures
            failure == failure_for(self),
    {
        match self {
            Action::CreateDestination => Some(Failure::DirectoryCreationFailed),
            Action::ConfirmReset => Some(Failure::ConfirmationFailed),
            Action::ClearDestination => Some(Failure::DirectoryDeletionFailed),
            Action::Select => Some(Failure::SelectionFailed),
            Action::Fetch => Some(Failure::DownloadFailed),
            Action::Extract => Some(Failure::ExtractFailed),
            Action::Patch(_) => Some(Failure::PatchFailed),
            Action::InitVcs => Some(Failure::VcsInitFailed),
            Action::InspectDestination => None,
            Action::Finish => None,
            Action::Stop => None,
        }
    }
}

/// The state a run is in once the guard has decided: it goes on to the
/// selection, or is aborted.
pub open spec fn after_decision(decision: Decision) -> RunState {
    match decision {
        Decision::Proceed => RunState::GuardChecked(Pending::Selection),
        Decision::Abort => RunState::Aborted,
    }
}

/// The state a run is in once the check of the destination found `found`:
/// it waits for what the guard asks for first, or, where the guard asks for
/// nothing, for what the guard decides.
pub open spec fn after_inspection(found: DestinationState) -> RunState {
    match first_step_for(found) {
        GuardStep::Create => RunState::GuardChecked(Pending::Creation),
        GuardStep::Confirm => RunState::GuardChecked(Pending::Confirmation),
        GuardStep::Nothing => after_decision(decision_for(found, false, false)),
    }
}

/// The run after `event`.
///
/// An event that does not answer the action that is due leaves the run as it
/// is. A failure ends the run at once, with one exception: where emptying the
/// destination failed, the run is aborted as if the answer had been no.
pub open spec fn next_run(run: Run, event: Event) -> Run {
    match (run.state, event) {
        (RunState::Idle, Event::Inspected(found)) => Run { state: after_inspection(found), ..run },
        (RunState::GuardChecked(Pending::Creation), Event::Completed) => Run {
            state: after_decision(decision_for(DestinationState::Absent, false, false)),
            ..run
        },
        (RunState::GuardChecked(Pending::Confirmation), Event::Answered(confirmed)) => Run {
            state: if confirmed {
                RunState::GuardChecked(Pending::Clearing)
            } else {
                after_decision(decision_for(DestinationState::Occupied, false, false))
            },
            ..run
        },
        (RunState::GuardChecked(Pending::Clearing), Event::Completed) => Run {
            state: after_decision(decision_for(DestinationState::Occupied, true, true)),
            ..run
        },
        (RunState::GuardChecked(Pending::Clearing), Event::Failed(_)) => Run {
            state: after_decision(decision_for(DestinationState::Occupied, true, false)),
            ..run
        },
        (RunState::GuardChecked(Pending::Selection), Event::Selected { index, init_vcs }) => if language_of_index(
            index,
        ) == ProgrammingLanguage::Unknown {
            Run { state: RunState::Failed(Failure::InvalidVariant), ..run }
        } else {
            Run {
                state: RunState::GuardChecked(Pending::Fetch),
                variant: language_of_index(index),
                init_vcs,
            }
        },
        (RunState::GuardChecked(Pending::Fetch), Event::Completed) => Run {
            state: RunState::Fetched,
            ..run
        },
        (RunState::Fetched, Event::Completed) => Run { state: RunState::Extracted, ..run },
        (RunState::Extracted, Event::Completed) => Run { state: RunState::Patched, ..run },
        (RunState::Patched, Event::Completed) => Run {
            state: if run.init_vcs {
                RunState::VcsInitialized
            } else {
                RunState::Done
            },
            ..run
        },
        (RunState::VcsInitialized, Event::Completed) => Run { state: RunState::Done, ..run },
        (state, Event::Failed(failure)) => if is_terminal(state) {
            run
        } else {
            Run { state: RunState::Failed(failure), ..run }
        },
        _ => run,
    }
}

/// How far a state is from the start of a run.
pub open spec fn progress(state: RunState) -> nat {
    match state {
        RunState::Idle => 0,
        RunState::GuardChecked(Pending::Creation) => 1,
        RunState::GuardChecked(Pending::Confirmation) => 1,
        RunState::GuardChecked(Pending::Clearing) => 2,
        RunState::GuardChecked(Pending::Selection) => 3,
        RunState::GuardChecked(Pending::Fetch) => 4,
        RunState::Fetched => 5,
        RunState::Extracted => 6,
        RunState::Patched => 7,
        RunState::VcsInitialized => 8,
        _ => 9,
    }
}

/// The sequencer of a run.
pub struct Orchestrator {
    run: Run,
}

impl View for Orchestrator {
    type V = Run;

    closed spec fn view(&self) -> Run {
        self.run
    }
}

impl Orchestrator {
    #[verifier::type_invariant]
    closed spec fn sound(&self) -> bool {
        well_formed(self@)
    }

    /// A run that has not begun.
    pub fn new() -> (fresh: Orchestrator)
        ensures
            fresh@ == initial_run(),
    {
        Orchestrator {
            run: Run {
                state: RunState::Idle,
                variant: ProgrammingLanguage::Unknown,
                init_vcs: false,
            },
        }
    }

    /// How far the run has come.
    pub fn state(&self) -> (state: RunState)
        ensures
            state == self@.state,
            well_formed(self@),
    {
        proof {
            use_type_invariant(self);
        }
        self.run.state
    }

    /// Whether the run is over.
    pub fn is_finished(&self) -> (finished: bool)
        ensures
            finished == is_terminal(self@.state),
    {
        match self.run.state {
            RunState::Done | RunState::Aborted | RunState::Failed(_) => true,
            _ => false,
        }
    }

    /// The action that is due.
    ///
    /// Where it is to patch, the language is one that a project can be
    /// generated for.
    pub fn action(&self) -> (action: Action)
        ensures
            action == due_action(self@),
            action matches Action::Patch(variant) ==> variant != ProgrammingLanguage::Unknown,
    {
        proof {
            use_type_invariant(self);
        }
        match self.run.state {
            RunState::Idle => Action::InspectDestination,
            RunState::GuardChecked(Pending::Creation) => Action::CreateDestination,
            RunState::GuardChecked(Pending::Confirmation) => Action::ConfirmReset,
            RunState::GuardChecked(Pending::Clearing) => Action::ClearDestination,
            RunState::GuardChecked(Pending::Selection) => Action::Select,
            RunState::GuardChecked(Pending::Fetch) => Action::Fetch,
            RunState::Fetched => Action::Extract,
            RunState::Extracted => Action::Patch(self.run.variant),
            RunState::Patched => if self.run.init_vcs {
                Action::InitVcs
            } else {
                Action::Finish
            },
            RunState::VcsInitialized => Action::Finish,
            _ => Action::Stop,
        }
    }

    /// Takes note of how the action that was due ended.
    pub fn handle(&mut self, event: Event)
        ensures
            final(self)@ == next_run(old(self)@, event),
    {
        proof {
            use_type_invariant(&*self);
            lemma_next_well_formed(self@, event);
        }
        self.run = advance(self.run, event);
    }
}

/// The state that the guard's decision leads to.
fn decided(decision: Decision) -> (state: RunState)
    ensures
        state == after_decision(decision),
{
    match decision {
        Decision::Proceed => RunState::GuardChecked(Pending::Selection),
        Decision::Abort => RunState::Aborted,
    }
}

/// Computes the run after `event`.
fn advance(run: Run, event: Event) -> (next: Run)
    ensures
        next == next_run(run, event),
{
    let Run { state, variant, init_vcs } = run;
    let (reached, language, vcs) = match (state, event) {
        (RunState::Idle, Event::Inspected(found)) => {
            let reached = match first_step(found) {
                GuardStep::Create => RunState::GuardChecked(Pending::Creation),
                GuardStep::Confirm => RunState::GuardChecked(Pending::Confirmation),
                GuardStep::Nothing => decided(prepare(found, false, false)),
            };
            (reached, variant, init_vcs)
        },
        (RunState::GuardChecked(Pending::Creation), Event::Completed) => (
            decided(prepare(DestinationState::Absent, false, false)),
            variant,
            init_vcs,
        ),
        (RunState::GuardChecked(Pending::Confirmation), Event::Answered(confirmed)) => if confirmed {
            (RunState::GuardChecked(Pending::Clearing), variant, init_vcs)
        } else {
            (decided(prepare(DestinationState::Occupied, false, false)), variant, init_vcs)
        },
        (RunState::GuardChecked(Pending::Clearing), Event::Completed) => (
            decided(prepare(DestinationState::Occupied, true, true)),
            variant,
            init_vcs,
        ),
        (RunState::GuardChecked(Pending::Clearing), Event::Failed(_)) => (
            decided(prepare(DestinationState::Occupied, true, false)),
            variant,
            init_vcs,
        ),
        (RunState::GuardChecked(Pending::Selection), Event::Selected { index, init_vcs: chosen }) => {
            let language = ProgrammingLanguage::from(index);
            if language == ProgrammingLanguage::Unknown {
                (RunState::Failed(Failure::InvalidVariant), variant, init_vcs)
            } else {
                (RunState::GuardChecked(Pending::Fetch), language, chosen)
            }
        },
        (RunState::GuardChecked(Pending::Fetch), Event::Completed) => (
            RunState::Fetched,
            variant,
            init_vcs,
        ),
        (RunState::Fetched, Event::Completed) => (RunState::Extracted, variant, init_vcs),
        (RunState::Extracted, Event::Completed) => (RunState::Patched, variant, init_vcs),
        (RunState::Patched, Event::Completed) => if init_vcs {
            (RunState::VcsInitialized, variant, init_vcs)
        } else {
            (RunState::Done, variant, init_vcs)
        },
        (RunState::VcsInitialized, Event::Completed) => (RunState::Done, variant, init_vcs),
        (current, Event::Failed(failure)) => match current {
            RunState::Done | RunState::Aborted | RunState::Failed(_) => (current, variant, init_vcs),
            _ => (RunState::Failed(failure), variant, init_vcs),
        },
        _ => (state, variant, init_vcs),
    };
    Run { state: reached, variant: language, init_vcs: vcs }
}

/// No event makes a run unsound: once the language is needed it is known.
pub proof fn lemma_next_well_formed(run: Run, event: Event)
    requires
        well_formed(run),
    ensures
        well_formed(next_run(run, event)),
{
}

/// A run never patches for a language that is none.
pub proof fn lemma_patch_language_known(run: Run)
    requires
        well_formed(run),
    ensures
        due_action(run) matches Action::Patch(variant) ==> variant != ProgrammingLanguage::Unknown,
{
}

/// A run that is over stays as it is, and nothing is due in it.
pub proof fn lemma_terminal_stays(run: Run, event: Event)
    requires
        is_terminal(run.state),
    ensures
        next_run(run, event) == run,
        due_action(run) == Action::Stop,
{
}

/// A run never goes back: no event leads to a state that lies before the
/// one the run is in.
pub proof fn lemma_forward_only(run: Run, event: Event)
    ensures
        progress(next_run(run, event).state) >= progress(run.state),
{
}

/// The first failure ends the run. The one exception is the failure to
/// empty the destination, which aborts the run as a refusal would.
pub proof fn lemma_failure_ends_run(run: Run, failure: Failure)
    requires
        !is_terminal(run.state),
    ensures
        run.state != RunState::GuardChecked(Pending::Clearing) ==> next_run(
            run,
            Event::Failed(failure),
        ).state == RunState::Failed(failure),
        run.state == RunState::GuardChecked(Pending::Clearing) ==> next_run(
            run,
            Event::Failed(failure),
        ).state == RunState::Aborted,
{
}

/// Where the destination holds something and the answer is no, the run is
/// aborted, and no action that was due on the way there changes anything
/// in the destination.
pub proof fn lemma_declined_run_changes_nothing()
    ensures
        ({
            let asked = next_run(initial_run(), Event::Inspected(DestinationState::Occupied));
            let ended = next_run(asked, Event::Answered(false));
            &&& !changes_destination(due_action(initial_run()))
            &&& !changes_destination(due_action(asked))
            &&& ended.state == RunState::Aborted
            &&& due_action(ended) == Action::Stop
        }),
{
}

/// Nothing in the destination is changed before it was inspected, and
/// nothing in a destination that holds something before the answer was yes.
pub proof fn lemma_changes_wait_for_consent(run: Run)
    requires
        changes_destination(due_action(run)),
    ensures
        run.state != RunState::Idle,
        run.state != RunState::GuardChecked(Pending::Confirmation),
        !is_terminal(run.state),
{
}

/// The run that a sequence of events leads to from the start.
pub open spec fn run_after(events: Seq<Event>) -> Run
    decreases events.len(),
{
    if events.len() == 0 {
        initial_run()
    } else {
        next_run(run_after(events.drop_last()), events.last())
    }
}

/// Whatever happens, a run stays sound: once the language is needed it is
/// known, and it is one that a project can be generated for.
pub proof fn lemma_every_run_well_formed(events: Seq<Event>)
    ensures
        well_formed(run_after(events)),
    decreases events.len(),
{
    if events.len() > 0 {
        lemma_every_run_well_formed(events.drop_last());
        lemma_next_well_formed(run_after(events.drop_last()), events.last());
    }
}

/// The steps of a run come in their order: each state is entered from the
/// one before it only, a run is aborted only while the destination is being
/// checked, and nothing is fetched, extracted or patched before a language
/// was selected.
pub proof fn lemma_steps_in_order(run: Run, event: Event)
    requires
        next_run(run, event).state != run.state,
    ensures
        ({
            let reached = next_run(run, event).state;
            &&& reached == RunState::GuardChecked(Pending::Fetch) ==> run.state
                == RunState::GuardChecked(Pending::Selection)
            &&& reached == RunState::Fetched ==> run.state == RunState::GuardChecked(
                Pending::Fetch,
            )
            &&& reached == RunState::Extracted ==> run.state == RunState::Fetched
            &&& reached == RunState::Patched ==> run.state == RunState::Extracted
            &&& reached == RunState::VcsInitialized ==> run.state == RunState::Patched
                && run.init_vcs
            &&& reached == RunState::Done ==> run.state == RunState::VcsInitialized || (run.state
                == RunState::Patched && !run.init_vcs)
            &&& reached == RunState::Aborted ==> run.state == RunState::GuardChecked(
                Pending::Confirmation,
            ) || run.state == RunState::GuardChecked(Pending::Clearing)
        }),
{
}

/// The run once the destination was found in the state `found`.
pub open spec fn inspected_run(found: DestinationState) -> Run {
    next_run(initial_run(), Event::Inspected(found))
}

/// The run once the guard is through with a destination found in the state
/// `found`: a missing directory was created; for a directory that holds
/// something the question was answered with `confirmed` and, after a yes,
/// emptying it went well or not, as `cleared` tells.
pub open spec fn guarded_run(found: DestinationState, confirmed: bool, cleared: bool) -> Run {
    match found {
        DestinationState::Absent => next_run(inspected_run(found), Event::Completed),
        DestinationState::Empty => inspected_run(found),
        DestinationState::Occupied => if !confirmed {
            next_run(inspected_run(found), Event::Answered(false))
        } else if cleared {
            next_run(next_run(inspected_run(found), Event::Answered(true)), Event::Completed)
        } else {
            next_run(
                next_run(inspected_run(found), Event::Answered(true)),
                Event::Failed(Failure::DirectoryDeletionFailed),
            )
        },
    }
}

/// The run does what the guard decides: it reaches the selection exactly
/// when the guard's decision is to proceed, and is aborted exactly when the
/// decision is to abort.
pub proof fn lemma_run_follows_guard(found: DestinationState, confirmed: bool, cleared: bool)
    ensures
        guarded_run(found, confirmed, cleared).state == RunState::GuardChecked(Pending::Selection)
            <==> decision_for(found, confirmed, cleared) == Decision::Proceed,
        guarded_run(found, confirmed, cleared).state == RunState::Aborted <==> decision_for(
            found,
            confirmed,
            cleared,
        ) == Decision::Abort,
{
}

/// On the way to the guard's decision an action that changes the
/// destination is due exactly when the guard touches the disk: a missing
/// directory is created, and a directory that holds something is emptied
/// after a yes. Before the destination was inspected nothing is changed.
pub proof fn lemma_guard_changes(found: DestinationState, confirmed: bool)
    ensures
        !changes_destination(due_action(initial_run())),
        (changes_destination(due_action(inspected_run(found))) || (found
            == DestinationState::Occupied && changes_destination(
            due_action(next_run(inspected_run(found), Event::Answered(confirmed))),
        ))) <==> touches_disk(found, confirmed),
{
}

} // verus!
