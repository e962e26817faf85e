//! The extractor: what is to be created on disk for the entries of an
//! archive.
//!
//! The first entry of an archive is the record of its root directory and is
//! never extracted. Every other entry is either given a place under the
//! destination by the path sanitizer, or skipped.

use crate::archive::{names_directory, Archive, ArchiveEntry, CorruptArchive, EntryModel};
use crate::path::{sanitize, sanitized};
use vstd::prelude::*;

verus! {

/// One thing to create under the destination.
#[derive(Debug, Clone, PartialEq, Eq)]
pub enum ExtractStep {
    /// Make sure that the directory `path` is there, with its parents.
    CreateDirectory { entry: String, path: String },
    /// Make sure that the directory of `path` is there, then write
    /// `content` to the file `path`.
    WriteFile { entry: String, path: String, content: Vec<u8> },
}

/// An extraction step, as plain values.
pub enum StepModel {
    CreateDirectory { entry: Seq<char>, path: Seq<char> },
    WriteFile { entry: Seq<char>, path: Seq<char>, content: Seq<u8> },
}

impl View for ExtractStep {
    type V = StepModel;

    open spec fn view(&self) -> StepModel {
        match self {
            ExtractStep::CreateDirectory { entry, path } => StepModel::CreateDirectory {
                entry: entry@,
                path: path@,
            },
            ExtractStep::WriteFile { entry, path, content } => StepModel::WriteFile {
                entry: entry@,
                path: path@,
                content: content@,
            },
        }
    }
}

/// A step that could not be carried out.
#[derive(Debug, Clone, PartialEq, Eq)]
pub struct ExtractError {
    /// The archive's name of the entry the step was for.
    pub entry_name: String,
    /// What went wrong.
    pub cause: String,
}

/// The steps that a list of steps stands for.
pub open spec fn step_models(steps: Seq<ExtractStep>) -> Seq<StepModel> {
    Seq::new(steps.len(), |i: int| steps[i]@)
}

/// The entries that a list of entries stands for.
pub open spec fn entry_models(entries: Seq<ArchiveEntry>) -> Seq<EntryModel> {
    Seq::new(entries.len(), |i: int| entries[i]@)
}

/// The archive's name of the entry a step is for.
pub open spec fn step_entry(step: StepModel) -> Seq<char> {
    match step {
        StepModel::CreateDirectory { entry, .. } => entry,
        StepModel::WriteFile { entry, .. } => entry,
    }
}

/// The path a step creates.
pub open spec fn step_path(step: StepModel) -> Seq<char> {
    match step {
        StepModel::CreateDirectory { path, .. } => path,
        StepModel::WriteFile { path, .. } => path,
    }
}

/// The step for one entry, or `None` where the entry is skipped: the archive
/// reader does not judge its path safe, or the sanitizer gives it no place.
pub open spec fn step_for(entry: EntryModel, prefix: Seq<char>, destination: Seq<char>) -> Option<
    StepModel,
> {
    if !entry.enclosed {
        None
    } else {
        match sanitized(entry.raw_path, prefix, destination) {
            Some(path) => Some(
                if names_directory(entry.raw_path) {
                    StepModel::CreateDirectory { entry: entry.raw_path, path }
                } else {
                    StepModel::WriteFile { entry: entry.raw_path, path, content: entry.content }
                },
            ),
            None => None,
        }
    }
}

/// The steps for a list of entries, in the order of the entries: each
/// entry gives its step, or none where it is skipped.
pub open spec fn steps_of(entries: Seq<EntryModel>, prefix: Seq<char>, destination: Seq<char>) -> Seq<
    StepModel,
>
    decreases entries.len(),
{
    if entries.len() == 0 {
        Seq::<StepModel>::empty()
    } else {
        let before = steps_of(entries.drop_last(), prefix, destination);
        match step_for(entries.last(), prefix, destination) {
            Some(step) => before.push(step),
            None => before,
        }
    }
}

/// The steps for the entries of an archive: those of every entry but the
/// first, which is the record of the archive's root directory.
pub open spec fn steps_for(entries: Seq<EntryModel>, prefix: Seq<char>, destination: Seq<char>) -> Seq<
    StepModel,
> {
    if entries.len() == 0 {
        Seq::<StepModel>::empty()
    } else {
        steps_of(entries.skip(1), prefix, destination)
    }
}

impl ExtractStep {
    /// The archive's name of the entry the step is for.
    pub fn entry_name(&self) -> (name: &str)
        ensures
            name@ == step_entry(self@),
    {
        match self {
            ExtractStep::CreateDirectory { entry, .. } => entry.as_str(),
            ExtractStep::WriteFile { entry, .. } => entry.as_str(),
        }
    }

    /// The path the step creates.
    pub fn path(&self) -> (path: &str)
        ensures
            path@ == step_path(self@),
    {
        match self {
            ExtractStep::CreateDirectory { path, .. } => path.as_str(),
            ExtractStep::WriteFile { path, .. } => path.as_str(),
        }
    }

    /// The error to report where the step could not be carried out.
    pub fn failed(&self, cause: String) -> (error: ExtractError)
        ensures
            error.entry_name@ == step_entry(self@),
            error.cause == cause,
    {
        ExtractError { entry_name: self.entry_name().to_owned(), cause }
    }
}

/// Plans the extraction of one entry.
pub fn plan_entry(entry: &ArchiveEntry, root_prefix: &str, destination: &str) -> (step: Option<
    ExtractStep,
>)
    ensures
        match step {
            Some(planned) => step_for(entry@, root_prefix@, destination@) == Some(planned@),
            None => step_for(entry@, root_prefix@, destination@) is None,
        },
{
    if !entry.enclosed {
        return None;
    }
    match sanitize(entry.raw_path.as_str(), root_prefix, destination) {
        Some(place) => {
            let path = place.to_path();
            if entry.is_directory() {
                Some(ExtractStep::CreateDirectory { entry: entry.raw_path.clone(), path })
            } else {
                Some(
                    ExtractStep::WriteFile {
                        entry: entry.raw_path.clone(),
                        path,
                        content: entry.content.clone(),
                    },
                )
            }
        },
        None => None,
    }
}

/// Plans the extraction of the entries from the one at `first` on.
fn plan_entries(
    entries: &Vec<ArchiveEntry>,
    first: usize,
    root_prefix: &str,
    destination: &str,
) -> (steps: Vec<ExtractStep>)
    requires
        first <= entries.len(),
    ensures
        step_models(steps@) == steps_of(
            entry_models(entries@).skip(first as int),
            root_prefix@,
            destination@,
        ),
{
    let mut steps: Vec<ExtractStep> = Vec::new();
    let mut i: usize = first;
    let ghost models = entry_models(entries@);
    assert(step_models(steps@) =~= Seq::<StepModel>::empty());
    assert(models.subrange(first as int, first as int) =~= Seq::<EntryModel>::empty());
    while i < entries.len()
        invariant
            first <= i <= entries.len(),
            models == entry_models(entries@),
            step_models(steps@) == steps_of(
                models.subrange(first as int, i as int),
                root_prefix@,
                destination@,
            ),
        decreases entries.len() - i,
    {
        let ghost before = step_models(steps@);
        assert(models.subrange(first as int, i + 1).drop_last() =~= models.subrange(
            first as int,
            i as int,
        ));
        assert(models.subrange(first as int, i + 1).last() == entries@[i as int]@);
        if let Some(step) = plan_entry(&entries[i], root_prefix, destination) {
            steps.push(step);
            assert(step_models(steps@) =~= before.push(step@));
        }
        i = i + 1;
    }
    assert(models.subrange(first as int, entries.len() as int) =~= models.skip(first as int));
    steps
}

/// Plans the extraction of the entries of an archive under `destination`.
/// The first entry is the record of the archive's root directory and gives
/// no step.
pub fn plan_extraction(entries: &Vec<ArchiveEntry>, root_prefix: &str, destination: &str) -> (steps:
    Vec<ExtractStep>)
    ensures
        step_models(steps@) == steps_for(entry_models(entries@), root_prefix@, destination@),
{
    if entries.len() == 0 {
        let steps: Vec<ExtractStep> = Vec::new();
        assert(step_models(steps@) =~= Seq::<StepModel>::empty());
        steps
    } else {
        plan_entries(entries, 1, root_prefix, destination)
    }
}

/// What is to be done with an archive: the steps for the entries that could
/// be read, and why reading stopped, if it did.
#[derive(Debug, Clone, PartialEq, Eq)]
pub struct ExtractionPlan {
    /// The steps to carry out, in order.
    pub steps: Vec<ExtractStep>,
    /// How many entries were passed over, the first one included.
    pub examined: usize,
    /// Why the entry at `examined` could not be read, and which entry it
    /// is, if reading stopped there.
    pub failure: Option<CorruptArchive>,
}

/// The entries before `count` as the reader hands them out. An entry that
/// cannot be read has no model: what stands for it here is of no concern.
pub open spec fn entries_read(entries: Seq<Option<EntryModel>>, count: int) -> Seq<EntryModel> {
    Seq::new(count as nat, |i: int| entries[i]->0)
}

/// Plans the extraction of an archive under `directory`.
///
/// The entries are read in order, from the second on. Reading stops at the
/// first entry that cannot be read: the plan then holds the steps for the
/// entries before it, and the failure, which names that entry as far as its
/// name can be had. The archive itself is not changed.
pub fn extract_zip(directory: &str, archive: &mut Archive, prefix: &str) -> (plan: ExtractionPlan)
    ensures
        final(archive).entries() == old(archive).entries(),
        final(archive).names() == old(archive).names(),
        plan.examined <= old(archive).entries().len(),
        forall|i: int| 1 <= i < plan.examined ==> (#[trigger] old(archive).entries()[i]) is Some,
        step_models(plan.steps@) == steps_for(
            entries_read(old(archive).entries(), plan.examined as int),
            prefix@,
            directory@,
        ),
        match plan.failure {
            Some(error) => 1 <= plan.examined < old(archive).entries().len() && old(
                archive,
            ).entries()[plan.examined as int] is None && (error.entry matches Some(name)
                ==> plan.examined < old(archive).names().len() && name@ == old(
                archive,
            ).names()[plan.examined as int]),
            None => plan.examined == old(archive).entries().len(),
        },
{
    let count = archive.len();
    let mut read: Vec<ArchiveEntry> = Vec::new();
    if count == 0 {
        let steps = plan_entries(&read, 0, prefix, directory);
        return ExtractionPlan { steps, examined: 0, failure: None };
    }
    let mut failure: Option<CorruptArchive> = None;
    let mut i: usize = 1;
    let ghost models = old(archive).entries();
    while i < count
        invariant_except_break
            failure is None,
        invariant
            1 <= i <= count,
            count == models.len(),
            models == old(archive).entries(),
            archive.entries() == models,
            archive.names() == old(archive).names(),
            forall|k: int| 1 <= k < i ==> (#[trigger] models[k]) is Some,
            read@.len() == i - 1,
            forall|k: int| 0 <= k < read@.len() ==> (#[trigger] read@[k])@ == models[k + 1]->0,
        ensures
            match failure {
                Some(error) => i < count && models[i as int] is None && (error.entry
                    matches Some(name) ==> i < old(archive).names().len() && name@ == old(
                    archive,
                ).names()[i as int]),
                None => i == count,
            },
        decreases count - i,
    {
        match archive.entry_at(i) {
            Ok(entry) => {
                read.push(entry);
                i = i + 1;
            },
            Err(error) => {
                failure = Some(error);
                break ;
            },
        }
    }
    let steps = plan_entries(&read, 0, prefix, directory);
    proof {
        assert(entry_models(read@).skip(0) =~= entry_models(read@));
        assert(entries_read(models, i as int).skip(1) =~= entry_models(read@));
    }
    ExtractionPlan { steps, examined: i, failure }
}

/// Where the extraction stands.
#[derive(Debug, Clone, PartialEq, Eq)]
pub enum Progress {
    /// The step at this position is to be carried out next.
    Step(usize),
    /// Every entry was read and every step was carried out.
    Done,
    /// A step could not be carried out, and none is carried out after it.
    Failed(ExtractError),
    /// Every step was carried out, but the plan ends at an entry of the
    /// archive that could not be read.
    Unreadable(CorruptArchive),
}

/// Whether `progress` is where the extraction stands once the steps before
/// `position` were carried out: the step at `position` is next, or, where
/// there is none, the extraction ends, with the plan's failure if it has one.
pub open spec fn resumes_at(plan: ExtractionPlan, position: int, progress: Progress) -> bool {
    if position < plan.steps@.len() {
        progress == Progress::Step(position as usize)
    } else {
        match plan.failure {
            Some(error) => progress == Progress::Unreadable(error),
            None => progress == Progress::Done,
        }
    }
}

impl ExtractionPlan {
    /// Where the extraction stands before anything was carried out.
    pub fn begin(&self) -> (progress: Progress)
        ensures
            resumes_at(*self, 0, progress),
    {
        self.resume(0)
    }

    /// Where the extraction stands once the step at `position` was tried.
    ///
    /// `outcome` tells how the step ended. A step that failed ends the
    /// extraction with the error that names its entry; nothing is tried
    /// again and no step is skipped. After a step that went well the next
    /// one is due. After the last step the extraction is done, unless the
    /// plan ends at an entry that could not be read. A position at which
    /// the plan has no step counts as carried out.
    pub fn after_step(&self, position: usize, outcome: Result<(), String>) -> (progress: Progress)
        ensures
            position >= self.steps@.len() ==> resumes_at(*self, position as int, progress),
            position < self.steps@.len() ==> match outcome {
                Ok(_) => resumes_at(*self, position + 1, progress),
                Err(cause) => progress matches Progress::Failed(error) && error.entry_name@
                    == step_entry(self.steps@[position as int]@) && error.cause == cause,
            },
    {
        if position >= self.steps.len() {
            return self.resume(position);
        }
        match outcome {
            Ok(_) => self.resume(position + 1),
            Err(cause) => Progress::Failed(self.steps[position].failed(cause)),
        }
    }

    /// Where the extraction stands once the steps before `position` were
    /// carried out.
    fn resume(&self, position: usize) -> (progress: Progress)
        ensures
            resumes_at(*self, position as int, progress),
    {
        if position < self.steps.len() {
            Progress::Step(position)
        } else {
            match &self.failure {
                Some(error) => {
                    let entry = match &error.entry {
                        Some(name) => Some(name.clone()),
                        None => None,
                    };
                    Progress::Unreadable(CorruptArchive { entry, detail: error.detail.clone() })
                },
                None => Progress::Done,
            }
        }
    }
}

/// An entry that would climb above the destination gives no step: nothing
/// is ever created for it.
pub proof fn lemma_escaping_entry_skipped(
    entry: EntryModel,
    prefix: Seq<char>,
    destination: Seq<char>,
)
    requires
        crate::path::strip_prefix(entry.raw_path, prefix) matches Some(relative)
            && crate::path::escapes(relative),
    ensures
        step_for(entry, prefix, destination) is None,
{
    crate::path::lemma_escaping_entry_rejected(entry.raw_path, prefix, destination);
}

/// Every step for a list of entries is the step of one of them, and its
/// path lies under the destination.
proof fn lemma_steps_of_inside(
    entries: Seq<EntryModel>,
    prefix: Seq<char>,
    destination: Seq<char>,
    k: int,
)
    requires
        0 <= k < steps_of(entries, prefix, destination).len(),
    ensures
        destination.is_prefix_of(step_path(steps_of(entries, prefix, destination)[k])),
        exists|i: int|
            0 <= i < entries.len() && step_for(#[trigger] entries[i], prefix, destination) == Some(
                steps_of(entries, prefix, destination)[k],
            ),
    decreases entries.len(),
{
    if entries.len() > 0 {
        let before = steps_of(entries.drop_last(), prefix, destination);
        if k < before.len() {
            lemma_steps_of_inside(entries.drop_last(), prefix, destination, k);
            let i = choose|i: int|
                0 <= i < entries.drop_last().len() && step_for(
                    #[trigger] entries.drop_last()[i],
                    prefix,
                    destination,
                ) == Some(before[k]);
            assert(entries[i] == entries.drop_last()[i]);
        } else {
            let last = entries[entries.len() - 1];
            assert(last == entries.last());
            crate::path::lemma_sanitized_inside(last.raw_path, prefix, destination);
        }
    }
}

/// Every step of a plan is the step of an entry that the sanitizer gave a
/// place, and never of the first entry: its path lies under the destination
/// and never climbs out of it.
pub proof fn lemma_steps_inside(
    entries: Seq<EntryModel>,
    prefix: Seq<char>,
    destination: Seq<char>,
    k: int,
)
    requires
        0 <= k < steps_for(entries, prefix, destination).len(),
    ensures
        destination.is_prefix_of(step_path(steps_for(entries, prefix, destination)[k])),
        exists|i: int|
            1 <= i < entries.len() && step_for(#[trigger] entries[i], prefix, destination) == Some(
                steps_for(entries, prefix, destination)[k],
            ),
{
    let rest = entries.skip(1);
    lemma_steps_of_inside(rest, prefix, destination, k);
    let i = choose|i: int|
        0 <= i < rest.len() && step_for(#[trigger] rest[i], prefix, destination) == Some(
            steps_of(rest, prefix, destination)[k],
        );
    assert(entries[i + 1] == rest[i]);
}

} // verus!
