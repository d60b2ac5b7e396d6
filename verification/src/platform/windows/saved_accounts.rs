//! What whole calls on the saved accounts come to, one after another: saving, reading when
//! an account was saved, checking it, and removing it.

use vstd::prelude::*;

use crate::contracts::AccountKeyView;
use crate::error::ErrorView;
use crate::outside;
use crate::platform::windows::paths;
use crate::platform::windows::snapshot;
use crate::platform::windows::snapshot::AccountProfile;
use crate::platform::windows::snapshot::DocumentError;
use crate::platform::windows::snapshot::FileView;
use crate::platform::windows::snapshot::SnapshotManifest;
use crate::platform::windows::snapshot::SnapshotSummary;
use crate::platform::windows::snapshot::ValidatedSnapshotView;
use crate::platform::windows::snapshot_store;
use crate::platform::windows::snapshot_store::Presence;
use crate::platform::windows::snapshot_store::RemoveJob;
use crate::platform::windows::snapshot_store::RemoveReply;
use crate::platform::windows::snapshot_store::RemoveSnapshot;
use crate::platform::windows::snapshot_store::SaveJob;
use crate::platform::windows::snapshot_store::SaveReply;
use crate::platform::windows::snapshot_store::SaveSnapshot;
use crate::platform::windows::snapshot_store::ValidateJob;
use crate::platform::windows::snapshot_store::ValidateReply;
use crate::platform::windows::snapshot_store::ValidateSnapshot;
use crate::step::Step;
use crate::step::StepView;
use crate::text;

verus! {

/// A generation of a saved account: its manifest, where it has one, and its files.
pub struct Generation {
    pub manifest: Option<SnapshotManifest>,
    pub files: Set<FileView>,
}

/// What matters of one account: the files that are to be saved, the generation that is
/// being made, the published generations by their names, and the profile.
pub struct Saved {
    pub source: Set<FileView>,
    pub staging: Option<Generation>,
    pub generations: Map<Seq<char>, Generation>,
    pub profile: Option<AccountProfile>,
}

/// What the work of a save does to the account.
pub open spec fn save_work(
    operation: SaveSnapshot,
    reply: SaveReply,
    earlier: Saved,
    later: Saved,
) -> bool {
    match (operation, reply) {
        (SaveSnapshot::Capturing { .. }, SaveReply::Captured(captured)) => {
            &&& later == (Saved { staging: later.staging, ..earlier })
            &&& captured matches Ok(files) ==> {
                &&& snapshot::contents(files.files@) == earlier.source
                &&& snapshot::sorted_by_name(files.files@)
                &&& later.staging == Some(Generation { manifest: None, files: earlier.source })
            }
        },
        (SaveSnapshot::WritingManifest { manifest, .. }, SaveReply::Checked(written)) => {
            &&& later == (Saved { staging: later.staging, ..earlier })
            &&& written is Ok && earlier.staging is Some ==> later.staging == Some(
                Generation { manifest: Some(manifest), files: earlier.staging->0.files },
            )
        },
        (SaveSnapshot::Publishing { job, .. }, SaveReply::Io(done)) => match done {
            Ok(_) => later == (Saved {
                staging: None,
                generations: earlier.generations.insert(job.generation@, earlier.staging->0),
                ..earlier
            }),
            Err(_) => later == earlier,
        },
        (SaveSnapshot::WritingProfile { profile, .. }, SaveReply::Checked(written)) => {
            let named = Saved { profile: Some(profile), ..earlier };
            match written {
                Ok(_) => later == named,
                Err(_) => later == earlier || later == named,
            }
        },
        (SaveSnapshot::CleaningUp { job, .. }, _) => {
            &&& later == (Saved { generations: later.generations, ..earlier })
            &&& earlier.generations.contains_key(job.generation@) ==> {
                &&& later.generations.contains_key(job.generation@)
                &&& later.generations[job.generation@] == earlier.generations[job.generation@]
            }
        },
        (SaveSnapshot::Discarding { .. }, _) => later == (Saved {
            staging: later.staging,
            ..earlier
        }),
        _ => later == earlier,
    }
}

/// One piece of work of a save and the step that it leads to.
pub struct SaveMoment {
    pub operation: SaveSnapshot,
    pub reply: SaveReply,
    pub earlier: Saved,
    pub later: Saved,
    pub step: Step<SaveSnapshot, SnapshotSummary>,
}

/// Whether the moments are a run of the save of a job.
pub open spec fn is_save_run(run: Seq<SaveMoment>, job: SaveJob) -> bool {
    &&& run.len() > 0
    &&& run[0].operation == SaveSnapshot::CheckingSource { job }
    &&& forall|i: int|
        0 <= i < run.len() ==> {
            let moment = #[trigger] run[i];
            moment.operation.leads_to(moment.reply, moment.step) && save_work(
                moment.operation,
                moment.reply,
                moment.earlier,
                moment.later,
            )
        }
    &&& forall|i: int|
        1 <= i < run.len() ==> {
            let before = run[i - 1];
            let moment = #[trigger] run[i];
            moment.earlier == before.later && (before.step matches Step::Perform { operation, .. }
                && operation == moment.operation)
        }
}

/// Whether the manifest is that of a generation of the job with the account's files.
pub open spec fn is_manifest_of(manifest: SnapshotManifest, job: SaveJob, first: Saved) -> bool {
    &&& manifest.version == snapshot::SNAPSHOT_VERSION
    &&& manifest.account@ == job.account@
    &&& manifest.generation@ == job.generation@
    &&& snapshot::has_config(manifest.files@)
    &&& snapshot::contents(manifest.files@) == first.source
    &&& snapshot::sorted_by_name(manifest.files@)
}

/// Whether the generation is one of the job with the account's files.
pub open spec fn is_generation_of(generation: Generation, job: SaveJob, first: Saved) -> bool {
    &&& generation.files == first.source
    &&& generation.manifest is Some
    &&& is_manifest_of(generation.manifest->0, job, first)
}

/// What holds while an account is being saved; `first` is the account at the beginning.
pub open spec fn save_holds(
    operation: SaveSnapshot,
    saved: Saved,
    first: Saved,
    job: SaveJob,
) -> bool {
    &&& saved.source == first.source
    &&& match operation {
        SaveSnapshot::CheckingSource { job: kept }
        | SaveSnapshot::CreatingDirectories { job: kept }
        | SaveSnapshot::CheckingAccountDirectory { job: kept }
        | SaveSnapshot::CheckingGenerations { job: kept }
        | SaveSnapshot::CreatingStaging { job: kept }
        | SaveSnapshot::Capturing { job: kept } => kept == job && saved.profile == first.profile,
        SaveSnapshot::WritingManifest { job: kept, manifest } => {
            &&& kept == job
            &&& saved.profile == first.profile
            &&& is_manifest_of(manifest, job, first)
            &&& saved.staging is Some
            &&& saved.staging->0.files == first.source
        },
        SaveSnapshot::CheckingFiles { job: kept, .. }
        | SaveSnapshot::Publishing { job: kept, .. } => {
            &&& kept == job
            &&& saved.profile == first.profile
            &&& saved.staging is Some
            &&& is_generation_of(saved.staging->0, job, first)
        },
        SaveSnapshot::WritingProfile { job: kept, profile } => {
            &&& kept == job
            &&& saved.profile == first.profile
            &&& profile == snapshot_store::profile_of(job, profile.last_saved_at)
            &&& saved.generations.contains_key(job.generation@)
            &&& is_generation_of(saved.generations[job.generation@], job, first)
        },
        SaveSnapshot::CleaningUp { job: kept, created_at } => {
            &&& kept == job
            &&& saved.profile == Some(snapshot_store::profile_of(job, created_at))
            &&& saved.generations.contains_key(job.generation@)
            &&& is_generation_of(saved.generations[job.generation@], job, first)
        },
        SaveSnapshot::Discarding { .. } => true,
    }
}

/// Whether the account is saved by the job at the given time.
pub open spec fn is_saved_by(saved: Saved, job: SaveJob, time: u64, first: Saved) -> bool {
    &&& saved.profile == Some(snapshot_store::profile_of(job, time))
    &&& saved.generations.contains_key(job.generation@)
    &&& is_generation_of(saved.generations[job.generation@], job, first)
}

proof fn lemma_save_step(moment: SaveMoment, first: Saved, job: SaveJob)
    requires
        save_holds(moment.operation, moment.earlier, first, job),
        save_work(moment.operation, moment.reply, moment.earlier, moment.later),
        moment.operation.leads_to(moment.reply, moment.step),
    ensures
        moment.step matches Step::Perform { operation, .. } ==> save_holds(
            operation,
            moment.later,
            first,
            job,
        ),
        moment.step matches Step::Finished(Ok(summary)) ==> is_saved_by(
            moment.later,
            job,
            summary.last_saved_at,
            first,
        ),
{
}

/// A save that succeeds has written a generation with the account's files and a profile that
/// names it, with the time that it reports. A save that fails leaves the profile as it was,
/// unless it was the writing of the profile that failed.
pub proof fn law_save_outcomes(run: Seq<SaveMoment>, job: SaveJob, i: int)
    requires
        is_save_run(run, job),
        0 <= i < run.len(),
    ensures
        save_holds(run[i].operation, run[i].earlier, run[0].earlier, job),
        run[i].step matches Step::Finished(Ok(summary)) ==> is_saved_by(
            run[i].later,
            job,
            summary.last_saved_at,
            run[0].earlier,
        ),
        (forall|j: int| 0 <= j <= i ==> !((#[trigger] run[j]).operation is WritingProfile))
            ==> run[i].later.profile == run[0].earlier.profile,
    decreases i,
{
    let first = run[0].earlier;
    if i > 0 {
        law_save_outcomes(run, job, i - 1);
        lemma_save_step(run[i - 1], first, job);
        assert(run[i].earlier == run[i - 1].later);
    }
    lemma_save_step(run[i], first, job);
    assert(save_work(run[i].operation, run[i].reply, run[i].earlier, run[i].later));
    if forall|j: int| 0 <= j <= i ==> !((#[trigger] run[j]).operation is WritingProfile) {
        assert(!(run[i].operation is WritingProfile));
        if i > 0 {
            assert forall|j: int| 0 <= j <= i - 1 implies !((
            #[trigger] run[j]).operation is WritingProfile) by {}
            assert(run[i].earlier.profile == first.profile);
        }
        if run[i].operation is CleaningUp {
            lemma_cleanup_follows_profile(run, job, i);
        }
    }
}

proof fn lemma_cleanup_follows_profile(run: Seq<SaveMoment>, job: SaveJob, i: int)
    requires
        is_save_run(run, job),
        0 <= i < run.len(),
        run[i].operation is CleaningUp,
    ensures
        i > 0,
        run[i - 1].operation is WritingProfile,
{
    assert(run[i - 1].operation.leads_to(run[i - 1].reply, run[i - 1].step));
}

/// What was read of the profile is what is there.
pub open spec fn reads_profile(
    read: Option<Result<AccountProfile, DocumentError>>,
    saved: Saved,
) -> bool {
    match read {
        None => saved.profile is None,
        Some(Ok(profile)) => saved.profile == Some(profile),
        Some(Err(_)) => saved.profile is Some,
    }
}

/// Saving and then reading when the account was saved gives the time of the save.
pub proof fn law_summary_gives_the_time_of_the_save(
    run: Seq<SaveMoment>,
    job: SaveJob,
    read: Option<Result<AccountProfile, DocumentError>>,
)
    requires
        is_save_run(run, job),
        outside::uuid_form(job.generation@) is Some,
        run.last().step matches Step::Finished(Ok(_)),
        reads_profile(read, run.last().later),
        read matches Some(read) ==> read is Ok,
    ensures
        snapshot_store::summary_of(job.account@, read) == Ok::<Option<SnapshotSummary>, ErrorView>(
            Some(run.last().step->Finished_0->Ok_0),
        ),
{
    law_save_outcomes(run, job, run.len() - 1);
}

/// A save of files without the client's configuration fails, and an account that had never
/// been saved still counts as such.
pub proof fn law_save_needs_the_config(run: Seq<SaveMoment>, job: SaveJob, i: int)
    requires
        is_save_run(run, job),
        0 <= i < run.len(),
        forall|file: FileView|
            #[trigger] run[0].earlier.source.contains(file) ==> is_no_config(file.name),
    ensures
        !(run[i].step matches Step::Finished(Ok(_))),
        run[i].later.profile == run[0].earlier.profile,
        run[0].earlier.profile is None ==> snapshot_store::summary_of(job.account@, None) == Ok::<
            Option<SnapshotSummary>,
            ErrorView,
        >(None),
{
    assert forall|j: int| 0 <= j <= i implies !((#[trigger] run[j]).operation is WritingProfile) by {
        lemma_unfinished_without_config(run, job, j);
    }
    lemma_unfinished_without_config(run, job, i);
    law_save_outcomes(run, job, i);
}

/// Whether the name is not that of the client's configuration.
pub open spec fn is_no_config(name: Seq<char>) -> bool {
    text::lowered(name) != text::lowered("Battle.net.config"@)
}

proof fn lemma_unfinished_without_config(run: Seq<SaveMoment>, job: SaveJob, i: int)
    requires
        is_save_run(run, job),
        0 <= i < run.len(),
        forall|file: FileView|
            #[trigger] run[0].earlier.source.contains(file) ==> is_no_config(file.name),
    ensures
        match run[i].operation {
            SaveSnapshot::WritingManifest { .. }
            | SaveSnapshot::CheckingFiles { .. }
            | SaveSnapshot::Publishing { .. }
            | SaveSnapshot::WritingProfile { .. }
            | SaveSnapshot::CleaningUp { .. } => false,
            _ => true,
        },
        !(run[i].step matches Step::Finished(Ok(_))),
{
    law_save_outcomes(run, job, i);
    let source = run[0].earlier.source;
    assert(run[i].operation.leads_to(run[i].reply, run[i].step));
    assert forall|manifest: SnapshotManifest| !is_manifest_of(manifest, job, run[0].earlier) by {
        if is_manifest_of(manifest, job, run[0].earlier) {
            lemma_config_is_among_the_files(manifest.files@, source);
        }
    }
}

proof fn lemma_config_is_among_the_files(
    files: Seq<snapshot::ManifestFile>,
    source: Set<FileView>,
)
    requires
        snapshot::has_config(files),
        snapshot::contents(files) == source,
    ensures
        exists|file: FileView| #[trigger] source.contains(file) && !is_no_config(file.name),
{
    let k = choose|k: int| 0 <= k < files.len() && !is_no_config((#[trigger] files[k]).name@);
    let views = snapshot::file_views(files);
    assert(views[k] == files[k]@);
    assert(views.contains(files[k]@));
    assert(source.contains(files[k]@));
}

/// An account whose profile cannot be read, or does not say that its login was verified, is
/// neither shown as saved nor can it be used.
pub proof fn law_unverified_profile_is_refused(
    job: ValidateJob,
    read: Result<AccountProfile, DocumentError>,
)
    requires
        read matches Ok(profile) ==> !profile.verified_login,
    ensures
        snapshot_store::summary_of(job.account@, Some(read)) is Err,
        (ValidateSnapshot::ReadingProfile { job }).next(
            ValidateReply::Profile(read),
        ) matches StepView::Finished(Err(_)),
{
}

/// Whether the answer to the work of a check says of the account what is true.
pub open spec fn validate_work(
    operation: ValidateSnapshot,
    reply: ValidateReply,
    saved: Saved,
) -> bool {
    match (operation, reply) {
        (ValidateSnapshot::ReadingProfile { .. }, ValidateReply::Profile(Ok(profile))) =>
            saved.profile == Some(profile),
        (
            ValidateSnapshot::ReadingManifest { profile, .. },
            ValidateReply::Manifest(Ok(manifest)),
        ) => saved.generations.contains_key(profile.active_generation@)
            && saved.generations[profile.active_generation@].manifest == Some(manifest),
        (ValidateSnapshot::CheckingFiles { manifest, .. }, ValidateReply::Checked(Ok(_))) =>
            saved.generations[manifest.generation@].files == snapshot::contents(manifest.files@),
        _ => true,
    }
}

/// One piece of work of a check.
pub struct ValidateMoment {
    pub operation: ValidateSnapshot,
    pub reply: ValidateReply,
}

/// Whether the moments are a run of checking the saved account.
pub open spec fn is_validate_run(run: Seq<ValidateMoment>, job: ValidateJob, saved: Saved) -> bool {
    &&& run.len() > 0
    &&& run[0].operation == ValidateSnapshot::CheckingDirectory { job }
    &&& forall|i: int|
        0 <= i < run.len() ==> validate_work(
            (#[trigger] run[i]).operation,
            run[i].reply,
            saved,
        )
    &&& forall|i: int|
        1 <= i < run.len() ==> {
            let before = run[i - 1];
            let moment = #[trigger] run[i];
            before.operation.next(before.reply) matches StepView::Perform { operation, .. }
                && operation == moment.operation
        }
}

/// What holds while a saved account is being checked.
pub open spec fn validate_holds(operation: ValidateSnapshot, job: ValidateJob, saved: Saved) -> bool {
    match operation {
        ValidateSnapshot::CheckingDirectory { job: kept }
        | ValidateSnapshot::ReadingProfile { job: kept } => kept == job,
        ValidateSnapshot::CheckingGeneration { job: kept, profile }
        | ValidateSnapshot::ReadingManifest { job: kept, profile } => kept == job && saved.profile
            == Some(profile) && snapshot::profile_error(job.account@, profile) is None,
        ValidateSnapshot::CheckingFiles { job: kept, manifest } => {
            &&& kept == job
            &&& saved.profile is Some
            &&& snapshot::profile_error(job.account@, saved.profile->0) is None
            &&& manifest.generation@ == saved.profile->0.active_generation@
            &&& saved.generations.contains_key(manifest.generation@)
            &&& saved.generations[manifest.generation@].manifest == Some(manifest)
            &&& manifest.account@ == job.account@
        },
    }
}

/// Whether the check found the generation that the profile names, with the files that its
/// manifest lists.
pub open spec fn is_validated(found: ValidatedSnapshotView, job: ValidateJob, saved: Saved) -> bool {
    &&& saved.profile is Some
    &&& saved.generations.contains_key(saved.profile->0.active_generation@)
    &&& found.account@ == job.account@
    &&& snapshot::contents(found.files)
        == saved.generations[saved.profile->0.active_generation@].files
    &&& found.files_directory == paths::adjoined(
        job.generation_path(saved.profile->0.active_generation@),
        "files"@,
    )
}

/// A saved account passes the check only where the files of the generation that its profile
/// names are exactly those of its manifest: where one was changed, added or removed, the
/// check fails.
pub proof fn law_check_finds_changed_files(
    run: Seq<ValidateMoment>,
    job: ValidateJob,
    saved: Saved,
    i: int,
)
    requires
        is_validate_run(run, job, saved),
        0 <= i < run.len(),
    ensures
        validate_holds(run[i].operation, job, saved),
        run[i].operation.next(run[i].reply) matches StepView::Finished(Ok(found)) ==> {
            &&& is_validated(found, job, saved)
            &&& saved.generations[saved.profile->0.active_generation@].manifest matches Some(
                manifest,
            ) && saved.generations[saved.profile->0.active_generation@].files
                == snapshot::contents(manifest.files@)
        },
    decreases i,
{
    if i > 0 {
        law_check_finds_changed_files(run, job, saved, i - 1);
        let before = run[i - 1];
        assert(validate_work(before.operation, before.reply, saved));
        assert(before.operation.next(before.reply) matches StepView::Perform { operation, .. }
            && operation == run[i].operation);
    }
    assert(validate_work(run[i].operation, run[i].reply, saved));
}

/// Whether the work of a check succeeded.
pub open spec fn validate_succeeds(moment: ValidateMoment) -> bool {
    match moment.operation {
        ValidateSnapshot::ReadingProfile { .. } => moment.reply matches ValidateReply::Profile(
            Ok(_),
        ),
        ValidateSnapshot::ReadingManifest { .. } => moment.reply matches ValidateReply::Manifest(
            Ok(_),
        ),
        _ => moment.reply matches ValidateReply::Checked(Ok(_)),
    }
}

/// Whether the check ends with this piece of work.
pub open spec fn is_last(moment: ValidateMoment) -> bool {
    moment.operation.next(moment.reply) is Finished
}

/// The latest save is the one that is checked: right after a save, whatever was saved before,
/// a check whose work succeeds finds the generation of that save, with the files that were
/// saved, in the order of their names and the client's configuration among them.
pub proof fn law_latest_save_is_checked(
    run: Seq<SaveMoment>,
    job: SaveJob,
    check: Seq<ValidateMoment>,
    checked: ValidateJob,
)
    requires
        is_save_run(run, job),
        outside::uuid_form(job.generation@) is Some,
        run.last().step matches Step::Finished(Ok(_)),
        checked.account@ == job.account@,
        is_validate_run(check, checked, run.last().later),
        forall|i: int| 0 <= i < check.len() ==> validate_succeeds(#[trigger] check[i]),
        is_last(check.last()),
    ensures
        check.last().operation.next(check.last().reply) matches StepView::Finished(Ok(found)) && {
            &&& snapshot::contents(found.files) == run[0].earlier.source
            &&& snapshot::sorted_by_name(found.files)
            &&& snapshot::has_config(found.files)
            &&& found.account@ == job.account@
            &&& found.files_directory == paths::adjoined(
                checked.generation_path(job.generation@),
                "files"@,
            )
        },
{
    let saved = run.last().later;
    law_save_outcomes(run, job, run.len() - 1);
    let last = check.len() - 1;
    law_check_finds_changed_files(check, checked, saved, last);
    assert(validate_succeeds(check[last]));
    assert(validate_work(check[last].operation, check[last].reply, saved));
}

/// What the work of a removal does to the accounts; the accounts stand under their
/// directories.
pub open spec fn remove_work(
    operation: RemoveSnapshot,
    reply: RemoveReply,
    earlier: Map<Seq<char>, Saved>,
    later: Map<Seq<char>, Saved>,
) -> bool {
    match (operation, reply) {
        (RemoveSnapshot::Looking { job }, RemoveReply::Found(presence)) => later == earlier
            && match presence {
            Presence::Present => earlier.contains_key(job.account_directory@),
            Presence::Absent => !earlier.contains_key(job.account_directory@),
            Presence::Unknown(_) => true,
        },
        (RemoveSnapshot::Quarantining { job }, RemoveReply::Io(done)) => match done {
            Ok(_) => later == earlier.remove(job.account_directory@).insert(
                job.quarantine@,
                earlier[job.account_directory@],
            ),
            Err(_) => later == earlier,
        },
        (RemoveSnapshot::Removing { job }, RemoveReply::Io(done)) => match done {
            Ok(_) => later == earlier.remove(job.quarantine@),
            Err(_) => later.remove(job.quarantine@) == earlier.remove(job.quarantine@),
        },
        (RemoveSnapshot::Restoring { job, .. }, RemoveReply::Io(done)) => match done {
            Ok(_) => later == earlier.remove(job.quarantine@).insert(
                job.account_directory@,
                earlier[job.quarantine@],
            ),
            Err(_) => later == earlier,
        },
        _ => later == earlier,
    }
}

/// One piece of work of a removal.
pub struct RemoveMoment {
    pub operation: RemoveSnapshot,
    pub reply: RemoveReply,
    pub earlier: Map<Seq<char>, Saved>,
    pub later: Map<Seq<char>, Saved>,
}

/// Whether the moments are a run of removing an account.
pub open spec fn is_remove_run(run: Seq<RemoveMoment>, job: RemoveJob) -> bool {
    &&& run.len() > 0
    &&& run[0].operation == RemoveSnapshot::CheckingRoot { job }
    &&& forall|i: int|
        0 <= i < run.len() ==> {
            let moment = #[trigger] run[i];
            remove_work(moment.operation, moment.reply, moment.earlier, moment.later)
        }
    &&& forall|i: int|
        1 <= i < run.len() ==> {
            let before = run[i - 1];
            let moment = #[trigger] run[i];
            moment.earlier == before.later && (before.operation.next(
                before.reply,
            ) matches StepView::Perform { operation, .. } && operation == moment.operation)
        }
}

/// Which account the operation removes.
pub open spec fn removed_by(operation: RemoveSnapshot) -> RemoveJob {
    match operation {
        RemoveSnapshot::CheckingRoot { job }
        | RemoveSnapshot::Looking { job }
        | RemoveSnapshot::CheckingTree { job }
        | RemoveSnapshot::Quarantining { job }
        | RemoveSnapshot::CheckingQuarantine { job }
        | RemoveSnapshot::Removing { job }
        | RemoveSnapshot::Restoring { job, .. } => job,
    }
}

/// Whether what stands under the directory is the same in both.
pub open spec fn same_under(
    directory: Seq<char>,
    earlier: Map<Seq<char>, Saved>,
    later: Map<Seq<char>, Saved>,
) -> bool {
    &&& earlier.contains_key(directory) == later.contains_key(directory)
    &&& earlier.contains_key(directory) ==> earlier[directory] == later[directory]
}

/// Removing one account leaves the others as they were, whatever comes of it; and where it
/// succeeds, the account is gone, and so is what was put aside.
pub proof fn law_removal_leaves_other_accounts(
    run: Seq<RemoveMoment>,
    job: RemoveJob,
    other: Seq<char>,
    i: int,
)
    requires
        is_remove_run(run, job),
        0 <= i < run.len(),
        other != job.account_directory@,
        other != job.quarantine@,
        job.account_directory@ != job.quarantine@,
        !run[0].earlier.contains_key(job.quarantine@),
    ensures
        removed_by(run[i].operation) == job,
        same_under(other, run[0].earlier, run[i].later),
        same_under(other, run[0].earlier, run[i].earlier),
        match run[i].operation {
            RemoveSnapshot::CheckingQuarantine { .. }
            | RemoveSnapshot::Removing { .. }
            | RemoveSnapshot::Restoring { .. } => !run[i].earlier.contains_key(
                job.account_directory@,
            ),
            _ => !run[i].earlier.contains_key(job.quarantine@),
        },
        run[i].operation.next(run[i].reply) matches StepView::Finished(Ok(_)) ==> {
            &&& !run[i].later.contains_key(job.account_directory@)
            &&& !run[i].later.contains_key(job.quarantine@)
        },
    decreases i,
{
    if i > 0 {
        law_removal_leaves_other_accounts(run, job, other, i - 1);
        let before = run[i - 1];
        assert(run[i].earlier == before.later);
        lemma_remove_step(before, other);
    }
    lemma_remove_step(run[i], other);
    assert(remove_work(run[i].operation, run[i].reply, run[i].earlier, run[i].later));
}

proof fn lemma_remove_step(moment: RemoveMoment, other: Seq<char>)
    requires
        remove_work(moment.operation, moment.reply, moment.earlier, moment.later),
        other != removed_by(moment.operation).account_directory@,
        other != removed_by(moment.operation).quarantine@,
    ensures
        same_under(other, moment.earlier, moment.later),
{
    let q = removed_by(moment.operation).quarantine@;
    assert(moment.earlier.remove(q).contains_key(other) == moment.earlier.contains_key(other));
    assert(moment.later.remove(q).contains_key(other) == moment.later.contains_key(other));
    if moment.earlier.contains_key(other) {
        assert(moment.earlier.remove(q)[other] == moment.earlier[other]);
    }
    if moment.later.contains_key(other) {
        assert(moment.later.remove(q)[other] == moment.later[other]);
    }
}

/// An account that was removed can be removed again: where the directory of all accounts is
/// found to be in order and can be looked into, that succeeds and changes nothing.
pub proof fn law_second_removal_succeeds(
    run: Seq<RemoveMoment>,
    job: RemoveJob,
    second: Seq<RemoveMoment>,
    again: RemoveJob,
)
    requires
        is_remove_run(run, job),
        run.last().operation.next(run.last().reply) matches StepView::Finished(Ok(_)),
        job.account_directory@ != job.quarantine@,
        !run[0].earlier.contains_key(job.quarantine@),
        is_remove_run(second, again),
        again.account_directory@ == job.account_directory@,
        second[0].earlier == run.last().later,
        second[0].reply matches RemoveReply::Checked(Ok(_)),
        second.len() > 1,
        second[1].reply matches RemoveReply::Found(presence) && !(presence is Unknown),
    ensures
        second.len() == 2,
        second[1].operation.next(second[1].reply) matches StepView::Finished(Ok(_)),
        second[1].later == run.last().later,
{
    let last = run.len() - 1;
    lemma_removed(run, job, last);
    assert(remove_work(
        second[0].operation,
        second[0].reply,
        second[0].earlier,
        second[0].later,
    ));
    assert(second[1].earlier == second[0].later);
    assert(remove_work(
        second[1].operation,
        second[1].reply,
        second[1].earlier,
        second[1].later,
    ));
    if second.len() > 2 {
        assert(second[2].earlier == second[1].later);
    }
}

proof fn lemma_removed(run: Seq<RemoveMoment>, job: RemoveJob, i: int)
    requires
        is_remove_run(run, job),
        0 <= i < run.len(),
        job.account_directory@ != job.quarantine@,
        !run[0].earlier.contains_key(job.quarantine@),
    ensures
        run[i].operation.next(run[i].reply) matches StepView::Finished(Ok(_))
            ==> !run[i].later.contains_key(job.account_directory@),
{
    let other = job.account_directory@ + job.quarantine@ + seq!['x'];
    assert(other.len() > job.account_directory@.len());
    assert(other.len() > job.quarantine@.len());
    law_removal_leaves_other_accounts(run, job, other, i);
}

/// Saving an account that had never been saved: where it succeeds, the account then counts
/// as saved at the reported time. Where the files are without the client's configuration,
/// it fails, and the account still counts as never saved. And whatever was saved, a profile
/// that does not say that its login was verified makes both reading the time and the check
/// fail.
pub proof fn law_saving_an_account(
    run: Seq<SaveMoment>,
    job: SaveJob,
    read: Option<Result<AccountProfile, DocumentError>>,
    unverified: Result<AccountProfile, DocumentError>,
    check: ValidateJob,
)
    requires
        is_save_run(run, job),
        outside::uuid_form(job.generation@) is Some,
        run.last().step is Finished,
        run[0].earlier.profile is None,
        reads_profile(read, run.last().later),
        read matches Some(read) ==> read is Ok,
        unverified matches Ok(profile) ==> !profile.verified_login,
        check.account@ == job.account@,
    ensures
        run.last().step->Finished_0 is Ok ==> snapshot_store::summary_of(job.account@, read)
            == Ok::<Option<SnapshotSummary>, ErrorView>(Some(run.last().step->Finished_0->Ok_0)),
        (forall|file: FileView| #[trigger]
            run[0].earlier.source.contains(file) ==> is_no_config(file.name)) ==> {
            &&& run.last().step->Finished_0 is Err
            &&& snapshot_store::summary_of(job.account@, read) == Ok::<
                Option<SnapshotSummary>,
                ErrorView,
            >(None)
        },
        snapshot_store::summary_of(job.account@, Some(unverified)) is Err,
        (ValidateSnapshot::ReadingProfile { job: check }).next(
            ValidateReply::Profile(unverified),
        ) matches StepView::Finished(Err(_)),
{
    if run.last().step->Finished_0 is Ok {
        law_summary_gives_the_time_of_the_save(run, job, read);
    }
    if forall|file: FileView| #[trigger]
        run[0].earlier.source.contains(file) ==> is_no_config(file.name) {
        law_save_needs_the_config(run, job, run.len() - 1);
    }
    law_unverified_profile_is_refused(check, unverified);
}

/// The check of a saved account right after its latest save: where its work succeeds, it
/// finds the account with exactly the files that were saved, in the order of their names,
/// the client's configuration among them. Where a file of the generation was then changed,
/// added or removed, no check succeeds any more.
pub proof fn law_checking_a_saved_account(
    run: Seq<SaveMoment>,
    job: SaveJob,
    check: Seq<ValidateMoment>,
    checked: ValidateJob,
    changed: Saved,
    second: Seq<ValidateMoment>,
    i: int,
)
    requires
        is_save_run(run, job),
        outside::uuid_form(job.generation@) is Some,
        run.last().step matches Step::Finished(Ok(_)),
        checked.account@ == job.account@,
        is_validate_run(check, checked, run.last().later),
        forall|j: int| 0 <= j < check.len() ==> validate_succeeds(#[trigger] check[j]),
        is_last(check.last()),
        changed.profile == run.last().later.profile,
        changed.generations.contains_key(job.generation@),
        changed.generations[job.generation@].manifest
            == run.last().later.generations[job.generation@].manifest,
        changed.generations[job.generation@].files
            != run.last().later.generations[job.generation@].files,
        is_validate_run(second, checked, changed),
        0 <= i < second.len(),
    ensures
        check.last().operation.next(check.last().reply) matches StepView::Finished(Ok(found)) && {
            &&& found.account@ == job.account@
            &&& snapshot::contents(found.files) == run[0].earlier.source
            &&& snapshot::sorted_by_name(found.files)
            &&& snapshot::has_config(found.files)
        },
        !(second[i].operation.next(second[i].reply) matches StepView::Finished(Ok(_))),
{
    law_latest_save_is_checked(run, job, check, checked);
    law_save_outcomes(run, job, run.len() - 1);
    law_check_finds_changed_files(second, checked, changed, i);
}

/// Removing an account, however often it was saved: where it succeeds, nothing of the
/// account is left and it counts as never saved, what is saved of any other account is what
/// it was, and removing the account again succeeds and changes nothing, where the directory
/// of all accounts is found to be in order and can be looked into.
pub proof fn law_removing_an_account(
    run: Seq<RemoveMoment>,
    job: RemoveJob,
    account: AccountKeyView,
    other: Seq<char>,
    second: Seq<RemoveMoment>,
    again: RemoveJob,
)
    requires
        is_remove_run(run, job),
        run.last().operation.next(run.last().reply) matches StepView::Finished(Ok(_)),
        job.account_directory@ != job.quarantine@,
        !run[0].earlier.contains_key(job.quarantine@),
        other != job.account_directory@,
        other != job.quarantine@,
        is_remove_run(second, again),
        again.account_directory@ == job.account_directory@,
        second[0].earlier == run.last().later,
        second[0].reply matches RemoveReply::Checked(Ok(_)),
        second.len() > 1,
        second[1].reply matches RemoveReply::Found(presence) && !(presence is Unknown),
    ensures
        !run.last().later.contains_key(job.account_directory@),
        !run.last().later.contains_key(job.quarantine@),
        snapshot_store::summary_of(account, None) == Ok::<Option<SnapshotSummary>, ErrorView>(None),
        same_under(other, run[0].earlier, run.last().later),
        second.len() == 2,
        second[1].operation.next(second[1].reply) matches StepView::Finished(Ok(_)),
        second[1].later == run.last().later,
{
    law_removal_leaves_other_accounts(run, job, other, run.len() - 1);
    law_second_removal_succeeds(run, job, second, again);
}

} // verus!
