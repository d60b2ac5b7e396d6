//! What whole calls on the saved accounts come to, one after another: saving, reading when
//! an account was saved, reading it, and removing it.

use vstd::prelude::*;

use crate::contracts;
use crate::contracts::AccountKey;
use crate::error::AppError;
use crate::outside;
use crate::platform::macos::secure_fs::FileReply;
use crate::platform::macos::secure_fs::RemoveDirectory;
use crate::platform::macos::secure_snapshot;
use crate::platform::macos::secure_snapshot::AccountProfile;
use crate::platform::macos::secure_snapshot::SaveSnapshot;
use crate::platform::macos::secure_snapshot::SecurePayload;
use crate::platform::macos::secure_snapshot::SnapshotSummary;
use crate::platform::macos::secure_snapshot::StoreReply;
use crate::platform::macos::secure_snapshot::ValidateSnapshot;
use crate::step::Step;

verus! {

/// What matters of one account: the state that is being written, the published generations
/// by their names, the profile that was generated last, and the profile.
pub struct Saved {
    pub staging: Option<SecurePayload>,
    pub generations: Map<Seq<char>, SecurePayload>,
    pub generated: Option<AccountProfile>,
    pub profile: Option<AccountProfile>,
}

/// What the work of a save does to the account. Moving, writing and removing that failed may
/// have been done or not.
pub open spec fn save_work(
    operation: SaveSnapshot,
    reply: StoreReply,
    earlier: Saved,
    later: Saved,
) -> bool {
    match (operation, reply) {
        (SaveSnapshot::Creating { .. }, _) => later == (Saved {
            staging: later.staging,
            ..earlier
        }),
        (SaveSnapshot::Writing { payload, .. }, StoreReply::Done(done)) => {
            &&& later == (Saved { staging: later.staging, ..earlier })
            &&& done is Ok ==> later.staging == Some(payload)
        },
        (SaveSnapshot::Rereading { .. }, StoreReply::Payload(read)) => later == earlier && (
        read matches Ok(payload) ==> earlier.staging == Some(payload)),
        (SaveSnapshot::Publishing { job }, StoreReply::Done(done)) => {
            let moved = Saved {
                staging: None,
                generations: earlier.generations.insert(job.generation@, earlier.staging->0),
                ..earlier
            };
            match done {
                Ok(_) => later == moved,
                Err(_) => later == earlier || later == moved,
            }
        },
        (SaveSnapshot::Generating { profile, .. }, StoreReply::Generated(_)) => later == (Saved {
            generated: Some(profile),
            ..earlier
        }),
        (SaveSnapshot::WritingProfile { .. }, StoreReply::Done(done)) => {
            let named = Saved { profile: earlier.generated, ..earlier };
            match done {
                Ok(_) => later == named,
                Err(_) => later == earlier || later == named,
            }
        },
        (SaveSnapshot::Removing { names, index, .. }, StoreReply::Done(_)) => later == earlier
            || later == (Saved {
            generations: earlier.generations.remove(names@[index as int]@),
            ..earlier
        }),
        (SaveSnapshot::CleaningUp { .. }, _) => later == (Saved {
            staging: later.staging,
            ..earlier
        }),
        _ => later == earlier,
    }
}

/// One piece of work of a save and the step that it leads to.
pub struct SaveMoment {
    pub operation: SaveSnapshot,
    pub reply: StoreReply,
    pub earlier: Saved,
    pub later: Saved,
    pub step: Step<SaveSnapshot, SnapshotSummary>,
}

/// Whether the moments are a run of saving the payload for the account.
pub open spec fn is_save_run(
    run: Seq<SaveMoment>,
    account: AccountKey,
    payload: SecurePayload,
) -> bool {
    &&& run.len() > 0
    &&& run[0].operation == (SaveSnapshot::CheckingLogin { account, payload })
    &&& forall|i: int|
        0 <= i < run.len() ==> {
            let moment = #[trigger] run[i];
            moment.operation.leads_to(moment.reply, moment.step) && save_work(
                moment.operation,
                moment.reply,
                moment.earlier,
                moment.later,
            )
        }
    &&& forall|i: int|
        1 <= i < run.len() ==> {
            let before = run[i - 1];
            let moment = #[trigger] run[i];
            moment.earlier == before.later && (before.step matches Step::Perform { operation, .. }
                && operation == moment.operation)
        }
}

/// Whether the profile is one that names a generation with the payload, which was saved at
/// the payload's time.
pub open spec fn names_payload(
    profile: Option<AccountProfile>,
    saved: Saved,
    payload: SecurePayload,
    generation: Seq<char>,
) -> bool {
    &&& profile is Some
    &&& secure_snapshot::profile_error(profile->0) is None
    &&& profile->0.last_saved_at == payload.created_at
    &&& profile->0.active_generation@ == generation
    &&& outside::uuid_form(generation) == Some(generation)
    &&& saved.generations.contains_key(generation)
    &&& saved.generations[generation] == payload
}

/// What holds while the payload is being saved; `first` is the account at the beginning.
pub open spec fn save_holds(
    operation: SaveSnapshot,
    saved: Saved,
    first: Saved,
    account: AccountKey,
    payload: SecurePayload,
) -> bool {
    match operation {
        SaveSnapshot::CheckingLogin { account: kept, payload: given }
        | SaveSnapshot::EnsuringAccount { account: kept, payload: given }
        | SaveSnapshot::EnsuringGenerations { account: kept, payload: given }
        | SaveSnapshot::Excluding { account: kept, payload: given } => kept == account && given
            == payload && saved.profile == first.profile,
        SaveSnapshot::Creating { job, payload: given }
        | SaveSnapshot::Writing { job, payload: given } => {
            &&& given == payload
            &&& saved.profile == first.profile
            &&& job.account == account
            &&& job.created_at == payload.created_at
            &&& outside::uuid_form(job.generation@) == Some(job.generation@)
        },
        SaveSnapshot::Rereading { job } | SaveSnapshot::Publishing { job } => {
            &&& saved.staging == Some(payload)
            &&& saved.profile == first.profile
            &&& job.account == account
            &&& job.created_at == payload.created_at
            &&& outside::uuid_form(job.generation@) == Some(job.generation@)
        },
        SaveSnapshot::Generating { job, profile } => {
            &&& saved.profile == first.profile
            &&& job.account == account
            &&& job.created_at == payload.created_at
            &&& names_payload(Some(profile), saved, payload, job.generation@)
        },
        SaveSnapshot::WritingProfile { job, .. } => {
            &&& saved.profile == first.profile
            &&& job.account == account
            &&& job.created_at == payload.created_at
            &&& names_payload(saved.generated, saved, payload, job.generation@)
        },
        SaveSnapshot::Listing { job } => job.created_at == payload.created_at && names_payload(
            saved.profile,
            saved,
            payload,
            job.generation@,
        ),
        SaveSnapshot::Removing { job, names, index, .. } => {
            &&& job.created_at == payload.created_at
            &&& names_payload(saved.profile, saved, payload, job.generation@)
            &&& names@[index as int]@ != job.generation@
        },
        SaveSnapshot::CleaningUp { .. } => true,
    }
}

proof fn lemma_save_step(
    moment: SaveMoment,
    first: Saved,
    account: AccountKey,
    payload: SecurePayload,
)
    requires
        save_holds(moment.operation, moment.earlier, first, account, payload),
        save_work(moment.operation, moment.reply, moment.earlier, moment.later),
        moment.operation.leads_to(moment.reply, moment.step),
    ensures
        moment.step matches Step::Perform { operation, .. } ==> save_holds(
            operation,
            moment.later,
            first,
            account,
            payload,
        ),
        moment.step matches Step::Finished(Ok(summary)) ==> is_saved(
            moment.later,
            payload,
            summary,
        ),
{
    secure_snapshot::law_profile_follows_publication(
        moment.operation,
        moment.reply,
        moment.step,
    );
}

/// Whether the payload is what is saved of the account, at the reported time.
pub open spec fn is_saved(saved: Saved, payload: SecurePayload, summary: SnapshotSummary) -> bool {
    &&& summary.last_saved_at == payload.created_at
    &&& saved.profile is Some
    &&& names_payload(saved.profile, saved, payload, saved.profile->0.active_generation@)
}

/// A save that succeeds has written a generation with the payload and a profile that names
/// it, with the time that it reports. A save that fails before the profile is written leaves
/// the profile as it was.
pub proof fn law_save_outcomes(
    run: Seq<SaveMoment>,
    account: AccountKey,
    payload: SecurePayload,
    i: int,
)
    requires
        is_save_run(run, account, payload),
        0 <= i < run.len(),
    ensures
        save_holds(run[i].operation, run[i].earlier, run[0].earlier, account, payload),
        run[i].step matches Step::Finished(Ok(summary)) ==> is_saved(
            run[i].later,
            payload,
            summary,
        ),
        (forall|j: int| 0 <= j <= i ==> !((#[trigger] run[j]).operation is WritingProfile))
            ==> run[i].later.profile == run[0].earlier.profile,
    decreases i,
{
    let first = run[0].earlier;
    if i > 0 {
        law_save_outcomes(run, account, payload, i - 1);
        lemma_save_step(run[i - 1], first, account, payload);
        assert(run[i].earlier == run[i - 1].later);
    }
    lemma_save_step(run[i], first, account, payload);
    assert(save_work(run[i].operation, run[i].reply, run[i].earlier, run[i].later));
    if forall|j: int| 0 <= j <= i ==> !((#[trigger] run[j]).operation is WritingProfile) {
        assert(!(run[i].operation is WritingProfile));
        if i > 0 {
            assert forall|j: int| 0 <= j <= i - 1 implies !((
            #[trigger] run[j]).operation is WritingProfile) by {}
            assert(run[i].earlier.profile == first.profile);
        }
    }
}

/// Saving and then reading when the account was saved gives the time of the save.
pub proof fn law_summary_gives_the_time_of_the_save(
    run: Seq<SaveMoment>,
    account: AccountKey,
    payload: SecurePayload,
    read: Result<Result<AccountProfile, String>, AppError>,
)
    requires
        is_save_run(run, account, payload),
        run.last().step matches Step::Finished(Ok(_)),
        read matches Ok(Ok(profile)) && run.last().later.profile == Some(profile),
    ensures
        secure_snapshot::profile_of(read) matches Ok(profile) && profile.last_saved_at
            == run.last().step->Finished_0->Ok_0.last_saved_at,
        run.last().step->Finished_0->Ok_0.last_saved_at == payload.created_at,
{
    law_save_outcomes(run, account, payload, run.len() - 1);
}

/// A save of a state without a login fails at once and changes nothing.
pub proof fn law_save_needs_a_login(
    run: Seq<SaveMoment>,
    account: AccountKey,
    payload: SecurePayload,
)
    requires
        is_save_run(run, account, payload),
        run[0].reply matches StoreReply::Authenticated(yes) && !(yes matches Ok(true)),
    ensures
        run.len() == 1,
        run[0].step matches Step::Finished(Err(_)),
        run[0].later == run[0].earlier,
{
    assert(run[0].operation.leads_to(run[0].reply, run[0].step));
    assert(save_work(run[0].operation, run[0].reply, run[0].earlier, run[0].later));
    if run.len() > 1 {
        assert(run[1].earlier == run[0].later);
    }
}

/// An account whose profile cannot be read, or does not say that its login was verified, is
/// neither shown as saved nor can it be used.
pub proof fn law_unverified_profile_is_refused(
    account: AccountKey,
    read: Result<Result<AccountProfile, String>, AppError>,
    step: Step<ValidateSnapshot, SecurePayload>,
)
    requires
        read matches Ok(Ok(profile)) ==> !profile.verified_login,
        (ValidateSnapshot::ReadingProfile { account }).leads_to(StoreReply::Profile(read), step),
    ensures
        secure_snapshot::profile_of(read) is Err,
        step matches Step::Finished(Err(_)),
{
}

/// Whether the answer to the work of reading says of the account what is true.
pub open spec fn validate_work(
    operation: ValidateSnapshot,
    reply: StoreReply,
    saved: Saved,
) -> bool {
    match (operation, reply) {
        (ValidateSnapshot::ReadingProfile { .. }, StoreReply::Profile(Ok(Ok(profile)))) =>
            saved.profile == Some(profile),
        (ValidateSnapshot::Reading { generation, .. }, StoreReply::Payload(Ok(payload))) =>
            saved.generations.contains_key(generation@) && saved.generations[generation@]
                == payload,
        _ => true,
    }
}

/// One piece of work of reading a saved account and the step that it leads to.
pub struct ValidateMoment {
    pub operation: ValidateSnapshot,
    pub reply: StoreReply,
    pub step: Step<ValidateSnapshot, SecurePayload>,
}

/// Whether the moments are a run of reading the saved account.
pub open spec fn is_validate_run(
    run: Seq<ValidateMoment>,
    account: AccountKey,
    saved: Saved,
) -> bool {
    &&& run.len() > 0
    &&& run[0].operation == (ValidateSnapshot::CheckingDirectory { account })
    &&& forall|i: int|
        0 <= i < run.len() ==> {
            let moment = #[trigger] run[i];
            moment.operation.leads_to(moment.reply, moment.step) && validate_work(
                moment.operation,
                moment.reply,
                saved,
            )
        }
    &&& forall|i: int|
        1 <= i < run.len() ==> {
            let before = run[i - 1];
            let moment = #[trigger] run[i];
            before.step matches Step::Perform { operation, .. } && operation == moment.operation
        }
}

/// Whether the payload is that of the generation that the account's profile names.
pub open spec fn is_active(saved: Saved, payload: SecurePayload) -> bool {
    &&& saved.profile is Some
    &&& secure_snapshot::profile_error(saved.profile->0) is None
    &&& outside::uuid_form(saved.profile->0.active_generation@) is Some
    &&& saved.generations.contains_key(
        outside::uuid_form(saved.profile->0.active_generation@)->0,
    )
    &&& saved.generations[outside::uuid_form(saved.profile->0.active_generation@)->0] == payload
}

/// What holds while a saved account is being read.
pub open spec fn validate_holds(
    operation: ValidateSnapshot,
    account: AccountKey,
    saved: Saved,
) -> bool {
    match operation {
        ValidateSnapshot::CheckingDirectory { account: kept }
        | ValidateSnapshot::ReadingProfile { account: kept } => kept == account,
        ValidateSnapshot::Reading { account: kept, generation } => {
            &&& kept == account
            &&& saved.profile is Some
            &&& secure_snapshot::profile_error(saved.profile->0) is None
            &&& outside::uuid_form(saved.profile->0.active_generation@) == Some(generation@)
        },
        ValidateSnapshot::CheckingLogin { payload } => is_active(saved, payload) && payload.version
            == secure_snapshot::FORMAT_VERSION && contracts::key_view(payload.account) == Some(
            account@,
        ),
    }
}

/// What is read of a saved account is the state of the generation that its profile names, of
/// the same account and with a whole configuration.
pub proof fn law_active_generation_is_read(
    run: Seq<ValidateMoment>,
    account: AccountKey,
    saved: Saved,
    i: int,
)
    requires
        is_validate_run(run, account, saved),
        0 <= i < run.len(),
    ensures
        validate_holds(run[i].operation, account, saved),
        run[i].step matches Step::Finished(Ok(payload)) ==> {
            &&& is_active(saved, payload)
            &&& contracts::key_view(payload.account) == Some(account@)
            &&& secure_snapshot::config_error(payload.config) is None
        },
    decreases i,
{
    if i > 0 {
        law_active_generation_is_read(run, account, saved, i - 1);
        let before = run[i - 1];
        assert(before.operation.leads_to(before.reply, before.step) && validate_work(
            before.operation,
            before.reply,
            saved,
        ));
        assert(before.step matches Step::Perform { operation, .. } && operation
            == run[i].operation);
    }
    assert(run[i].operation.leads_to(run[i].reply, run[i].step));
}

/// Whether the work of reading succeeded, and a login was found.
pub open spec fn validate_succeeds(moment: ValidateMoment) -> bool {
    match moment.operation {
        ValidateSnapshot::CheckingDirectory { .. } => moment.reply matches StoreReply::Done(Ok(_)),
        ValidateSnapshot::ReadingProfile { .. } => moment.reply matches StoreReply::Profile(
            Ok(Ok(_)),
        ),
        ValidateSnapshot::Reading { .. } => moment.reply matches StoreReply::Payload(Ok(_)),
        ValidateSnapshot::CheckingLogin { .. } => moment.reply matches StoreReply::Authenticated(
            Ok(true),
        ),
    }
}

/// The latest save is the one that is read: right after a save, whatever was saved before,
/// reading whose work succeeds gives the payload that was saved, where its configuration is
/// whole.
pub proof fn law_latest_save_is_read(
    run: Seq<SaveMoment>,
    account: AccountKey,
    payload: SecurePayload,
    check: Seq<ValidateMoment>,
)
    requires
        is_save_run(run, account, payload),
        run.last().step matches Step::Finished(Ok(_)),
        payload.version == secure_snapshot::FORMAT_VERSION,
        contracts::key_view(payload.account) == Some(account@),
        secure_snapshot::config_error(payload.config) is None,
        is_validate_run(check, account, run.last().later),
        forall|i: int| 0 <= i < check.len() ==> validate_succeeds(#[trigger] check[i]),
        check.last().step is Finished,
    ensures
        check.last().step == Step::<ValidateSnapshot, SecurePayload>::Finished(Ok(payload)),
{
    let saved = run.last().later;
    law_save_outcomes(run, account, payload, run.len() - 1);
    let last = check.len() - 1;
    law_active_generation_is_read(check, account, saved, last);
    assert(validate_succeeds(check[last]));
    assert(check[last].operation.leads_to(check[last].reply, check[last].step)
        && validate_work(check[last].operation, check[last].reply, saved));
}

/// The accounts under their directories, and what was moved out of the way, under its name.
pub struct Accounts {
    pub kept: Map<Seq<char>, Saved>,
    pub aside: Map<Seq<char>, Saved>,
}

/// What the work of a removal does to the accounts.
pub open spec fn remove_work(
    operation: RemoveDirectory,
    reply: FileReply,
    earlier: Accounts,
    later: Accounts,
) -> bool {
    match (operation, reply) {
        (RemoveDirectory::Looking { path }, FileReply::Found(found)) => later == earlier && (
        found matches Ok(entry) ==> entry is Some == earlier.kept.contains_key(path@)),
        (RemoveDirectory::Moving { path, quarantine }, FileReply::Io(done)) => match done {
            Ok(_) => later == (Accounts {
                kept: earlier.kept.remove(path@),
                aside: earlier.aside.insert(quarantine@, earlier.kept[path@]),
            }),
            Err(_) => later == earlier,
        },
        (RemoveDirectory::Deleting { quarantine, .. }, FileReply::Io(_)) => later == (Accounts {
            aside: later.aside,
            ..earlier
        }),
        (RemoveDirectory::Restoring { path, quarantine, .. }, FileReply::Io(done)) => match done {
            Ok(_) => later == (Accounts {
                kept: earlier.kept.insert(path@, earlier.aside[quarantine@]),
                aside: earlier.aside.remove(quarantine@),
            }),
            Err(_) => later == earlier,
        },
        _ => later == earlier,
    }
}

/// One piece of work of a removal and the step that it leads to.
pub struct RemoveMoment {
    pub operation: RemoveDirectory,
    pub reply: FileReply,
    pub earlier: Accounts,
    pub later: Accounts,
    pub step: Step<RemoveDirectory, ()>,
}

/// Whether the moments are a run of removing the account in the directory.
pub open spec fn is_remove_run(run: Seq<RemoveMoment>, directory: Seq<char>) -> bool {
    &&& run.len() > 0
    &&& run[0].operation matches RemoveDirectory::CheckingChain { path } && path@ == directory
    &&& forall|i: int|
        0 <= i < run.len() ==> {
            let moment = #[trigger] run[i];
            moment.operation.leads_to(moment.reply, moment.step) && remove_work(
                moment.operation,
                moment.reply,
                moment.earlier,
                moment.later,
            )
        }
    &&& forall|i: int|
        1 <= i < run.len() ==> {
            let before = run[i - 1];
            let moment = #[trigger] run[i];
            moment.earlier == before.later && (before.step matches Step::Perform { operation, .. }
                && operation == moment.operation)
        }
}

/// Which directory the operation removes.
pub open spec fn removed_by(operation: RemoveDirectory) -> Seq<char> {
    match operation {
        RemoveDirectory::CheckingChain { path }
        | RemoveDirectory::Looking { path }
        | RemoveDirectory::CheckingTree { path }
        | RemoveDirectory::OpeningParent { path }
        | RemoveDirectory::Moving { path, .. }
        | RemoveDirectory::CheckingQuarantine { path, .. }
        | RemoveDirectory::Deleting { path, .. }
        | RemoveDirectory::Restoring { path, .. }
        | RemoveDirectory::Syncing { path } => path@,
    }
}

/// Removing one account leaves the others as they were, whatever comes of it; and where it
/// succeeds, the account is gone.
pub proof fn law_removal_leaves_other_accounts(
    run: Seq<RemoveMoment>,
    directory: Seq<char>,
    i: int,
)
    requires
        is_remove_run(run, directory),
        0 <= i < run.len(),
    ensures
        removed_by(run[i].operation) == directory,
        run[i].later.kept.remove(directory) == run[0].earlier.kept.remove(directory),
        match run[i].operation {
            RemoveDirectory::CheckingQuarantine { .. }
            | RemoveDirectory::Deleting { .. }
            | RemoveDirectory::Restoring { .. }
            | RemoveDirectory::Syncing { .. } => !run[i].earlier.kept.contains_key(directory),
            _ => run[i].earlier == run[0].earlier,
        },
        run[i].step matches Step::Finished(Ok(_)) ==> !run[i].later.kept.contains_key(directory),
    decreases i,
{
    if i > 0 {
        law_removal_leaves_other_accounts(run, directory, i - 1);
        let before = run[i - 1];
        assert(run[i].earlier == before.later);
        assert(before.operation.leads_to(before.reply, before.step) && remove_work(
            before.operation,
            before.reply,
            before.earlier,
            before.later,
        ));
    }
    let moment = run[i];
    assert(moment.operation.leads_to(moment.reply, moment.step) && remove_work(
        moment.operation,
        moment.reply,
        moment.earlier,
        moment.later,
    ));
    assert(moment.earlier.kept.remove(directory) =~= run[0].earlier.kept.remove(directory));
    assert(moment.later.kept.remove(directory) =~= moment.earlier.kept.remove(directory));
}

/// An account that was removed can be removed again: where the path is found to lead through
/// no link and can be looked at, that succeeds and changes nothing.
pub proof fn law_second_removal_succeeds(
    run: Seq<RemoveMoment>,
    second: Seq<RemoveMoment>,
    directory: Seq<char>,
)
    requires
        is_remove_run(run, directory),
        run.last().step matches Step::Finished(Ok(_)),
        is_remove_run(second, directory),
        second[0].earlier == run.last().later,
        second[0].reply matches FileReply::Done(Ok(_)),
        second.len() > 1,
        second[1].reply matches FileReply::Found(Ok(_)),
    ensures
        second.len() == 2,
        second[1].step matches Step::Finished(Ok(_)),
        second[1].later == run.last().later,
{
    law_removal_leaves_other_accounts(run, directory, run.len() - 1);
    law_removal_leaves_other_accounts(second, directory, 1);
    assert(second[0].operation.leads_to(second[0].reply, second[0].step) && remove_work(
        second[0].operation,
        second[0].reply,
        second[0].earlier,
        second[0].later,
    ));
    assert(second[1].earlier == second[0].later);
    assert(second[1].operation.leads_to(second[1].reply, second[1].step) && remove_work(
        second[1].operation,
        second[1].reply,
        second[1].earlier,
        second[1].later,
    ));
    if second.len() > 2 {
        assert(second[2].earlier == second[1].later);
    }
}

/// Removing an account, however often it was saved: where it succeeds, nothing of the
/// account is left, what is saved of any other account is what it was, and removing the
/// account again succeeds and changes nothing, where the path is found to lead through no
/// link and can be looked at.
pub proof fn law_removing_an_account(
    run: Seq<RemoveMoment>,
    second: Seq<RemoveMoment>,
    directory: Seq<char>,
    other: Seq<char>,
)
    requires
        is_remove_run(run, directory),
        run.last().step matches Step::Finished(Ok(_)),
        other != directory,
        is_remove_run(second, directory),
        second[0].earlier == run.last().later,
        second[0].reply matches FileReply::Done(Ok(_)),
        second.len() > 1,
        second[1].reply matches FileReply::Found(Ok(_)),
    ensures
        !run.last().later.kept.contains_key(directory),
        run.last().later.kept.contains_key(other) == run[0].earlier.kept.contains_key(other),
        run[0].earlier.kept.contains_key(other) ==> run.last().later.kept[other]
            == run[0].earlier.kept[other],
        second.len() == 2,
        second[1].step matches Step::Finished(Ok(_)),
        second[1].later == run.last().later,
{
    law_removal_leaves_other_accounts(run, directory, run.len() - 1);
    let earlier = run[0].earlier.kept;
    let later = run.last().later.kept;
    assert(earlier.remove(directory).contains_key(other) == earlier.contains_key(other));
    assert(later.remove(directory).contains_key(other) == later.contains_key(other));
    if earlier.contains_key(other) {
        assert(earlier.remove(directory)[other] == earlier[other]);
        assert(later.remove(directory)[other] == later[other]);
    }
    law_second_removal_succeeds(run, second, directory);
}

} // verus!
