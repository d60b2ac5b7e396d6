//! What whole calls on the recovery slot come to, one after another: staging the client's
//! state after a login, staging it again, reading it, and undoing.

use vstd::prelude::*;

use crate::error::AppError;
use crate::error::ErrorView;
use crate::platform::macos::recovery;
use crate::platform::macos::recovery::CleanupOutcomeView;
use crate::platform::macos::recovery::CommitRecovery;
use crate::platform::macos::recovery::Identified;
use crate::platform::macos::recovery::MoveRecord;
use crate::platform::macos::recovery::ReadCandidate;
use crate::platform::macos::recovery::RecoveryEnvelope;
use crate::platform::macos::recovery::RecoveryKind;
use crate::platform::macos::recovery::RecoveryRecord;
use crate::platform::macos::recovery::RecoveryReply;
use crate::platform::macos::recovery::RecoveryState;
use crate::platform::macos::recovery::RollbackRecovery;
use crate::platform::macos::recovery::StageCandidate;
use crate::platform::macos::recovery::StoredRecord;
use crate::platform::macos::secure_snapshot::SecurePayload;
use crate::step;
use crate::step::Step;
use crate::step::StepView;

verus! {

/// The client's state in a directory, with the id under which it was written.
pub struct HeldState {
    pub id: Seq<char>,
    pub payload: SecurePayload,
}

/// What matters of the disk: the record, the client's state that is being staged and that
/// is staged, and the one from before the operation.
pub struct Disk {
    pub record: Option<RecoveryRecord>,
    pub staging: Option<HeldState>,
    pub candidate: Option<HeldState>,
    pub before: Option<RecoveryEnvelope>,
}

/// Whether what was read of the record is what is there.
pub open spec fn reads_record(stored: StoredRecord, disk: Disk) -> bool {
    recovery::recorded(stored) matches Ok(record) ==> record == disk.record
}

/// What the work of staging does to the disk. Removing, moving and saving that failed may
/// have been done or not.
pub open spec fn stage_work(
    operation: StageCandidate,
    reply: RecoveryReply,
    earlier: Disk,
    later: Disk,
) -> bool {
    match (operation, reply) {
        (StageCandidate::Reading { .. }, RecoveryReply::Record(stored)) => later == earlier
            && reads_record(stored, earlier),
        (StageCandidate::ReadingExisting { record, .. }, RecoveryReply::Candidate(read)) => later
            == earlier && (read matches Ok(payload) ==> earlier.candidate == Some(
            HeldState { id: record.candidate_snapshot_id->0@, payload },
        )),
        (StageCandidate::RemovingOld { .. }, RecoveryReply::Done(done)) => match done {
            Ok(_) => later == (Disk { candidate: None, ..earlier }),
            Err(_) => later == earlier || later == (Disk { candidate: None, ..earlier }),
        },
        (StageCandidate::RemovingStale { .. }, _) | (StageCandidate::Creating { .. }, _) => later
            == (Disk { staging: later.staging, ..earlier }),
        (StageCandidate::Writing { payload, .. }, RecoveryReply::Written(written)) => {
            &&& later == (Disk { staging: later.staging, ..earlier })
            &&& written matches Ok(id) ==> later.staging == Some(HeldState { id: id@, payload })
        },
        (StageCandidate::Rereading { .. }, RecoveryReply::Payload(read)) => later == earlier && (
        read matches Ok(read) ==> earlier.staging == Some(
            HeldState { id: read.id@, payload: read.value },
        )),
        (StageCandidate::Publishing { .. }, RecoveryReply::Done(done)) => {
            let moved = Disk { candidate: earlier.staging, staging: None, ..earlier };
            match done {
                Ok(_) => later == moved,
                Err(_) => later == earlier || later == moved,
            }
        },
        (StageCandidate::Saving { record }, RecoveryReply::Done(done)) => {
            let saved = Disk { record: Some(record), ..earlier };
            match done {
                Ok(_) => later == saved,
                Err(_) => later == earlier || later == saved,
            }
        },
        (StageCandidate::RemovingStaging { .. }, _) => later == (Disk {
            staging: later.staging,
            ..earlier
        }),
        _ => later == earlier,
    }
}

/// One piece of work of staging and the step that it leads to.
pub struct StageMoment {
    pub operation: StageCandidate,
    pub reply: RecoveryReply,
    pub earlier: Disk,
    pub later: Disk,
    pub step: Step<StageCandidate, RecoveryRecord>,
}

/// Whether the moments are a run of staging the payload for the login `id`.
pub open spec fn is_stage_run(run: Seq<StageMoment>, id: Seq<char>, payload: SecurePayload) -> bool {
    &&& run.len() > 0
    &&& run[0].operation matches StageCandidate::Reading { id: kept, payload: given } && kept@ == id
        && given == payload
    &&& forall|i: int|
        0 <= i < run.len() ==> {
            let moment = #[trigger] run[i];
            moment.operation.leads_to(moment.reply, moment.step) && stage_work(
                moment.operation,
                moment.reply,
                moment.earlier,
                moment.later,
            )
        }
    &&& forall|i: int|
        1 <= i < run.len() ==> {
            let before = run[i - 1];
            let moment = #[trigger] run[i];
            moment.earlier == before.later && (before.step matches Step::Perform { operation, .. }
                && operation == moment.operation)
        }
}

/// Whether the login of the record waits for the user.
pub open spec fn waits(record: RecoveryRecord) -> bool {
    record.kind == RecoveryKind::Login && record.state == RecoveryState::AwaitingUser
}

/// What holds while the payload is being staged; `first` is the disk at the beginning.
pub open spec fn stage_holds(
    operation: StageCandidate,
    disk: Disk,
    first: Disk,
    payload: SecurePayload,
) -> bool {
    match operation {
        StageCandidate::Reading { payload: given, .. } => disk == first && given == payload,
        StageCandidate::CheckingLogin { record, payload: given }
        | StageCandidate::ReadingExisting { record, payload: given } => {
            &&& disk == first
            &&& given == payload
            &&& first.record == Some(record)
            &&& waits(record)
            &&& payload.account is Some
            &&& operation is ReadingExisting ==> record.candidate_snapshot_id is Some
        },
        StageCandidate::RemovingOld { record, payload: given }
        | StageCandidate::RemovingStale { record, payload: given }
        | StageCandidate::Creating { record, payload: given }
        | StageCandidate::Writing { record, payload: given } => {
            &&& disk.record == first.record
            &&& disk.before == first.before
            &&& given == payload
            &&& first.record == Some(record)
            &&& waits(record)
            &&& record.candidate_snapshot_id is None
        },
        StageCandidate::Rereading { record, payload: given, candidate_id } => {
            &&& disk.record == first.record
            &&& disk.before == first.before
            &&& given == payload
            &&& first.record == Some(record)
            &&& waits(record)
            &&& record.candidate_snapshot_id is None
            &&& disk.staging == Some(HeldState { id: candidate_id@, payload })
        },
        StageCandidate::Publishing { record, candidate_id } => {
            &&& disk.record == first.record
            &&& disk.before == first.before
            &&& first.record == Some(record)
            &&& waits(record)
            &&& record.candidate_snapshot_id is None
            &&& disk.staging == Some(HeldState { id: candidate_id@, payload })
        },
        StageCandidate::Saving { record } => {
            &&& disk.record == first.record
            &&& disk.before == first.before
            &&& first.record is Some
            &&& first.record->0.candidate_snapshot_id is None
            &&& waits(record)
            &&& record.candidate_snapshot_id is Some
            &&& record == (RecoveryRecord {
                candidate_snapshot_id: record.candidate_snapshot_id,
                ..first.record->0
            })
            &&& disk.candidate == Some(
                HeldState { id: record.candidate_snapshot_id->0@, payload },
            )
        },
        StageCandidate::RemovingStaging { .. } => disk.before == first.before,
    }
}

proof fn lemma_stage_step(moment: StageMoment, first: Disk, payload: SecurePayload)
    requires
        stage_holds(moment.operation, moment.earlier, first, payload),
        stage_work(moment.operation, moment.reply, moment.earlier, moment.later),
        moment.operation.leads_to(moment.reply, moment.step),
    ensures
        moment.step matches Step::Perform { operation, .. } ==> stage_holds(
            operation,
            moment.later,
            first,
            payload,
        ),
        moment.step matches Step::Finished(Ok(record)) ==> is_staged(
            moment.later,
            record,
            first,
            payload,
        ),
{
}

/// Whether the payload's account is staged under the record: the payload itself, where
/// nothing was staged before, and what was staged before, where that is the same account's.
pub open spec fn is_staged(
    disk: Disk,
    record: RecoveryRecord,
    first: Disk,
    payload: SecurePayload,
) -> bool {
    &&& disk.record == Some(record)
    &&& disk.before == first.before
    &&& waits(record)
    &&& record.candidate_snapshot_id is Some
    &&& first.record is Some
    &&& record == (RecoveryRecord {
        candidate_snapshot_id: record.candidate_snapshot_id,
        ..first.record->0
    })
    &&& disk.candidate is Some
    &&& disk.candidate->0.id == record.candidate_snapshot_id->0@
    &&& recovery::same_account(disk.candidate->0.payload.account, payload.account)
    &&& match first.record->0.candidate_snapshot_id {
        None => disk.candidate->0.payload == payload,
        Some(_) => disk == first,
    }
}

/// Staging, over whole runs. Where it succeeds, the record still waits for the user and
/// names the staged state, which is in its place and is of the payload's account; nothing
/// else of the record has changed. Where it fails, the record is as it was, unless it was
/// the saving of the record that failed.
pub proof fn law_staging_keeps_the_account(
    run: Seq<StageMoment>,
    id: Seq<char>,
    payload: SecurePayload,
    i: int,
)
    requires
        is_stage_run(run, id, payload),
        0 <= i < run.len(),
    ensures
        stage_holds(run[i].operation, run[i].earlier, run[0].earlier, payload),
        run[i].step matches Step::Finished(Ok(record)) ==> is_staged(
            run[i].later,
            record,
            run[0].earlier,
            payload,
        ),
        (forall|j: int| 0 <= j <= i ==> !((#[trigger] run[j]).operation is Saving))
            ==> run[i].later.record == run[0].earlier.record,
        !(run[i].operation is Saving) && !(run[i].operation is RemovingStaging)
            ==> run[i].later.record == run[0].earlier.record,
    decreases i,
{
    let first = run[0].earlier;
    if i > 0 {
        law_staging_keeps_the_account(run, id, payload, i - 1);
        lemma_stage_step(run[i - 1], first, payload);
        assert(run[i].earlier == run[i - 1].later);
    }
    lemma_stage_step(run[i], first, payload);
    assert(stage_work(run[i].operation, run[i].reply, run[i].earlier, run[i].later));
}

/// What is refused leaves everything as it was: a record that is not that of a login that
/// waits for the user, a payload without an account, one without a login, and one of
/// another account than that of which the state is staged already.
pub proof fn law_refused_staging_changes_nothing(
    run: Seq<StageMoment>,
    id: Seq<char>,
    payload: SecurePayload,
    i: int,
)
    requires
        is_stage_run(run, id, payload),
        0 <= i < run.len(),
    ensures
        run[0].earlier.record is None || !waits(run[0].earlier.record->0) || payload.account is None
            ==> {
            &&& i == 0
            &&& run[0].step matches Step::Finished(Err(_))
            &&& run[0].later == run[0].earlier
        },
        run[i].operation is CheckingLogin && run[i].reply is Authenticated && !(
        run[i].reply->Authenticated_0 matches Ok(true)) ==> {
            &&& run[i].step matches Step::Finished(Err(_))
            &&& run[i].later == run[0].earlier
        },
        run[i].operation is ReadingExisting && run[0].earlier.candidate is Some
            && !recovery::same_account(
            run[0].earlier.candidate->0.payload.account,
            payload.account,
        ) ==> {
            &&& run[i].step matches Step::Finished(Err(_))
            &&& run[i].later == run[0].earlier
        },
{
    assert(stage_work(run[0].operation, run[0].reply, run[0].earlier, run[0].later));
    assert(run[0].operation.leads_to(run[0].reply, run[0].step));
    law_staging_keeps_the_account(run, id, payload, i);
    assert(stage_work(run[i].operation, run[i].reply, run[i].earlier, run[i].later));
    assert(run[i].operation.leads_to(run[i].reply, run[i].step));
    if i > 0 {
        assert(run[1].earlier == run[0].later);
    }
}

/// Where something is staged already, staging changes nothing: it comes to reading what is
/// staged, or fails before.
pub proof fn law_staged_state_is_kept(
    run: Seq<StageMoment>,
    id: Seq<char>,
    payload: SecurePayload,
    i: int,
)
    requires
        is_stage_run(run, id, payload),
        0 <= i < run.len(),
        run[0].earlier.record is Some,
        run[0].earlier.record->0.candidate_snapshot_id is Some,
    ensures
        run[i].later == run[0].earlier,
        run[i].operation is Reading || run[i].operation is CheckingLogin || run[i].operation
            is ReadingExisting,
    decreases i,
{
    law_staging_keeps_the_account(run, id, payload, i);
    if i > 0 {
        law_staged_state_is_kept(run, id, payload, i - 1);
        assert(run[i].earlier == run[i - 1].later);
        assert(run[i - 1].operation.leads_to(run[i - 1].reply, run[i - 1].step));
    }
    assert(stage_work(run[i].operation, run[i].reply, run[i].earlier, run[i].later));
}

/// Whether what was read is what is staged.
pub open spec fn reads_candidate(
    read: Result<Identified<SecurePayload>, AppError>,
    disk: Disk,
) -> bool {
    read matches Ok(read) ==> disk.candidate == Some(
        HeldState { id: read.id@, payload: read.value },
    )
}

/// A second staging keeps the first: where both succeed, the record is the same, the
/// accounts are the same, and what is read of the staged state is the first payload. Once
/// the record is gone, nothing is read.
pub proof fn law_second_staging_keeps_the_first(
    first: Seq<StageMoment>,
    second: Seq<StageMoment>,
    id: String,
    kept: SecurePayload,
    offered: SecurePayload,
    stored: StoredRecord,
    read: Result<Identified<SecurePayload>, AppError>,
)
    requires
        is_stage_run(first, id@, kept),
        first[0].earlier.record is Some,
        first[0].earlier.record->0.candidate_snapshot_id is None,
        first.last().step matches Step::Finished(Ok(_)),
        is_stage_run(second, id@, offered),
        second[0].earlier == first.last().later,
        second.last().step matches Step::Finished(Ok(_)),
    ensures
        second.last().step->Finished_0->Ok_0 == first.last().step->Finished_0->Ok_0,
        second.last().later == first.last().later,
        recovery::same_account(kept.account, offered.account),
        kept.account is Some,
        ({
            let reading = ReadCandidate::Reading { id };
            &&& recovery::required(id@, stored) is Ok && reads_record(
                stored,
                second.last().later,
            ) ==> (reading.next(RecoveryReply::Record(stored)) matches StepView::Perform {
                operation,
                ..
            } && (read is Ok && reads_candidate(read, second.last().later) ==> operation.next(
                RecoveryReply::Payload(read),
            ) == StepView::<ReadCandidate, SecurePayload>::Finished(Ok(kept))))
            &&& recovery::recorded(stored) == Ok::<Option<RecoveryRecord>, ErrorView>(None)
                ==> reading.next(RecoveryReply::Record(stored)) matches StepView::Finished(Err(_))
        }),
{
    law_staging_keeps_the_account(first, id@, kept, first.len() - 1);
    law_staging_keeps_the_account(second, id@, offered, second.len() - 1);
    lemma_staged_has_account(first, id@, kept, first.len() - 1);
}

proof fn lemma_staged_has_account(
    run: Seq<StageMoment>,
    id: Seq<char>,
    payload: SecurePayload,
    i: int,
)
    requires
        is_stage_run(run, id, payload),
        0 <= i < run.len(),
    ensures
        run[i].operation is Reading || payload.account is Some,
        run[i].step matches Step::Finished(Ok(_)) ==> payload.account is Some,
    decreases i,
{
    law_staging_keeps_the_account(run, id, payload, i);
    assert(run[i].operation.leads_to(run[i].reply, run[i].step));
    if i > 0 {
        lemma_staged_has_account(run, id, payload, i - 1);
        law_staging_keeps_the_account(run, id, payload, i - 1);
        assert(run[i - 1].operation.leads_to(run[i - 1].reply, run[i - 1].step));
        assert(run[i].earlier == run[i - 1].later);
    }
}

/// What the work of undoing an operation does to the slot. Emptying it that failed has
/// left all of it, or removed the record.
pub open spec fn rollback_work(
    operation: RollbackRecovery,
    reply: RecoveryReply,
    earlier: Disk,
    later: Disk,
) -> bool {
    match (operation, reply) {
        (RollbackRecovery::Reading { .. }, RecoveryReply::Record(stored)) => later == earlier
            && reads_record(stored, earlier),
        (RollbackRecovery::ReadingContext { .. }, RecoveryReply::Context(context)) => later
            == earlier && (context matches Ok(envelope) ==> earlier.before is Some
            && earlier.before->0 == envelope),
        (RollbackRecovery::Cleaning, RecoveryReply::Done(done)) => match done {
            Ok(_) => later.record is None && later.candidate is None && later.before is None,
            Err(_) => later == earlier || later.record is None,
        },
        _ => later == earlier,
    }
}

/// One piece of work of undoing an operation.
pub struct RollbackMoment {
    pub operation: RollbackRecovery,
    pub reply: RecoveryReply,
    pub earlier: Disk,
    pub later: Disk,
}

/// Whether the moments are a run of undoing an operation.
pub open spec fn is_rollback_run(run: Seq<RollbackMoment>) -> bool {
    &&& run.len() > 0
    &&& run[0].operation is Reading
    &&& forall|i: int|
        0 <= i < run.len() ==> {
            let moment = #[trigger] run[i];
            rollback_work(moment.operation, moment.reply, moment.earlier, moment.later)
        }
    &&& forall|i: int|
        1 <= i < run.len() ==> {
            let before = run[i - 1];
            let moment = #[trigger] run[i];
            moment.earlier == before.later && (before.operation.next(
                before.reply,
            ) matches StepView::Perform { operation, .. } && operation == moment.operation)
        }
}

/// Where undoing is after `i` pieces of work: nothing of the slot has changed before it is
/// emptied, and what is put in place is the state from before the operation.
pub open spec fn rollback_place(run: Seq<RollbackMoment>, i: int) -> bool {
    &&& run[i].earlier == run[0].earlier
    &&& match run[i].operation {
        RollbackRecovery::Reading { .. } => i == 0,
        RollbackRecovery::ReadingContext { .. } => i == 1,
        RollbackRecovery::Applying { before } => i == 2 && run[0].earlier.before is Some && before
            == run[0].earlier.before->0.before,
        RollbackRecovery::Cleaning => i == 3,
    }
}

proof fn lemma_rollback_place(run: Seq<RollbackMoment>, i: int)
    requires
        is_rollback_run(run),
        0 <= i < run.len(),
    ensures
        rollback_place(run, i),
    decreases i,
{
    if i > 0 {
        lemma_rollback_place(run, i - 1);
        let before = run[i - 1];
        assert(run[i].earlier == before.later);
        assert(rollback_work(before.operation, before.reply, before.earlier, before.later));
    }
}

/// Where undoing an operation succeeds, the client's state was put in place exactly once,
/// and it was exactly the state from before the operation; the slot is empty.
pub proof fn law_successful_rollback_applies_once(run: Seq<RollbackMoment>) -> (at: int)
    requires
        is_rollback_run(run),
        run.last().operation.next(run.last().reply) matches StepView::Finished(Ok(_)),
    ensures
        0 <= at < run.len(),
        run[0].earlier.before is Some,
        run[at].operation == (RollbackRecovery::Applying {
            before: run[0].earlier.before->0.before,
        }),
        run[at].reply matches RecoveryReply::Done(Ok(_)),
        forall|i: int|
            0 <= i < run.len() && (#[trigger] run[i]).operation is Applying ==> i == at,
        run.last().later.record is None,
        run.last().later.candidate is None,
        run.last().later.before is None,
{
    let last = run.len() - 1;
    lemma_rollback_place(run, last);
    assert(rollback_work(
        run[last].operation,
        run[last].reply,
        run[last].earlier,
        run[last].later,
    ));
    let at = 2int;
    lemma_rollback_place(run, at);
    assert(run[3].earlier == run[2].later);
    assert forall|i: int| 0 <= i < run.len() && (#[trigger] run[i]).operation is Applying implies i
        == at by {
        lemma_rollback_place(run, i);
    }
    at
}

/// Where putting the state in place fails, that is the error, and the slot is as it was. A
/// committed operation is not undone: nothing but the record is read.
pub proof fn law_failed_rollback_keeps_the_slot(run: Seq<RollbackMoment>, i: int)
    requires
        is_rollback_run(run),
        0 <= i < run.len(),
    ensures
        run[i].operation is Applying && run[i].reply is Done && run[i].reply->Done_0 is Err ==> {
            &&& run[i].operation.next(run[i].reply) == step::failing::<RollbackRecovery, ()>(
                run[i].reply->Done_0->Err_0@,
            )
            &&& run[i].later == run[0].earlier
        },
        run[0].earlier.record is Some && run[0].earlier.record->0.state
            == RecoveryState::Committed ==> {
            &&& i == 0
            &&& run[0].operation.next(run[0].reply) matches StepView::Finished(Err(_))
            &&& run[0].later == run[0].earlier
        },
{
    lemma_rollback_place(run, i);
    assert(rollback_work(run[i].operation, run[i].reply, run[i].earlier, run[i].later));
    assert(rollback_work(run[0].operation, run[0].reply, run[0].earlier, run[0].later));
    if i > 0 {
        assert(run[1].earlier == run[0].later);
    }
}

/// What undoing an operation came to.
pub open spec fn rollback_end(run: Seq<RollbackMoment>) -> StepView<RollbackRecovery, ()> {
    run.last().operation.next(run.last().reply)
}

/// Whether the client's state was put in place by this piece of work alone, and it was
/// exactly the state from before the operation.
pub open spec fn is_only_application(run: Seq<RollbackMoment>, at: int) -> bool {
    &&& 0 <= at < run.len()
    &&& run[0].earlier.before is Some
    &&& run[at].operation == (RollbackRecovery::Applying {
        before: run[0].earlier.before->0.before,
    })
    &&& run[at].reply matches RecoveryReply::Done(Ok(_))
    &&& forall|i: int| 0 <= i < run.len() && (#[trigger] run[i]).operation is Applying ==> i == at
}

/// Undoing an operation: where putting the state in place fails, that is the error, and the
/// slot is as it was. A committed operation is not undone, and nothing is put in place.
/// Where undoing succeeds, the state was put in place exactly once, it was exactly the
/// state from before, and the slot is empty.
pub proof fn law_undoing_an_operation(run: Seq<RollbackMoment>)
    requires
        is_rollback_run(run),
        rollback_end(run) is Finished,
        run[0].earlier.record is Some,
    ensures
        forall|i: int|
            0 <= i < run.len() && (#[trigger] run[i]).operation is Applying && run[i].reply is Done
                && run[i].reply->Done_0 is Err ==> {
                &&& rollback_end(run) == step::failing::<RollbackRecovery, ()>(
                    run[i].reply->Done_0->Err_0@,
                )
                &&& run.last().later == run[0].earlier
            },
        run[0].earlier.record->0.state == RecoveryState::Committed ==> {
            &&& rollback_end(run)->Finished_0 is Err
            &&& run.len() == 1
            &&& run[0].later == run[0].earlier
        },
        rollback_end(run)->Finished_0 is Ok ==> {
            &&& exists|at: int| is_only_application(run, at)
            &&& run.last().later.record is None
        },
{
    let last = run.len() - 1;
    assert forall|i: int|
        0 <= i < run.len() && (#[trigger] run[i]).operation is Applying && run[i].reply is Done
            && run[i].reply->Done_0 is Err implies {
        &&& rollback_end(run) == step::failing::<RollbackRecovery, ()>(
            run[i].reply->Done_0->Err_0@,
        )
        &&& run.last().later == run[0].earlier
    } by {
        law_failed_rollback_keeps_the_slot(run, i);
        if i < last {
            assert(run[i + 1].earlier == run[i].later);
        }
    }
    law_failed_rollback_keeps_the_slot(run, last);
    if rollback_end(run)->Finished_0 is Ok {
        let at = law_successful_rollback_applies_once(run);
        assert(is_only_application(run, at));
    }
}

/// What the work of committing an operation does to the slot. Moving the record that failed
/// may have been done or not.
pub open spec fn commit_work(
    operation: CommitRecovery,
    reply: RecoveryReply,
    earlier: Disk,
    later: Disk,
) -> bool {
    match (operation, reply) {
        (CommitRecovery::Moving { .. }, RecoveryReply::Moved(moved)) => {
            let committed = Disk {
                record: Some(
                    RecoveryRecord { state: RecoveryState::Committed, ..earlier.record->0 },
                ),
                ..earlier
            };
            match moved {
                Ok(_) => earlier.record is Some && later == committed,
                Err(_) => later == earlier || (earlier.record is Some && later == committed),
            }
        },
        (CommitRecovery::Cleaning, RecoveryReply::Done(done)) => match done {
            Ok(_) => later.record is None && later.candidate is None && later.before is None,
            Err(_) => later == earlier || later.record is None,
        },
        _ => later == earlier,
    }
}

/// Committing an operation, in two pieces of work: where moving the record fails, that is the
/// error, and the slot is as it was, where a record that could not be saved leaves what was
/// there before. Once the record says that the operation is committed, the commit has
/// succeeded: where only emptying the slot fails, that is no error, and a record that is left
/// says that the operation is committed.
pub proof fn law_commit_outcomes(
    operation: CommitRecovery,
    moved: Result<RecoveryRecord, AppError>,
    cleaned: Result<(), AppError>,
    first: Disk,
    between: Disk,
    last: Disk,
)
    requires
        operation is Moving,
        commit_work(operation, RecoveryReply::Moved(moved), first, between),
        commit_work(CommitRecovery::Cleaning, RecoveryReply::Done(cleaned), between, last),
    ensures
        match operation.next(RecoveryReply::Moved(moved)) {
            StepView::Finished(result) => {
                &&& moved is Err
                &&& result is Err
                &&& between.record == first.record ==> between == first
            },
            StepView::Perform { operation: next, .. } => {
                &&& moved is Ok
                &&& next is Cleaning
                &&& next.next(RecoveryReply::Done(cleaned)) == StepView::<
                    CommitRecovery,
                    CleanupOutcomeView,
                >::Finished(Ok(recovery::outcome_of(cleaned)))
                &&& last.record is None || (last.record->0.state == RecoveryState::Committed
                    && last.record->0.id == first.record->0.id)
                &&& cleaned is Ok ==> last.record is None && last.candidate is None && last.before
                    is None
            },
        },
{
}

/// An operation that is committed is moved no more: it cannot be committed again.
pub proof fn law_committed_operation_is_not_moved(
    id: String,
    state: RecoveryState,
    stored: StoredRecord,
    disk: Disk,
)
    requires
        reads_record(stored, disk),
        disk.record is None || disk.record->0.state == RecoveryState::Committed,
    ensures
        (MoveRecord::Reading { id, state }).next(
            RecoveryReply::Record(stored),
        ) matches StepView::Finished(Err(_)),
{
}

} // verus!
