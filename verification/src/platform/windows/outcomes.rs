//! What each call that moves the client's files comes to, all its outcomes in one law:
//! beginning a login, applying a saved account, committing and undoing a switch, and
//! undoing whatever is in the slot.

use vstd::prelude::*;

use crate::contracts::LoginSessionSnapshot;
use crate::platform::windows::config;
use crate::platform::windows::crash_safety;
use crate::platform::windows::crash_safety::ApplyMoment;
use crate::platform::windows::crash_safety::BeginMoment;
use crate::platform::windows::crash_safety::Disk;
use crate::platform::windows::crash_safety::PrepareMoment;
use crate::platform::windows::crash_safety::RollbackMoment;
use crate::platform::windows::login_session::BeginLogin;
use crate::platform::windows::login_session::SessionReply;
use crate::platform::windows::recovery;
use crate::platform::windows::recovery::RecoveryReply;
use crate::platform::windows::recovery::RecoveryState;
use crate::platform::windows::recovery::RollbackRecovery;
use crate::platform::windows::restore::ApplyJob;
use crate::platform::windows::restore::ApplySnapshot;
use crate::platform::windows::restore::RestoreReceipt;
use crate::platform::windows::restore::RestoreReply;
use crate::platform::windows::restore::RollbackSwitch;
use crate::platform::windows::snapshot;
use crate::platform::windows::snapshot::FileView;
use crate::platform::windows::transactions;
use crate::platform::windows::transactions::CommitCall;
use crate::platform::windows::transactions::RollbackCall;
use crate::step::Step;
use crate::step::StepView;

verus! {

/// Whether a preparation failed by the moments, where a record that could not be written
/// left what was there before.
pub open spec fn preparation_failed(
    earlier: Disk,
    later: Disk,
    moments: Seq<PrepareMoment>,
) -> bool {
    &&& crash_safety::is_prepare_run(moments)
    &&& moments[0].earlier == earlier
    &&& moments.last().later == later
    &&& moments.last().step matches Step::Finished(Err(_))
    &&& forall|i: int|
        0 <= i < moments.len() ==> crash_safety::prepares_atomically(#[trigger] moments[i])
}

/// What beginning a login came to.
pub open spec fn begin_end(run: Seq<BeginMoment>) -> StepView<BeginLogin, LoginSessionSnapshot> {
    run.last().operation.next(run.last().reply)
}

/// Whether the run is a whole call of beginning a login in which giving up and undoing
/// succeed, where it comes to that; `preparation` is how preparing failed, where it did.
pub open spec fn is_begin_call(run: Seq<BeginMoment>, preparation: Seq<PrepareMoment>) -> bool {
    &&& crash_safety::is_begin_run(run)
    &&& begin_end(run) is Finished
    &&& forall|i: int|
        0 <= i < run.len() ==> {
            let moment = #[trigger] run[i];
            &&& crash_safety::answers_begin(moment.operation, moment.reply)
            &&& moment.operation is Discarding || moment.operation is RollingBack
                ==> moment.reply->Done_0 is Ok
            &&& moment.reply matches SessionReply::Prepared(Err(_)) ==> preparation_failed(
                moment.earlier,
                moment.later,
                preparation,
            )
        }
}

/// Whether the work of beginning a login failed.
pub open spec fn begin_fails(moment: BeginMoment) -> bool {
    match moment.reply {
        SessionReply::Prepared(prepared) => prepared is Err,
        SessionReply::Moved(moved) => moved is Err,
        SessionReply::Done(done) => done is Err,
        _ => false,
    }
}

/// A login that is begun waits for the user: its record is that of the session, beside a
/// complete copy of the client's files, and of these only the configuration has changed,
/// whose one field of account names is emptied. A login that is not begun, because the
/// client is not stopped, because there is not exactly one such field, because a record
/// could not be written, or for another reason, leaves the client's files as they were and
/// no record.
pub proof fn law_beginning_a_login(run: Seq<BeginMoment>, preparation: Seq<PrepareMoment>)
    requires
        is_begin_call(run, preparation),
        run[0].earlier.record is None,
    ensures
        match begin_end(run)->Finished_0 {
            Ok(session) => {
                &&& crash_safety::is_login_of(run.last().later, session)
                &&& run.last().later.record->0.state == RecoveryState::AwaitingUser
                &&& run.last().later.undoable()
                &&& run.last().later.before == Some(run[0].earlier.active)
                &&& crash_safety::config_cleared(run.last().later, run[0].earlier)
            },
            Err(_) => {
                &&& run.last().later.active == run[0].earlier.active
                &&& run.last().later.record is None
            },
        },
        forall|i: int|
            0 <= i < run.len() && begin_fails(#[trigger] run[i]) ==> begin_end(run)->Finished_0
                is Err,
        config::cleared_config(run[0].earlier.config) is Err ==> begin_end(run)->Finished_0 is Err,
{
    let last = run.len() - 1;
    crash_safety::law_beginning_a_login_is_recoverable(run, last);
    let moment = run[last];
    if moment.reply matches SessionReply::Prepared(Err(_)) {
        crash_safety::law_failed_preparation_leaves_no_record(
            preparation,
            preparation.len() - 1,
        );
    }
    assert(crash_safety::begins_cleanly(moment));
    assert forall|i: int| 0 <= i < run.len() && begin_fails(#[trigger] run[i]) implies begin_end(
        run,
    )->Finished_0 is Err by {
        if i < last {
            let next = run[i + 1];
            assert(next.operation is Discarding || next.operation is RollingBack);
            if i + 1 < last {
                let after = run[i + 2];
                assert(after.earlier == next.later);
            }
        }
    }
}

/// What applying a saved account came to.
pub open spec fn apply_end(run: Seq<ApplyMoment>) -> StepView<ApplySnapshot, RestoreReceipt> {
    run.last().operation.next(run.last().reply)
}

/// Whether the run is a whole call of applying what the job names, in which giving up and
/// undoing succeed, where it comes to that; `preparation` is how preparing failed, where it
/// did.
pub open spec fn is_apply_call(
    run: Seq<ApplyMoment>,
    job: ApplyJob,
    preparation: Seq<PrepareMoment>,
) -> bool {
    &&& crash_safety::is_apply_run(run)
    &&& run[0].operation == ApplySnapshot::CheckingSlot { job }
    &&& apply_end(run) is Finished
    &&& forall|i: int|
        0 <= i < run.len() ==> {
            let moment = #[trigger] run[i];
            &&& crash_safety::answers_apply(moment.operation, moment.reply)
            &&& moment.operation is Discarding || moment.operation is RollingBack
                ==> moment.reply->Done_0 is Ok
            &&& moment.reply matches RestoreReply::Prepared(Err(_)) ==> preparation_failed(
                moment.earlier,
                moment.later,
                preparation,
            )
        }
}

/// Whether the operation, as long as it goes well, is one of the job.
pub open spec fn applies(operation: ApplySnapshot, job: ApplyJob) -> bool {
    match operation {
        ApplySnapshot::CheckingSlot { job: kept }
        | ApplySnapshot::CheckingActive { job: kept }
        | ApplySnapshot::CheckingTarget { job: kept }
        | ApplySnapshot::CheckingPath { job: kept }
        | ApplySnapshot::CheckingSpace { job: kept }
        | ApplySnapshot::Preparing { job: kept }
        | ApplySnapshot::ConfirmingStopped { job: kept, .. }
        | ApplySnapshot::Replacing { job: kept, .. } => kept == job,
        ApplySnapshot::Discarding { .. } | ApplySnapshot::RollingBack { .. } => true,
    }
}

proof fn lemma_apply_keeps_the_job(run: Seq<ApplyMoment>, job: ApplyJob, i: int)
    requires
        crash_safety::is_apply_run(run),
        run[0].operation == (ApplySnapshot::CheckingSlot { job }),
        0 <= i < run.len(),
    ensures
        applies(run[i].operation, job),
    decreases i,
{
    if i > 0 {
        lemma_apply_keeps_the_job(run, job, i - 1);
        assert(run[i].earlier == run[i - 1].later);
    }
}

/// Whether the disk is one on which the job was applied: the client's files are those of
/// the target, and the slot holds the prepared switch beside a complete copy of the files
/// from before.
pub open spec fn is_applied(
    disk: Disk,
    job: ApplyJob,
    receipt: RestoreReceipt,
    original: Set<FileView>,
) -> bool {
    &&& disk.active == snapshot::contents(job.target.files@)
    &&& crash_safety::is_prepared_switch(disk, job, receipt.operation_id)
    &&& disk.undoable()
    &&& disk.before == Some(original)
}

/// Where the slot holds a record, applying a saved account fails at once: nothing is
/// changed, and it is not asked whether the client is stopped. Where it holds none, the
/// account is applied, or the client's files are as they were and there is no record. Where
/// the client is not stopped, that is the error.
pub proof fn law_applying_a_saved_account(
    run: Seq<ApplyMoment>,
    job: ApplyJob,
    preparation: Seq<PrepareMoment>,
)
    requires
        is_apply_call(run, job, preparation),
    ensures
        run[0].earlier.record is Some ==> {
            &&& run.len() == 1
            &&& apply_end(run)->Finished_0 is Err
            &&& run[0].later == run[0].earlier
        },
        run[0].earlier.record is None ==> match apply_end(run)->Finished_0 {
            Ok(receipt) => is_applied(run.last().later, job, receipt, run[0].earlier.active),
            Err(_) => {
                &&& run.last().later.active == run[0].earlier.active
                &&& run.last().later.record is None
            },
        },
        forall|i: int|
            0 <= i < run.len() && (#[trigger] run[i]).operation is ConfirmingStopped
                && run[i].reply->Done_0 is Err ==> apply_end(run) == StepView::<
                ApplySnapshot,
                RestoreReceipt,
            >::Finished(Err(run[i].reply->Done_0->Err_0@)),
{
    let last = run.len() - 1;
    assert(crash_safety::answers_apply(run[0].operation, run[0].reply));
    if run[0].earlier.record is Some {
        crash_safety::law_applying_needs_an_empty_slot(run);
    }
    crash_safety::law_applying_is_recoverable(run, last);
    lemma_apply_keeps_the_job(run, job, last);
    let moment = run[last];
    if moment.reply matches RestoreReply::Prepared(Err(_)) {
        crash_safety::law_failed_preparation_leaves_no_record(
            preparation,
            preparation.len() - 1,
        );
    }
    assert(run[0].earlier.record is None ==> crash_safety::applies_cleanly(moment));
    assert forall|i: int|
        0 <= i < run.len() && (#[trigger] run[i]).operation is ConfirmingStopped
            && run[i].reply->Done_0 is Err implies apply_end(run) == StepView::<
        ApplySnapshot,
        RestoreReceipt,
    >::Finished(Err(run[i].reply->Done_0->Err_0@)) by {
        assert(crash_safety::answers_apply(run[i].operation, run[i].reply));
        if i < last {
            let next = run[i + 1];
            assert(next.operation is Discarding);
            assert(crash_safety::answers_apply(next.operation, next.reply));
            if i + 1 < last {
                let after = run[i + 2];
                assert(after.earlier == next.later);
            }
        }
    }
}

/// A switch that was applied can be committed: the client's files stay those of the target,
/// the slot is empty, and the switch can then be neither committed again nor undone. Where
/// its record cannot be written, that is an error, the switch stays as it was, and where
/// the work of undoing it succeeds, the files from before are back.
pub proof fn law_committing_an_applied_switch(
    job: ApplyJob,
    receipt: RestoreReceipt,
    original: Set<FileView>,
    commit: CommitCall,
    again: CommitCall,
    undoing: RollbackCall,
)
    requires
        is_applied(commit.earlier, job, receipt, original),
        commit.commits_switch(receipt.operation_id),
        again.commits_switch(receipt.operation_id),
        again.earlier == commit.later,
        undoing.undoes_switch(receipt.operation_id),
        undoing.earlier == commit.later,
    ensures
        match commit.switch_result(receipt.operation_id) {
            StepView::Finished(Ok(outcome)) => {
                &&& commit.later.active == snapshot::contents(job.target.files@)
                &&& outcome is Committed ==> commit.later.record is None && commit.later.before
                    is None
                &&& again.switch_result(receipt.operation_id) matches StepView::Finished(Err(_))
                &&& again.later == commit.later
                &&& undoing.switch_result(receipt.operation_id) matches StepView::Finished(Err(_))
                &&& undoing.later == commit.later
            },
            StepView::Finished(Err(_)) => commit.atomic() ==> {
                &&& commit.later == commit.earlier
                &&& undoing.succeeds() ==> {
                    &&& undoing.switch_result(receipt.operation_id) matches StepView::Finished(
                        Ok(_),
                    )
                    &&& undoing.later.active == original
                    &&& undoing.later.record is None
                }
            },
            StepView::Perform { .. } => false,
        },
        commit.switch_step(receipt.operation_id) is Perform ==> forall|i: int|
            0 <= i < commit.run.len() && ((#[trigger] commit.run[i]).reply matches
                RecoveryReply::Written(written) && recovery::write_error(written) is Some)
                ==> commit.switch_result(receipt.operation_id) matches StepView::Finished(Err(_)),
{
    let id = receipt.operation_id;
    match commit.switch_result(id) {
        StepView::Finished(Ok(_)) => {
            transactions::law_committed_switch_is_final(id, commit, again, undoing);
        },
        StepView::Finished(Err(_)) => {
            if commit.atomic() {
                if commit.switch_step(id) is Perform {
                    transactions::lemma_commit_call(commit, commit.stored->0->Ok_0.id@);
                }
                if undoing.succeeds() {
                    transactions::law_failed_switch_commit_can_be_undone(
                        id,
                        commit,
                        undoing,
                        original,
                    );
                }
            }
        },
        StepView::Perform { .. } => {},
    }
    if commit.switch_step(id) is Perform {
        let last = commit.run.len() - 1;
        assert forall|i: int|
            0 <= i < commit.run.len() && ((#[trigger] commit.run[i]).reply matches
                RecoveryReply::Written(written) && recovery::write_error(written) is Some) implies
            commit.switch_result(id) matches StepView::Finished(Err(_)) by {
            assert(transactions::answers_commit(commit.run[i]));
            if i < last {
                assert(commit.run[i + 1].earlier == commit.run[i].later);
            }
        }
    }
}

/// A switch that was applied and not committed can be undone, whatever has become of the
/// client's files since: where undoing it succeeds, they are exactly those from before, and
/// there is no record. Where the client is not stopped, that is the error, and nothing is
/// changed.
pub proof fn law_undoing_an_applied_switch(
    job: ApplyJob,
    receipt: RestoreReceipt,
    original: Set<FileView>,
    applied: Disk,
    undoing: RollbackCall,
)
    requires
        is_applied(applied, job, receipt, original),
        undoing.earlier == (Disk {
            active: undoing.earlier.active,
            config: undoing.earlier.config,
            ..applied
        }),
        undoing.undoes_switch(receipt.operation_id),
    ensures
        undoing.switch_result(receipt.operation_id) matches StepView::Finished(Ok(_)) ==> {
            &&& undoing.later.active == original
            &&& undoing.later.record is None
        },
        undoing.succeeds() ==> (undoing.switch_result(
            receipt.operation_id,
        ) matches StepView::Finished(Ok(_))),
        undoing.switch_step(receipt.operation_id) is Perform ==> forall|i: int|
            0 <= i < undoing.run.len() && (#[trigger] undoing.run[i]).operation
                is ConfirmingStopped && undoing.run[i].reply is Done
                && undoing.run[i].reply->Done_0 is Err ==> {
                &&& undoing.switch_result(receipt.operation_id) == StepView::<
                    RollbackSwitch,
                    (),
                >::Finished(Err(undoing.run[i].reply->Done_0->Err_0@))
                &&& undoing.later == undoing.earlier
            },
{
    let id = receipt.operation_id;
    let run = undoing.run;
    let last = run.len() - 1;
    if undoing.switch_step(id) is Perform {
        crash_safety::law_rollback_restores_the_files(run, last, original);
        if undoing.succeeds() {
            assert(transactions::rollback_succeeds(run[last]));
        }
        assert forall|i: int|
            0 <= i < run.len() && (#[trigger] run[i]).operation is ConfirmingStopped
                && run[i].reply is Done && run[i].reply->Done_0 is Err implies {
            &&& undoing.switch_result(id) == StepView::<RollbackSwitch, ()>::Finished(
                Err(run[i].reply->Done_0->Err_0@),
            )
            &&& undoing.later == undoing.earlier
        } by {
            if i < last {
                assert(run[i + 1].earlier == run[i].later);
            }
            lemma_unchanged_until_stopped(run, i);
        }
    }
}

proof fn lemma_unchanged_until_stopped(run: Seq<RollbackMoment>, i: int)
    requires
        crash_safety::is_rollback_run(run),
        0 <= i < run.len(),
        transactions::rollback_rank(run[i].operation) <= 4,
    ensures
        run[i].earlier == run[0].earlier,
        run[i].later == run[0].earlier,
    decreases i,
{
    assert(crash_safety::rollback_work(
        run[i].operation,
        run[i].reply,
        run[i].earlier,
        run[i].later,
    ));
    if i > 0 {
        assert(run[i].earlier == run[i - 1].later);
        lemma_unchanged_until_stopped(run, i - 1);
    }
}

/// What undoing an operation came to.
pub open spec fn rollback_end(run: Seq<RollbackMoment>) -> StepView<RollbackRecovery, ()> {
    run.last().operation.next(run.last().reply)
}

/// Whether the client's files were written by this piece of work alone, and with exactly
/// the files that are given.
pub open spec fn is_only_write(run: Seq<RollbackMoment>, at: int, files: Set<FileView>) -> bool {
    &&& 0 <= at < run.len()
    &&& run[at].operation matches RollbackRecovery::Replacing { files: written }
        && snapshot::contents(written@) == files
    &&& run[at].reply matches RecoveryReply::Done(Ok(_))
    &&& forall|i: int| 0 <= i < run.len() && (#[trigger] run[i]).operation is Replacing ==> i == at
}

/// Undoing an operation: where writing the copy back fails, that is the error, and the
/// record and the copy are kept. A committed operation is not undone, and nothing is
/// written. Where undoing succeeds, the files were written exactly once, with exactly the
/// copy, and there is no record.
pub proof fn law_undoing_an_operation(run: Seq<RollbackMoment>, original: Set<FileView>)
    requires
        crash_safety::is_rollback_run(run),
        rollback_end(run) is Finished,
        run[0].earlier.record is Some,
        run[0].earlier.before == Some(original),
    ensures
        forall|i: int|
            0 <= i < run.len() && (#[trigger] run[i]).operation is Replacing && run[i].reply is Done
                && run[i].reply->Done_0 is Err ==> {
                &&& rollback_end(run) == StepView::<RollbackRecovery, ()>::Finished(
                    Err(run[i].reply->Done_0->Err_0@),
                )
                &&& run.last().later.record == run[0].earlier.record
                &&& run.last().later.before == Some(original)
            },
        run[0].earlier.record->0.state == RecoveryState::Committed ==> {
            &&& rollback_end(run)->Finished_0 is Err
            &&& run.len() == 1
            &&& run[0].later == run[0].earlier
        },
        rollback_end(run)->Finished_0 is Ok ==> {
            &&& exists|at: int| is_only_write(run, at, original)
            &&& run.last().later.active == original
            &&& run.last().later.record is None
        },
{
    let last = run.len() - 1;
    assert forall|i: int|
        0 <= i < run.len() && (#[trigger] run[i]).operation is Replacing && run[i].reply is Done
            && run[i].reply->Done_0 is Err implies {
        &&& rollback_end(run) == StepView::<RollbackRecovery, ()>::Finished(
            Err(run[i].reply->Done_0->Err_0@),
        )
        &&& run.last().later.record == run[0].earlier.record
        &&& run.last().later.before == Some(original)
    } by {
        transactions::law_failed_rollback_keeps_the_slot(run, i);
        if i < last {
            assert(run[i + 1].earlier == run[i].later);
        }
    }
    transactions::law_failed_rollback_keeps_the_slot(run, last);
    if rollback_end(run)->Finished_0 is Ok {
        assert(crash_safety::rollback_work(
            run[0].operation,
            run[0].reply,
            run[0].earlier,
            run[0].later,
        ));
        if last > 0 {
            assert(run[1].earlier == run[0].later);
        }
        let at = transactions::law_successful_rollback_writes_once(run, original);
        assert(is_only_write(run, at, original));
    }
}

} // verus!
