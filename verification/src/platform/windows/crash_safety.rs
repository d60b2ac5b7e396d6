//! What the operations on the recovery slot guarantee, whatever comes of their
//! work and wherever they are interrupted: the client's files are as they were
//! before the operation, or the slot holds what is needed to bring them back.
//!
//! The laws speak of runs: an operation names its work, the work changes what is
//! on the disk and gives an answer, and the answer leads to the next step.

use vstd::prelude::*;

use crate::contracts::LoginSessionSnapshot;
use crate::error::ErrorView;
use crate::outside;
use crate::platform::windows::config;
use crate::platform::windows::login_session::BeginLogin;
use crate::platform::windows::login_session::SessionReply;
use crate::platform::windows::recovery;
use crate::platform::windows::recovery::CleanupRecovery;
use crate::platform::windows::recovery::CleanupReply;
use crate::platform::windows::recovery::CommitOutcomeView;
use crate::platform::windows::recovery::CommitRecovery;
use crate::platform::windows::recovery::DropRecovery;
use crate::platform::windows::recovery::PrepareJob;
use crate::platform::windows::recovery::PrepareRecovery;
use crate::platform::windows::recovery::PrepareReply;
use crate::platform::windows::recovery::RecoveryKind;
use crate::platform::windows::recovery::RecoveryRecord;
use crate::platform::windows::recovery::RecoveryReply;
use crate::platform::windows::recovery::RecoveryState;
use crate::platform::windows::recovery::RollbackRecovery;
use crate::platform::windows::restore;
use crate::platform::windows::restore::ApplyJob;
use crate::platform::windows::restore::ApplySnapshot;
use crate::platform::windows::restore::RestoreReceipt;
use crate::platform::windows::restore::RestoreReply;
use crate::platform::windows::snapshot;
use crate::platform::windows::snapshot::FileView;
use crate::step::Step;
use crate::step::StepView;

verus! {

/// What matters of the disk: the client's files, the contents of the client's
/// configuration, the copy that is being made, the published copy, and the record.
pub struct Disk {
    pub active: Set<FileView>,
    pub config: Seq<u8>,
    pub staged: Option<Set<FileView>>,
    pub before: Option<Set<FileView>>,
    pub record: Option<RecoveryRecord>,
}

impl Disk {
    /// Whether the slot holds an operation that can be undone.
    pub open spec fn undoable(self) -> bool {
        &&& self.record is Some
        &&& recovery::record_error(self.record->0) is None
        &&& self.record->0.state != RecoveryState::Committed
    }

    /// Whether the client's files are `original`, or can be brought back to it.
    pub open spec fn recoverable(self, original: Set<FileView>) -> bool {
        self.active == original || (self.undoable() && self.before == Some(original))
    }

    /// Whether this is the disk after the slot was emptied, or after an attempt
    /// to empty it failed: the record goes first, and the copy only after it.
    pub open spec fn emptied(self, earlier: Disk, succeeded: bool) -> bool {
        &&& self.active == earlier.active
        &&& self.config == earlier.config
        &&& if succeeded {
            self.record is None && self.before is None
        } else {
            (self.record == earlier.record && self.before == earlier.before) || self.record is None
        }
    }
}

/// What the work of a preparation does to the disk.
pub open spec fn prepare_work(
    operation: PrepareRecovery,
    reply: PrepareReply,
    earlier: Disk,
    later: Disk,
) -> bool {
    match (operation, reply) {
        (PrepareRecovery::CheckingSlot { .. }, PrepareReply::Slot(facts)) => later == earlier && (
        facts.record_exists == (earlier.record is Some)),
        (PrepareRecovery::Capturing { .. }, PrepareReply::Captured(captured)) => {
            &&& later == Disk { staged: later.staged, ..earlier }
            &&& captured is Ok ==> later.staged == Some(earlier.active) && snapshot::contents(
                captured->Ok_0.files@,
            ) == earlier.active
        },
        (PrepareRecovery::Publishing { .. }, PrepareReply::Io(done)) => match done {
            Ok(_) => later == Disk { before: earlier.staged, staged: None, ..earlier },
            Err(_) => later == earlier,
        },
        (PrepareRecovery::RemovingStaging { .. }, _) => later == Disk {
            staged: later.staged,
            ..earlier
        },
        (PrepareRecovery::WritingRecord { record }, PrepareReply::Written(written)) => {
            &&& later == Disk { record: later.record, ..earlier }
            &&& if recovery::write_error(written) is None {
                later.record == Some(record)
            } else {
                later.record == earlier.record || later.record == Some(record)
            }
        },
        (PrepareRecovery::Discarding { .. }, _) => later == Disk { staged: later.staged, ..earlier },
        (PrepareRecovery::CheckingRecord { .. }, PrepareReply::Exists(exists)) => later == earlier
            && exists == (earlier.record is Some),
        (PrepareRecovery::RemovingBefore { .. }, _) => later == Disk {
            before: later.before,
            ..earlier
        },
        _ => later == earlier,
    }
}

/// What holds while an operation is being prepared.
pub open spec fn prepare_holds(
    operation: PrepareRecovery,
    disk: Disk,
    original: Set<FileView>,
) -> bool {
    &&& disk.active == original
    &&& match operation {
        PrepareRecovery::CheckingSlot { job } => outside::uuid_form(job.id@) is Some,
        PrepareRecovery::CheckingActive { job } => disk.record is None && outside::uuid_form(
            job.id@,
        ) is Some,
        PrepareRecovery::CreatingStaging { job } => disk.record is None && outside::uuid_form(
            job.id@,
        ) is Some,
        PrepareRecovery::Capturing { job } => disk.record is None && outside::uuid_form(
            job.id@,
        ) is Some,
        PrepareRecovery::WritingManifest { job, .. } => disk.record is None && disk.staged == Some(
            original,
        ) && outside::uuid_form(job.id@) is Some,
        PrepareRecovery::CheckingFiles { job, .. } => disk.record is None && disk.staged == Some(
            original,
        ) && outside::uuid_form(job.id@) is Some,
        PrepareRecovery::Publishing { job } => disk.record is None && disk.staged == Some(original)
            && outside::uuid_form(job.id@) is Some,
        PrepareRecovery::RemovingStaging { job } => disk.record is None && disk.before == Some(
            original,
        ) && outside::uuid_form(job.id@) is Some,
        PrepareRecovery::WritingRecord { record } => {
            &&& disk.record is None
            &&& disk.before == Some(original)
            &&& recovery::record_error(record) is None
            &&& record.state == RecoveryState::Prepared
        },
        PrepareRecovery::Discarding { .. } | PrepareRecovery::CheckingRecord { .. } => disk.record
            is None || (disk.undoable() && disk.before == Some(original)),
        PrepareRecovery::RemovingBefore { .. } => disk.record is None,
    }
}

/// Whether the operation is a preparation of `job`.
pub open spec fn prepares(operation: PrepareRecovery, job: PrepareJob) -> bool {
    match operation {
        PrepareRecovery::CheckingSlot { job: kept }
        | PrepareRecovery::CheckingActive { job: kept }
        | PrepareRecovery::CreatingStaging { job: kept }
        | PrepareRecovery::Capturing { job: kept }
        | PrepareRecovery::WritingManifest { job: kept, .. }
        | PrepareRecovery::CheckingFiles { job: kept, .. }
        | PrepareRecovery::Publishing { job: kept }
        | PrepareRecovery::RemovingStaging { job: kept } => kept == job,
        PrepareRecovery::WritingRecord { record } => record == recovery::prepared_record(job),
        _ => true,
    }
}

/// Whether a record that could not be written has left what was there before, as it does
/// where it is written under another name and then moved to its place.
pub open spec fn prepares_atomically(moment: PrepareMoment) -> bool {
    moment.reply matches PrepareReply::Written(written) && recovery::write_error(written) is Some
        ==> moment.later.record == moment.earlier.record
}

/// One piece of work of a preparation and the step that it leads to.
pub struct PrepareMoment {
    pub operation: PrepareRecovery,
    pub reply: PrepareReply,
    pub earlier: Disk,
    pub later: Disk,
    pub step: Step<PrepareRecovery, RecoveryRecord>,
}

/// Whether the moments are a run of a preparation.
pub open spec fn is_prepare_run(run: Seq<PrepareMoment>) -> bool {
    &&& run.len() > 0
    &&& run[0].operation matches PrepareRecovery::CheckingSlot { job } && outside::uuid_form(
        job.id@,
    ) is Some
    &&& forall|i: int|
        0 <= i < run.len() ==> {
            let moment = #[trigger] run[i];
            moment.operation.leads_to(moment.reply, moment.step) && prepare_work(
                moment.operation,
                moment.reply,
                moment.earlier,
                moment.later,
            )
        }
    &&& forall|i: int|
        1 <= i < run.len() ==> {
            let before = run[i - 1];
            let moment = #[trigger] run[i];
            moment.earlier == before.later && (before.step matches Step::Perform { operation, .. }
                && operation == moment.operation)
        }
}

proof fn lemma_prepare_step(moment: PrepareMoment, original: Set<FileView>)
    requires
        prepare_holds(moment.operation, moment.earlier, original),
        prepare_work(moment.operation, moment.reply, moment.earlier, moment.later),
        moment.operation.leads_to(moment.reply, moment.step),
    ensures
        moment.later.active == original,
        moment.step matches Step::Perform { operation, .. } ==> prepare_holds(
            operation,
            moment.later,
            original,
        ),
        moment.step matches Step::Finished(Ok(record)) ==> {
            &&& moment.later.record == Some(record)
            &&& moment.later.undoable()
            &&& record.state == RecoveryState::Prepared
            &&& moment.later.before == Some(original)
        },
        !(moment.operation is CheckingSlot) ==> moment.later.record is None || (
        moment.later.undoable() && moment.later.before == Some(original)),
        moment.later.config == moment.earlier.config,
        moment.earlier.record is None && prepares_atomically(moment) && !(
        moment.step matches Step::Finished(Ok(_))) ==> moment.later.record is None,
        forall|job: PrepareJob| #[trigger]
            prepares(moment.operation, job) ==> match moment.step {
                Step::Perform { operation, .. } => prepares(operation, job),
                Step::Finished(Ok(record)) => record == recovery::prepared_record(job),
                Step::Finished(Err(_)) => true,
            },
{
}

/// A preparation never changes the client's files. Wherever it is interrupted,
/// a record that it has written stands beside a complete copy of them; and where
/// it succeeds, the record is that of the operation that was to be prepared.
pub proof fn law_preparation_keeps_the_files(run: Seq<PrepareMoment>, i: int)
    requires
        is_prepare_run(run),
        0 <= i < run.len(),
    ensures
        run[i].later.active == run[0].earlier.active,
        run[0].earlier.record is None ==> run[i].later.record is None || (run[i].later.undoable()
            && run[i].later.before == Some(run[0].earlier.active)),
        run[i].step matches Step::Finished(Ok(record)) ==> {
            &&& run[i].later.record == Some(record)
            &&& run[i].later.undoable()
            &&& record == recovery::prepared_record(run[0].operation->CheckingSlot_job)
            &&& run[i].later.before == Some(run[0].earlier.active)
        },
        run[i].later.config == run[0].earlier.config,
        prepare_holds(run[i].operation, run[i].earlier, run[0].earlier.active),
        prepares(run[i].operation, run[0].operation->CheckingSlot_job),
    decreases i,
{
    let original = run[0].earlier.active;
    if i > 0 {
        law_preparation_keeps_the_files(run, i - 1);
        lemma_prepare_step(run[i - 1], original);
        assert(run[i].earlier == run[i - 1].later);
    }
    lemma_prepare_step(run[i], original);
}

/// A preparation that fails leaves no record, where a record that could not be written
/// leaves what was there before.
pub proof fn law_failed_preparation_leaves_no_record(run: Seq<PrepareMoment>, i: int)
    requires
        is_prepare_run(run),
        0 <= i < run.len(),
        run[0].earlier.record is None,
        forall|j: int| 0 <= j < run.len() ==> prepares_atomically(#[trigger] run[j]),
    ensures
        !(run[i].step matches Step::Finished(Ok(_))) ==> run[i].later.record is None,
        run[i].earlier.record is None,
    decreases i,
{
    law_preparation_keeps_the_files(run, i);
    if i > 0 {
        law_failed_preparation_leaves_no_record(run, i - 1);
        assert(run[i].earlier == run[i - 1].later);
    }
    assert(prepares_atomically(run[i]));
    lemma_prepare_step(run[i], run[0].earlier.active);
}

/// An occupied slot is never taken: the preparation of an operation fails at once
/// where there is a record, and the record and the copy stay as they are.
pub proof fn law_occupied_slot_is_kept(run: Seq<PrepareMoment>)
    requires
        is_prepare_run(run),
        run[0].earlier.record is Some,
        run[0].reply is Slot,
    ensures
        run.len() == 1,
        run[0].step is Finished,
        run[0].step->Finished_0 is Err,
        run[0].later == run[0].earlier,
{
    assert(run[0].operation.leads_to(run[0].reply, run[0].step));
    if run.len() > 1 {
        assert(run[1].earlier == run[0].later);
    }
}

/// What the work of undoing an operation does to the disk.
pub open spec fn rollback_work(
    operation: RollbackRecovery,
    reply: RecoveryReply,
    earlier: Disk,
    later: Disk,
) -> bool {
    match (operation, reply) {
        (RollbackRecovery::Loading { .. }, RecoveryReply::Record(read)) => later == earlier && (read
            is Ok ==> earlier.record == Some(read->Ok_0)),
        (RollbackRecovery::CheckingFiles { files }, RecoveryReply::Done(done)) => later == earlier
            && (done is Ok ==> earlier.before == Some(snapshot::contents(files@))),
        (RollbackRecovery::Replacing { files }, RecoveryReply::Done(done)) => {
            &&& later == Disk { active: later.active, config: later.config, ..earlier }
            &&& done is Ok ==> later.active == snapshot::contents(files@)
        },
        (RollbackRecovery::Replacing { .. }, _) => later == Disk {
            active: later.active,
            config: later.config,
            ..earlier
        },
        (RollbackRecovery::Cleaning, RecoveryReply::Done(done)) => later.emptied(
            earlier,
            done is Ok,
        ),
        _ => later == earlier,
    }
}

/// What holds while an operation is being undone.
pub open spec fn rollback_holds(
    operation: RollbackRecovery,
    disk: Disk,
    original: Set<FileView>,
) -> bool {
    match operation {
        RollbackRecovery::Loading { .. } => disk.recoverable(original) && (disk.undoable()
            ==> disk.before == Some(original)),
        RollbackRecovery::CheckingBefore
        | RollbackRecovery::ReadingManifest
        | RollbackRecovery::CheckingFiles { .. } => disk.undoable() && disk.before == Some(original),
        RollbackRecovery::ConfirmingStopped { files }
        | RollbackRecovery::Replacing { files } => disk.undoable() && disk.before == Some(original)
            && snapshot::contents(files@) == original,
        RollbackRecovery::Cleaning => disk.active == original,
    }
}

/// One piece of work of undoing an operation.
pub struct RollbackMoment {
    pub operation: RollbackRecovery,
    pub reply: RecoveryReply,
    pub earlier: Disk,
    pub later: Disk,
}

/// Whether the moments are a run of undoing an operation.
pub open spec fn is_rollback_run(run: Seq<RollbackMoment>) -> bool {
    &&& run.len() > 0
    &&& run[0].operation is Loading
    &&& forall|i: int|
        0 <= i < run.len() ==> {
            let moment = #[trigger] run[i];
            rollback_work(moment.operation, moment.reply, moment.earlier, moment.later)
        }
    &&& forall|i: int|
        1 <= i < run.len() ==> {
            let before = run[i - 1];
            let moment = #[trigger] run[i];
            moment.earlier == before.later && (before.operation.next(
                before.reply,
            ) matches StepView::Perform { operation, .. } && operation == moment.operation)
        }
}

proof fn lemma_rollback_step(moment: RollbackMoment, original: Set<FileView>)
    requires
        rollback_holds(moment.operation, moment.earlier, original),
        rollback_work(moment.operation, moment.reply, moment.earlier, moment.later),
    ensures
        moment.later.recoverable(original),
        moment.operation.next(moment.reply) matches StepView::Perform { operation, .. }
            ==> rollback_holds(operation, moment.later, original),
        moment.operation.next(moment.reply) matches StepView::Finished(Ok(_)) ==> {
            &&& moment.later.active == original
            &&& moment.later.record is None
            &&& moment.later.before is None
        },
{
}

/// Undoing an operation brings back the client's files exactly. Wherever it is
/// interrupted they are back already or can still be brought back; and where it
/// succeeds they are back and the slot is empty.
pub proof fn law_rollback_restores_the_files(
    run: Seq<RollbackMoment>,
    i: int,
    original: Set<FileView>,
)
    requires
        is_rollback_run(run),
        0 <= i < run.len(),
        run[0].earlier.undoable(),
        run[0].earlier.before == Some(original),
    ensures
        run[i].later.recoverable(original),
        run[i].operation.next(run[i].reply) matches StepView::Finished(Ok(_)) ==> {
            &&& run[i].later.active == original
            &&& run[i].later.record is None
            &&& run[i].later.before is None
        },
        rollback_holds(run[i].operation, run[i].earlier, original),
    decreases i,
{
    if i > 0 {
        law_rollback_restores_the_files(run, i - 1, original);
        lemma_rollback_step(run[i - 1], original);
        assert(run[i].earlier == run[i - 1].later);
    }
    lemma_rollback_step(run[i], original);
}

/// The client's files are replaced only right after it was made sure that the
/// client is stopped, and a committed operation is not undone.
pub proof fn law_rollback_writes_only_while_stopped(
    operation: RollbackRecovery,
    reply: RecoveryReply,
)
    ensures
        operation.next(reply) matches StepView::Perform {
            operation: RollbackRecovery::Replacing { files },
            ..
        } ==> {
            &&& operation == RollbackRecovery::ConfirmingStopped { files }
            &&& reply is Done && reply->Done_0 is Ok
        },
        operation is Loading && reply is Record && reply->Record_0 is Ok
            && reply->Record_0->Ok_0.state == RecoveryState::Committed ==> operation.next(
            reply,
        ) is Finished && operation.next(reply)->Finished_0 is Err,
{
}

/// What the work of committing an operation does to the disk.
pub open spec fn commit_work(
    operation: CommitRecovery,
    reply: RecoveryReply,
    earlier: Disk,
    later: Disk,
) -> bool {
    match (operation, reply) {
        (CommitRecovery::Loading { .. }, RecoveryReply::Record(read)) => later == earlier && (read
            is Ok ==> earlier.record == Some(read->Ok_0)),
        (CommitRecovery::Writing { record }, RecoveryReply::Written(written)) => {
            &&& later == Disk { record: later.record, ..earlier }
            &&& if recovery::write_error(written) is None {
                later.record == Some(record)
            } else {
                later.record == earlier.record || later.record == Some(record)
            }
        },
        (CommitRecovery::Cleaning { .. }, RecoveryReply::Done(done)) => later.emptied(
            earlier,
            done is Ok,
        ),
        _ => later == earlier,
    }
}

/// What holds while an operation is being committed.
pub open spec fn commit_holds(operation: CommitRecovery, disk: Disk) -> bool {
    match operation {
        CommitRecovery::Loading { .. } => true,
        CommitRecovery::Writing { record } => record.state == RecoveryState::Committed,
        CommitRecovery::Cleaning { .. } => disk.record is Some && disk.record->0.state
            == RecoveryState::Committed,
    }
}

/// Committing an operation never changes the client's files, and an operation
/// that was committed cannot be undone any more, whether or not its recovery
/// data could be removed.
pub proof fn law_commit_is_final(
    operation: CommitRecovery,
    reply: RecoveryReply,
    earlier: Disk,
    later: Disk,
)
    requires
        commit_holds(operation, earlier),
        commit_work(operation, reply, earlier, later),
    ensures
        later.active == earlier.active,
        operation.next(reply) matches StepView::Perform { operation: next, .. } ==> commit_holds(
            next,
            later,
        ),
        operation.next(reply) matches StepView::Finished(Ok(_)) ==> !later.undoable(),
        operation.next(reply) matches StepView::Finished(Ok(CommitOutcomeView::Committed))
            ==> later.record is None && later.before is None,
{
}

/// What the work of emptying the slot does to the disk.
pub open spec fn cleanup_work(
    operation: CleanupRecovery,
    reply: CleanupReply,
    earlier: Disk,
    later: Disk,
) -> bool {
    match (operation, reply) {
        (CleanupRecovery::RemovingRecord, CleanupReply::Io(done)) => {
            &&& later == Disk { record: later.record, ..earlier }
            &&& later.record == (if done is Ok {
                None
            } else {
                earlier.record
            })
        },
        (CleanupRecovery::RemovingBefore, CleanupReply::Checked(done)) => {
            &&& later == Disk { before: later.before, ..earlier }
            &&& done is Ok ==> later.before is None
        },
        _ => later == earlier,
    }
}

/// Emptying the slot removes the record first and the copy only after it; at the end
/// nothing is left, and the client's files are as they were.
pub proof fn law_cleanup_empties_the_slot(
    first: CleanupReply,
    second: CleanupReply,
    earlier: Disk,
    between: Disk,
    later: Disk,
)
    requires
        cleanup_work(CleanupRecovery::RemovingRecord, first, earlier, between),
        cleanup_work(CleanupRecovery::RemovingBefore, second, between, later),
    ensures
        CleanupRecovery::RemovingRecord.next(first) matches StepView::Finished(_)
            ==> between.emptied(earlier, false) && between == earlier,
        CleanupRecovery::RemovingRecord.next(first) matches StepView::Perform { operation, .. }
            ==> {
            &&& operation is RemovingBefore
            &&& operation.next(second) matches StepView::Finished(done) && later.emptied(
                earlier,
                done is Ok,
            )
        },
{
}

/// What the work of emptying the slot of one operation does to the disk.
pub open spec fn drop_work(
    operation: DropRecovery,
    reply: RecoveryReply,
    earlier: Disk,
    later: Disk,
) -> bool {
    match (operation, reply) {
        (DropRecovery::Cleaning, RecoveryReply::Done(done)) => later.emptied(earlier, done is Ok),
        _ => later == earlier,
    }
}

/// Giving up an operation empties the slot or fails, and never changes the client's
/// files.
pub proof fn law_dropping_empties_the_slot(
    operation: DropRecovery,
    reply: RecoveryReply,
    earlier: Disk,
    later: Disk,
)
    requires
        drop_work(operation, reply, earlier, later),
    ensures
        operation.next(reply) matches StepView::Perform { .. } ==> later == earlier,
        operation.next(reply) matches StepView::Finished(done) ==> later.emptied(
            earlier,
            done is Ok,
        ),
{
}

/// What the work of applying a saved account does to the disk. Preparing, giving
/// up and undoing are operations of their own, and do what the laws about them
/// say.
pub open spec fn apply_work(
    operation: ApplySnapshot,
    reply: RestoreReply,
    earlier: Disk,
    later: Disk,
    original: Set<FileView>,
) -> bool {
    match (operation, reply) {
        (ApplySnapshot::CheckingSlot { .. }, RestoreReply::Slot(stored)) => later == earlier && (
        stored is None == (earlier.record is None)),
        (ApplySnapshot::Preparing { job }, RestoreReply::Prepared(prepared)) => {
            &&& later.active == earlier.active
            &&& match prepared {
                Ok(record) => {
                    &&& later.record == Some(record)
                    &&& later.undoable()
                    &&& record.state == RecoveryState::Prepared
                    &&& record.kind == restore::switch_kind(job)
                    &&& later.before == Some(earlier.active)
                },
                Err(_) => later.record is None || (later.undoable() && later.before == Some(
                    earlier.active,
                )),
            }
        },
        (ApplySnapshot::Discarding { .. }, RestoreReply::Done(done)) => later.emptied(
            earlier,
            done is Ok,
        ),
        (ApplySnapshot::Replacing { job, .. }, RestoreReply::Done(done)) => {
            &&& later == Disk { active: later.active, config: later.config, ..earlier }
            &&& done is Ok ==> later.active == snapshot::contents(job.target.files@)
        },
        (ApplySnapshot::Replacing { .. }, _) => later == Disk {
            active: later.active,
            config: later.config,
            ..earlier
        },
        (ApplySnapshot::RollingBack { .. }, RestoreReply::Done(done)) => {
            &&& later.recoverable(original)
            &&& done is Ok ==> later.active == original && later.record is None
        },
        _ => later == earlier,
    }
}

/// Whether the slot holds the prepared switch of a job under the given id.
pub open spec fn is_prepared_switch(disk: Disk, job: ApplyJob, id: String) -> bool {
    &&& disk.record is Some
    &&& disk.record->0.id == id
    &&& disk.record->0.state == RecoveryState::Prepared
    &&& disk.record->0.kind == restore::switch_kind(job)
}

/// Whether the answer is one to the work.
pub open spec fn answers_apply(operation: ApplySnapshot, reply: RestoreReply) -> bool {
    match operation {
        ApplySnapshot::CheckingSlot { .. } => reply is Slot,
        ApplySnapshot::CheckingActive { .. } => reply is Flag,
        ApplySnapshot::CheckingSpace { .. } => reply is Space,
        ApplySnapshot::Preparing { .. } => reply is Prepared,
        _ => reply is Done,
    }
}

/// Whether the work left nothing behind where it failed: giving up and undoing
/// succeeded, and a preparation that failed has left no record.
pub open spec fn applies_cleanly(moment: ApplyMoment) -> bool {
    &&& answers_apply(moment.operation, moment.reply)
    &&& (moment.operation is Discarding || moment.operation is RollingBack)
        ==> moment.reply->Done_0 is Ok
    &&& moment.reply matches RestoreReply::Prepared(Err(_)) ==> moment.later.record is None
}

/// What holds while a saved account is being applied.
pub open spec fn apply_holds(
    operation: ApplySnapshot,
    disk: Disk,
    original: Set<FileView>,
) -> bool {
    match operation {
        ApplySnapshot::CheckingSlot { .. } => disk.active == original,
        ApplySnapshot::CheckingActive { .. }
        | ApplySnapshot::CheckingTarget { .. }
        | ApplySnapshot::CheckingPath { .. }
        | ApplySnapshot::CheckingSpace { .. }
        | ApplySnapshot::Preparing { .. } => disk.active == original && disk.record is None,
        ApplySnapshot::ConfirmingStopped { job, id }
        | ApplySnapshot::Replacing { job, id } => disk.active == original && disk.undoable()
            && disk.before == Some(original) && is_prepared_switch(disk, job, id),
        ApplySnapshot::Discarding { .. } => disk.active == original,
        ApplySnapshot::RollingBack { .. } => disk.undoable() && disk.before == Some(original),
    }
}

/// One piece of work of applying a saved account.
pub struct ApplyMoment {
    pub operation: ApplySnapshot,
    pub reply: RestoreReply,
    pub earlier: Disk,
    pub later: Disk,
}

/// Whether the moments are a run of applying a saved account.
pub open spec fn is_apply_run(run: Seq<ApplyMoment>) -> bool {
    &&& run.len() > 0
    &&& run[0].operation is CheckingSlot
    &&& forall|i: int|
        0 <= i < run.len() ==> {
            let moment = #[trigger] run[i];
            apply_work(
                moment.operation,
                moment.reply,
                moment.earlier,
                moment.later,
                run[0].earlier.active,
            )
        }
    &&& forall|i: int|
        1 <= i < run.len() ==> {
            let before = run[i - 1];
            let moment = #[trigger] run[i];
            moment.earlier == before.later && (before.operation.next(
                before.reply,
            ) matches StepView::Perform { operation, .. } && operation == moment.operation)
        }
}

proof fn lemma_apply_step(moment: ApplyMoment, original: Set<FileView>)
    requires
        apply_holds(moment.operation, moment.earlier, original),
        apply_work(moment.operation, moment.reply, moment.earlier, moment.later, original),
    ensures
        moment.later.recoverable(original),
        moment.operation.next(moment.reply) matches StepView::Perform { operation, .. }
            ==> apply_holds(operation, moment.later, original),
        moment.operation.next(moment.reply) matches StepView::Finished(Ok(receipt)) ==> {
            &&& moment.operation matches ApplySnapshot::Replacing { job, .. }
                && moment.later.active == snapshot::contents(job.target.files@)
                && is_prepared_switch(moment.later, job, receipt.operation_id)
            &&& moment.later.undoable()
            &&& moment.later.before == Some(original)
        },
        moment.operation.next(moment.reply) matches StepView::Finished(Err(_)) ==> {
            &&& !(moment.operation is RollingBack && moment.reply is Done
                && moment.reply->Done_0 is Err) && answers_apply(moment.operation, moment.reply)
                ==> moment.later.active == original
            &&& (moment.operation is CheckingSlot ==> moment.earlier.record is None)
                && applies_cleanly(moment) ==> moment.later.record is None
        },
{
}

/// Applying a saved account is safe: wherever it is interrupted, the client's
/// files are as they were or can be brought back. Where it succeeds they are
/// those of the target, and the slot holds the prepared switch with a complete copy
/// of the files from before; where it fails they are as they were, unless undoing
/// failed too, and then they can still be brought back. Where giving up and undoing
/// succeed, a failure leaves no record in a slot that was empty.
pub proof fn law_applying_is_recoverable(run: Seq<ApplyMoment>, i: int)
    requires
        is_apply_run(run),
        0 <= i < run.len(),
    ensures
        run[i].later.recoverable(run[0].earlier.active),
        run[i].operation.next(run[i].reply) matches StepView::Finished(Ok(receipt)) ==> {
            &&& run[i].operation matches ApplySnapshot::Replacing { job, .. } && run[i].later.active
                == snapshot::contents(job.target.files@) && is_prepared_switch(
                run[i].later,
                job,
                receipt.operation_id,
            )
            &&& run[i].later.undoable()
            &&& run[i].later.before == Some(run[0].earlier.active)
        },
        run[i].operation.next(run[i].reply) matches StepView::Finished(Err(_)) ==> {
            &&& !(run[i].operation is RollingBack && run[i].reply is Done && run[i].reply->Done_0
                is Err) && answers_apply(run[i].operation, run[i].reply) ==> run[i].later.active
                == run[0].earlier.active
            &&& run[0].earlier.record is None && applies_cleanly(run[i]) ==> run[i].later.record
                is None
        },
        apply_holds(run[i].operation, run[i].earlier, run[0].earlier.active),
    decreases i,
{
    let original = run[0].earlier.active;
    if i > 0 {
        law_applying_is_recoverable(run, i - 1);
        lemma_apply_step(run[i - 1], original);
        assert(run[i].earlier == run[i - 1].later);
    }
    lemma_apply_step(run[i], original);
}

/// Nothing is applied over another operation: where the slot holds a record, applying a
/// saved account fails at once, without asking whether the client is stopped, and
/// nothing is changed.
pub proof fn law_applying_needs_an_empty_slot(run: Seq<ApplyMoment>)
    requires
        is_apply_run(run),
        run[0].earlier.record is Some,
        run[0].reply is Slot,
    ensures
        run.len() == 1,
        run[0].operation.next(run[0].reply) matches StepView::Finished(Err(_)),
        run[0].later == run[0].earlier,
{
    assert(apply_work(
        run[0].operation,
        run[0].reply,
        run[0].earlier,
        run[0].later,
        run[0].earlier.active,
    ));
    if run.len() > 1 {
        assert(run[1].earlier == run[0].later);
    }
}

/// A saved account is applied only right after it was made sure that the client
/// is stopped; where it is not, the preparation is given up, and that is the error. A
/// replacement that failed is always undone.
pub proof fn law_applying_writes_only_while_stopped(operation: ApplySnapshot, reply: RestoreReply)
    ensures
        operation.next(reply) matches StepView::Perform {
            operation: ApplySnapshot::Replacing { job, id },
            ..
        } ==> {
            &&& operation == ApplySnapshot::ConfirmingStopped { job, id }
            &&& reply is Done && reply->Done_0 is Ok
        },
        operation is ConfirmingStopped && reply is Done && reply->Done_0 is Err ==> (operation.next(
            reply,
        ) matches StepView::Perform { operation: ApplySnapshot::Discarding { id: kept, error }, .. }
            && kept == operation->ConfirmingStopped_id && error == reply->Done_0->Err_0),
        operation is Discarding && reply is Done ==> operation.next(reply) == StepView::<
            ApplySnapshot,
            RestoreReceipt,
        >::Finished(Err(operation->Discarding_error@)),
        operation is Replacing && reply is Done && reply->Done_0 is Err ==> (operation.next(
            reply,
        ) matches StepView::Perform { operation: ApplySnapshot::RollingBack { id: kept, .. }, .. }
            && kept == operation->Replacing_id),
{
}

/// Whether only the client's configuration differs between the two sets of files.
pub open spec fn only_config_differs(earlier: Set<FileView>, later: Set<FileView>) -> bool {
    forall|file: FileView|
        file.name != "Battle.net.config"@ ==> (#[trigger] later.contains(file)
            == earlier.contains(file))
}

/// What the work of beginning a login does to the disk.
pub open spec fn begin_work(
    operation: BeginLogin,
    reply: SessionReply,
    earlier: Disk,
    later: Disk,
    original: Set<FileView>,
) -> bool {
    match (operation, reply) {
        (BeginLogin::CheckingSlot { .. }, SessionReply::Slot(stored)) => later == earlier && (stored
            is None == (earlier.record is None)),
        (BeginLogin::Preparing { kind, .. }, SessionReply::Prepared(prepared)) => {
            &&& later.active == earlier.active
            &&& later.config == earlier.config
            &&& match prepared {
                Ok(record) => {
                    &&& later.record == Some(record)
                    &&& later.undoable()
                    &&& record.kind == kind
                    &&& later.before == Some(earlier.active)
                },
                Err(_) => later.record is None || (later.undoable() && later.before == Some(
                    earlier.active,
                )),
            }
        },
        (BeginLogin::Discarding { .. }, SessionReply::Done(done)) => later.emptied(
            earlier,
            done is Ok,
        ),
        (BeginLogin::Clearing { .. }, SessionReply::Done(done)) => {
            &&& later == Disk { active: later.active, config: later.config, ..earlier }
            &&& done is Ok ==> config::cleared_config(earlier.config) == Ok::<Seq<u8>, ErrorView>(
                later.config,
            ) && only_config_differs(earlier.active, later.active)
        },
        (BeginLogin::Clearing { .. }, _) => later == Disk {
            active: later.active,
            config: later.config,
            ..earlier
        },
        (BeginLogin::Moving { .. }, SessionReply::Moved(moved)) => {
            &&& later == Disk { record: later.record, ..earlier }
            &&& later.undoable()
            &&& later.record->0.id == earlier.record->0.id
            &&& later.record->0.kind == earlier.record->0.kind
            &&& moved is Ok ==> later.record->0.state == RecoveryState::AwaitingUser
        },
        (BeginLogin::RollingBack { .. }, SessionReply::Done(done)) => {
            &&& later.recoverable(original)
            &&& done is Ok ==> later.active == original && later.record is None
        },
        _ => later == earlier,
    }
}

/// Whether the slot holds the record of the login of a session.
pub open spec fn is_login_of(disk: Disk, session: LoginSessionSnapshot) -> bool {
    &&& disk.record is Some
    &&& disk.record->0.id == session.id
    &&& disk.record->0.kind matches RecoveryKind::Login { intent, created_at, .. } && intent
        == session.intent && created_at == session.created_at
}

/// Whether the client's configuration is the one from before with its one field emptied,
/// and everything else is as it was.
pub open spec fn config_cleared(disk: Disk, first: Disk) -> bool {
    &&& config::cleared_config(first.config) == Ok::<Seq<u8>, ErrorView>(disk.config)
    &&& only_config_differs(first.active, disk.active)
}

/// What holds while a login is being begun; `first` is the disk at the beginning.
pub open spec fn begin_holds(operation: BeginLogin, disk: Disk, first: Disk) -> bool {
    match operation {
        BeginLogin::CheckingSlot { .. } => disk == first,
        BeginLogin::CheckingActive { .. }
        | BeginLogin::CheckingPath { .. }
        | BeginLogin::ReadingClock { .. } => disk.active == first.active && disk.config
            == first.config && disk.record is None,
        BeginLogin::Preparing { intent, created_at, kind, .. } => {
            &&& disk.active == first.active
            &&& disk.config == first.config
            &&& disk.record is None
            &&& kind matches RecoveryKind::Login { intent: kept, created_at: time, .. } && kept
                == intent && time == created_at
        },
        BeginLogin::ConfirmingStopped { session }
        | BeginLogin::Clearing { session } => disk.active == first.active && disk.config
            == first.config && disk.undoable() && disk.before == Some(first.active) && is_login_of(
            disk,
            session,
        ),
        BeginLogin::Moving { session } => disk.undoable() && disk.before == Some(first.active)
            && is_login_of(disk, session) && config_cleared(disk, first),
        BeginLogin::Discarding { .. } => disk.active == first.active,
        BeginLogin::RollingBack { .. } => disk.undoable() && disk.before == Some(first.active),
    }
}

/// Whether the answer is one to the work.
pub open spec fn answers_begin(operation: BeginLogin, reply: SessionReply) -> bool {
    match operation {
        BeginLogin::CheckingSlot { .. } => reply is Slot,
        BeginLogin::CheckingActive { .. } => reply is Flag,
        BeginLogin::ReadingClock { .. } => reply is Time,
        BeginLogin::Preparing { .. } => reply is Prepared,
        BeginLogin::Moving { .. } => reply is Moved,
        _ => reply is Done,
    }
}

/// Whether the work left nothing behind where it failed: giving up and undoing
/// succeeded, and a preparation that failed has left no record.
pub open spec fn begins_cleanly(moment: BeginMoment) -> bool {
    &&& answers_begin(moment.operation, moment.reply)
    &&& (moment.operation is Discarding || moment.operation is RollingBack)
        ==> moment.reply->Done_0 is Ok
    &&& moment.reply matches SessionReply::Prepared(Err(_)) ==> moment.later.record is None
}

/// One piece of work of beginning a login.
pub struct BeginMoment {
    pub operation: BeginLogin,
    pub reply: SessionReply,
    pub earlier: Disk,
    pub later: Disk,
}

/// Whether the moments are a run of beginning a login.
pub open spec fn is_begin_run(run: Seq<BeginMoment>) -> bool {
    &&& run.len() > 0
    &&& run[0].operation is CheckingSlot
    &&& forall|i: int|
        0 <= i < run.len() ==> {
            let moment = #[trigger] run[i];
            begin_work(
                moment.operation,
                moment.reply,
                moment.earlier,
                moment.later,
                run[0].earlier.active,
            )
        }
    &&& forall|i: int|
        1 <= i < run.len() ==> {
            let before = run[i - 1];
            let moment = #[trigger] run[i];
            moment.earlier == before.later && (before.operation.next(
                before.reply,
            ) matches StepView::Perform { operation, .. } && operation == moment.operation)
        }
}

proof fn lemma_begin_step(moment: BeginMoment, first: Disk)
    requires
        begin_holds(moment.operation, moment.earlier, first),
        begin_work(moment.operation, moment.reply, moment.earlier, moment.later, first.active),
    ensures
        moment.later.recoverable(first.active),
        moment.operation.next(moment.reply) matches StepView::Perform { operation, .. }
            ==> begin_holds(operation, moment.later, first),
        moment.operation.next(moment.reply) matches StepView::Finished(Ok(session)) ==> {
            &&& moment.later.undoable()
            &&& moment.later.before == Some(first.active)
            &&& is_login_of(moment.later, session)
            &&& moment.later.record->0.state == RecoveryState::AwaitingUser
            &&& config_cleared(moment.later, first)
        },
        moment.operation.next(moment.reply) matches StepView::Finished(Err(_)) && begins_cleanly(
            moment,
        ) ==> {
            &&& moment.later.active == first.active
            &&& first.record is None ==> moment.later.record is None
        },
{
}

/// Beginning a login is safe: wherever it is interrupted, the client's files are
/// as they were or can be brought back. Where it succeeds, the slot holds the
/// waiting login with a complete copy of the files from before, and of the client's files
/// only the configuration has changed, whose one field of account names is emptied.
/// Where it fails, and giving up and undoing succeed, the files are as they were, and no
/// record is left in a slot that was empty.
pub proof fn law_beginning_a_login_is_recoverable(run: Seq<BeginMoment>, i: int)
    requires
        is_begin_run(run),
        0 <= i < run.len(),
    ensures
        run[i].later.recoverable(run[0].earlier.active),
        run[i].operation.next(run[i].reply) matches StepView::Finished(Ok(session)) ==> {
            &&& run[i].later.undoable()
            &&& run[i].later.before == Some(run[0].earlier.active)
            &&& is_login_of(run[i].later, session)
            &&& run[i].later.record->0.state == RecoveryState::AwaitingUser
            &&& config_cleared(run[i].later, run[0].earlier)
        },
        run[i].operation.next(run[i].reply) matches StepView::Finished(Err(_)) && begins_cleanly(
            run[i],
        ) ==> {
            &&& run[i].later.active == run[0].earlier.active
            &&& run[0].earlier.record is None ==> run[i].later.record is None
        },
        begin_holds(run[i].operation, run[i].earlier, run[0].earlier),
    decreases i,
{
    let first = run[0].earlier;
    if i > 0 {
        law_beginning_a_login_is_recoverable(run, i - 1);
        lemma_begin_step(run[i - 1], first);
        assert(run[i].earlier == run[i - 1].later);
    }
    lemma_begin_step(run[i], first);
}

/// Moving an operation on keeps its record usable, and no operation leaves the
/// committed state.
pub proof fn law_transitions_keep_records_valid(
    id: Seq<char>,
    to: RecoveryState,
    record: RecoveryRecord,
)
    requires
        recovery::moved(id, to, Ok(record)) is Ok,
    ensures
        recovery::record_error(recovery::moved(id, to, Ok(record))->Ok_0) is None,
        recovery::moved(id, to, Ok(record))->Ok_0.id == record.id,
        recovery::moved(id, to, Ok(record))->Ok_0.kind == record.kind,
        record.state != RecoveryState::Committed,
        record.state != to,
{
}

} // verus!
