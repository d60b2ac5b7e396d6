//! What whole calls on the recovery slot come to, one after another: committing,
//! committing again, and undoing.

use vstd::prelude::*;

use crate::error::AppError;
use crate::platform::windows::crash_safety;
use crate::platform::windows::crash_safety::Disk;
use crate::platform::windows::crash_safety::RollbackMoment;
use crate::platform::windows::login_session;
use crate::platform::windows::login_session::CompleteSession;
use crate::platform::windows::login_session::SessionReply;
use crate::platform::windows::recovery;
use crate::platform::windows::recovery::CommitOutcomeView;
use crate::platform::windows::recovery::CommitRecovery;
use crate::platform::windows::recovery::RecoveryCommitOutcome;
use crate::platform::windows::recovery::RecoveryRecord;
use crate::platform::windows::recovery::RecoveryReply;
use crate::platform::windows::recovery::RecoveryState;
use crate::platform::windows::recovery::RollbackRecovery;
use crate::platform::windows::restore::CommitSwitch;
use crate::platform::windows::restore::RestoreReply;
use crate::platform::windows::restore::RollbackSwitch;
use crate::platform::windows::snapshot;
use crate::platform::windows::snapshot::DocumentError;
use crate::platform::windows::snapshot::FileView;
use crate::step::StepView;

verus! {

/// One piece of work of committing an operation.
pub struct CommitMoment {
    pub operation: CommitRecovery,
    pub reply: RecoveryReply,
    pub earlier: Disk,
    pub later: Disk,
}

/// Whether the moments are a run of committing the operation `id`.
pub open spec fn is_commit_run(run: Seq<CommitMoment>, id: Seq<char>) -> bool {
    &&& run.len() > 0
    &&& run[0].operation matches CommitRecovery::Loading { id: kept } && kept@ == id
    &&& forall|i: int|
        0 <= i < run.len() ==> {
            let moment = #[trigger] run[i];
            crash_safety::commit_work(
                moment.operation,
                moment.reply,
                moment.earlier,
                moment.later,
            )
        }
    &&& forall|i: int|
        1 <= i < run.len() ==> {
            let before = run[i - 1];
            let moment = #[trigger] run[i];
            moment.earlier == before.later && (before.operation.next(
                before.reply,
            ) matches StepView::Perform { operation, .. } && operation == moment.operation)
        }
}

/// Whether a record that could not be written has left what was there before, as it does
/// where it is written under another name and then moved to its place.
pub open spec fn commits_atomically(moment: CommitMoment) -> bool {
    moment.reply matches RecoveryReply::Written(written) && recovery::write_error(written) is Some
        ==> moment.later.record == moment.earlier.record
}

/// Whether the work succeeded.
pub open spec fn commit_succeeds(moment: CommitMoment) -> bool {
    match moment.operation {
        CommitRecovery::Loading { .. } => moment.reply matches RecoveryReply::Record(Ok(_)),
        CommitRecovery::Writing { .. } => moment.reply matches RecoveryReply::Written(written)
            && recovery::write_error(written) is None,
        CommitRecovery::Cleaning { .. } => moment.reply matches RecoveryReply::Done(Ok(_)),
    }
}

/// Whether the answer is one to the work.
pub open spec fn answers_commit(moment: CommitMoment) -> bool {
    match moment.operation {
        CommitRecovery::Loading { .. } => moment.reply is Record,
        CommitRecovery::Writing { .. } => moment.reply is Written,
        CommitRecovery::Cleaning { .. } => moment.reply is Done,
    }
}

/// Where a run of committing is after `i` pieces of work.
pub open spec fn commit_place(run: Seq<CommitMoment>, i: int) -> bool {
    let first = run[0].earlier;
    match run[i].operation {
        CommitRecovery::Loading { .. } => i == 0,
        CommitRecovery::Writing { record } => {
            &&& i == 1
            &&& run[i].earlier == first
            &&& first.record is Some
            &&& record == RecoveryRecord { state: RecoveryState::Committed, ..first.record->0 }
        },
        CommitRecovery::Cleaning { .. } => {
            &&& i == 2
            &&& first.record is Some
            &&& run[i].earlier == Disk {
                record: Some(
                    RecoveryRecord { state: RecoveryState::Committed, ..first.record->0 },
                ),
                ..first
            }
        },
    }
}

proof fn lemma_commit_place(run: Seq<CommitMoment>, id: Seq<char>, i: int)
    requires
        is_commit_run(run, id),
        0 <= i < run.len(),
    ensures
        commit_place(run, i),
    decreases i,
{
    if i > 0 {
        lemma_commit_place(run, id, i - 1);
        let before = run[i - 1];
        assert(run[i].earlier == before.later);
        assert(crash_safety::commit_work(
            before.operation,
            before.reply,
            before.earlier,
            before.later,
        ));
    }
}

/// Committing an operation never changes the client's files. Where it succeeds, the slot
/// is empty; where only emptying the slot failed, that is no error, and a record that is
/// left says that the operation is committed. Where it fails, the record and the copy
/// are as they were, where a record that could not be written leaves what was there
/// before.
pub proof fn law_commit_outcomes(run: Seq<CommitMoment>, id: Seq<char>, i: int)
    requires
        is_commit_run(run, id),
        0 <= i < run.len(),
        answers_commit(run[i]),
    ensures
        run[i].later.active == run[0].earlier.active,
        match run[i].operation.next(run[i].reply) {
            StepView::Finished(Ok(CommitOutcomeView::Committed)) => run[i].later.record is None
                && run[i].later.before is None,
            StepView::Finished(Ok(CommitOutcomeView::CleanupPending(_))) => run[i].later.record
                is None || run[i].later.record == Some(
                RecoveryRecord { state: RecoveryState::Committed, ..run[0].earlier.record->0 },
            ),
            StepView::Finished(Err(_)) => !(run[i].operation is Cleaning) && (commits_atomically(
                run[i],
            ) ==> run[i].later == run[0].earlier),
            StepView::Perform { .. } => true,
        },
{
    lemma_commit_place(run, id, i);
    assert(crash_safety::commit_work(
        run[i].operation,
        run[i].reply,
        run[i].earlier,
        run[i].later,
    ));
}

/// Whether what was read of the slot is what it holds.
pub open spec fn reads_slot(
    stored: Option<Result<RecoveryRecord, DocumentError>>,
    disk: Disk,
) -> bool {
    match stored {
        None => disk.record is None,
        Some(Ok(record)) => disk.record == Some(record),
        Some(Err(_)) => disk.record is Some,
    }
}

/// Whether the result of an operation on the slot is the one that is reported.
pub open spec fn reports<O>(
    step: StepView<O, CommitOutcomeView>,
    outcome: Result<RecoveryCommitOutcome, AppError>,
) -> bool {
    match (step, outcome) {
        (StepView::Finished(Ok(expected)), Ok(outcome)) => outcome@ == expected,
        (StepView::Finished(Err(expected)), Err(error)) => error@ == expected,
        _ => false,
    }
}

/// One whole call of committing what is in the slot: what was read of the slot, the run
/// of committing, where it came to that, and what it reported.
pub struct CommitCall {
    pub stored: Option<Result<RecoveryRecord, DocumentError>>,
    pub run: Seq<CommitMoment>,
    pub outcome: Result<RecoveryCommitOutcome, AppError>,
    pub earlier: Disk,
    pub later: Disk,
}

impl CommitCall {
    /// Whether the run is the whole of committing the operation `id` in this call.
    pub open spec fn commits(self, id: Seq<char>) -> bool {
        &&& is_commit_run(self.run, id)
        &&& self.run[0].earlier == self.earlier
        &&& self.run.last().later == self.later
        &&& reports(self.run.last().operation.next(self.run.last().reply), self.outcome)
        &&& forall|i: int| 0 <= i < self.run.len() ==> answers_commit(#[trigger] self.run[i])
    }

    /// Whether all work of the call succeeded.
    pub open spec fn succeeds(self) -> bool {
        &&& self.stored is Some ==> self.stored->0 is Ok
        &&& forall|i: int| 0 <= i < self.run.len() ==> commit_succeeds(#[trigger] self.run[i])
    }

    /// Whether a record that could not be written has left what was there before.
    pub open spec fn atomic(self) -> bool {
        forall|i: int| 0 <= i < self.run.len() ==> commits_atomically(#[trigger] self.run[i])
    }

    /// What the slot leads to where the login of the session is completed.
    pub open spec fn login_step(self, session_id: String) -> StepView<
        CompleteSession,
        CommitOutcomeView,
    > {
        (CompleteSession::CheckingSlot { session_id }).next(SessionReply::Slot(self.stored))
    }

    /// Whether this is a call of completing the login of the session.
    pub open spec fn completes_login(self, session_id: String) -> bool {
        &&& reads_slot(self.stored, self.earlier)
        &&& match self.login_step(session_id) {
            StepView::Perform { operation: CompleteSession::Committing { id }, .. } => self.commits(
                id@,
            ),
            _ => self.later == self.earlier,
        }
    }

    /// What completing the login of the session came to.
    pub open spec fn login_result(self, session_id: String) -> StepView<
        CompleteSession,
        CommitOutcomeView,
    > {
        match self.login_step(session_id) {
            StepView::Perform { operation, .. } => operation.next(
                SessionReply::Committed(self.outcome),
            ),
            end => end,
        }
    }

    /// What the slot leads to where the switch `id` is committed.
    pub open spec fn switch_step(self, id: String) -> StepView<CommitSwitch, CommitOutcomeView> {
        (CommitSwitch::CheckingSlot { id }).next(RestoreReply::Slot(self.stored))
    }

    /// Whether this is a call of committing the switch `id`.
    pub open spec fn commits_switch(self, id: String) -> bool {
        &&& reads_slot(self.stored, self.earlier)
        &&& match self.switch_step(id) {
            StepView::Perform { operation: CommitSwitch::Committing { id: kept }, .. } =>
                self.commits(kept@),
            _ => self.later == self.earlier,
        }
    }

    /// What committing the switch `id` came to.
    pub open spec fn switch_result(self, id: String) -> StepView<CommitSwitch, CommitOutcomeView> {
        match self.switch_step(id) {
            StepView::Perform { operation, .. } => operation.next(
                RestoreReply::Committed(self.outcome),
            ),
            end => end,
        }
    }
}

/// What a whole call of committing the operation `id` comes to.
pub proof fn lemma_commit_call(call: CommitCall, id: Seq<char>)
    requires
        call.commits(id),
    ensures
        call.later.active == call.earlier.active,
        match call.outcome {
            Ok(outcome) => match outcome@ {
                CommitOutcomeView::Committed => call.later.record is None && call.later.before
                    is None,
                CommitOutcomeView::CleanupPending(_) => call.later.record is None
                    || call.later.record == Some(
                    RecoveryRecord { state: RecoveryState::Committed, ..call.earlier.record->0 },
                ),
            },
            Err(_) => call.atomic() ==> call.later == call.earlier,
        },
{
    let last = call.run.len() - 1;
    assert(answers_commit(call.run[last]));
    law_commit_outcomes(call.run, id, last);
    if call.atomic() {
        assert(commits_atomically(call.run[last]));
    }
}

proof fn lemma_successful_commit(call: CommitCall, id: Seq<char>)
    requires
        call.commits(id),
        call.earlier.record is Some,
        recovery::moved(
            id,
            RecoveryState::Committed,
            Ok::<RecoveryRecord, DocumentError>(call.earlier.record->0),
        ) is Ok,
        call.succeeds(),
    ensures
        call.outcome is Ok,
        call.outcome->Ok_0@ == CommitOutcomeView::Committed,
{
    let last = call.run.len() - 1;
    lemma_commit_place(call.run, id, last);
    assert(commit_succeeds(call.run[last]));
    assert(crash_safety::commit_work(
        call.run[last].operation,
        call.run[last].reply,
        call.run[last].earlier,
        call.run[last].later,
    ));
}

/// A login whose commit failed can be completed again: after the failure it still waits
/// for the user, with its copy, and the second call, where its work succeeds, commits
/// it. Then no login waits and the slot is empty, and neither call has changed the
/// client's files.
pub proof fn law_failed_login_commit_can_be_repeated(
    session_id: String,
    first: CommitCall,
    second: CommitCall,
)
    requires
        first.earlier.record is Some,
        recovery::record_error(first.earlier.record->0) is None,
        first.earlier.record->0.kind is Login,
        first.earlier.record->0.state == RecoveryState::AwaitingUser,
        first.earlier.record->0.id@ == session_id@,
        first.completes_login(session_id),
        first.login_result(session_id) matches StepView::Finished(Err(_)),
        first.atomic(),
        second.completes_login(session_id),
        second.earlier == first.later,
        second.succeeds(),
    ensures
        first.later == first.earlier,
        login_session::waiting_login(
            Some(Ok::<RecoveryRecord, DocumentError>(first.later.record->0)),
        ) matches Ok(Some(session)) && session.id == first.earlier.record->0.id,
        second.login_result(session_id) == StepView::<CompleteSession, CommitOutcomeView>::Finished(
            Ok(CommitOutcomeView::Committed),
        ),
        second.later.record is None,
        second.later.before is None,
        second.later.active == first.earlier.active,
        login_session::waiting_login(None) matches Ok(None),
{
    let id = first.earlier.record->0.id@;
    if first.commits(id) {
        lemma_commit_call(first, id);
    }
    lemma_commit_call(second, id);
    lemma_successful_commit(second, id);
}

/// One whole call of undoing what is in the slot.
pub struct RollbackCall {
    pub stored: Option<Result<RecoveryRecord, DocumentError>>,
    pub run: Seq<RollbackMoment>,
    pub done: Result<(), AppError>,
    pub earlier: Disk,
    pub later: Disk,
}

/// Whether the work of undoing succeeded, and what was read is what is there.
pub open spec fn rollback_succeeds(moment: RollbackMoment) -> bool {
    match moment.operation {
        RollbackRecovery::Loading { .. } => moment.reply matches RecoveryReply::Record(Ok(_)),
        RollbackRecovery::ReadingManifest => moment.reply matches RecoveryReply::Manifest(
            Ok(manifest),
        ) && manifest.version == snapshot::SNAPSHOT_VERSION,
        _ => moment.reply matches RecoveryReply::Done(Ok(_)),
    }
}

impl RollbackCall {
    /// What the slot leads to where the switch `id` is undone.
    pub open spec fn switch_step(self, id: String) -> StepView<RollbackSwitch, ()> {
        (RollbackSwitch::CheckingSlot { id }).next(RestoreReply::Slot(self.stored))
    }

    /// Whether this is a call of undoing the switch `id`.
    pub open spec fn undoes_switch(self, id: String) -> bool {
        &&& reads_slot(self.stored, self.earlier)
        &&& match self.switch_step(id) {
            StepView::Perform { operation: RollbackSwitch::RollingBack { id: kept }, .. } => {
                &&& crash_safety::is_rollback_run(self.run)
                &&& self.run[0].operation == RollbackRecovery::Loading { id: kept }
                &&& self.run[0].earlier == self.earlier
                &&& self.run.last().later == self.later
                &&& match (
                    self.run.last().operation.next(self.run.last().reply),
                    self.done,
                ) {
                    (StepView::Finished(Ok(_)), Ok(_)) => true,
                    (StepView::Finished(Err(expected)), Err(error)) => error@ == expected,
                    _ => false,
                }
            },
            _ => self.later == self.earlier,
        }
    }

    /// Whether all work of the call succeeded.
    pub open spec fn succeeds(self) -> bool {
        &&& self.stored is Some ==> self.stored->0 is Ok
        &&& forall|i: int| 0 <= i < self.run.len() ==> rollback_succeeds(#[trigger] self.run[i])
    }

    /// What undoing the switch `id` came to.
    pub open spec fn switch_result(self, id: String) -> StepView<RollbackSwitch, ()> {
        match self.switch_step(id) {
            StepView::Perform { operation, .. } => operation.next(RestoreReply::Done(self.done)),
            end => end,
        }
    }
}

/// The number of pieces of work that come before this one when an operation is undone.
pub open spec fn rollback_rank(operation: RollbackRecovery) -> int {
    match operation {
        RollbackRecovery::Loading { .. } => 0,
        RollbackRecovery::CheckingBefore => 1,
        RollbackRecovery::ReadingManifest => 2,
        RollbackRecovery::CheckingFiles { .. } => 3,
        RollbackRecovery::ConfirmingStopped { .. } => 4,
        RollbackRecovery::Replacing { .. } => 5,
        RollbackRecovery::Cleaning => 6,
    }
}

proof fn lemma_rollback_rank(run: Seq<RollbackMoment>, i: int)
    requires
        crash_safety::is_rollback_run(run),
        0 <= i < run.len(),
    ensures
        rollback_rank(run[i].operation) == i,
        i <= 5 ==> run[i].earlier.record == run[0].earlier.record,
        i <= 5 ==> run[i].earlier.before == run[0].earlier.before,
        i <= 6 ==> run[i].earlier.staged == run[0].earlier.staged,
        i == 6 ==> run[i].earlier.record == run[0].earlier.record,
        i == 6 ==> run[i].earlier.before == run[0].earlier.before,
    decreases i,
{
    if i > 0 {
        lemma_rollback_rank(run, i - 1);
        let before = run[i - 1];
        assert(run[i].earlier == before.later);
        assert(crash_safety::rollback_work(
            before.operation,
            before.reply,
            before.earlier,
            before.later,
        ));
    }
}

/// Where undoing an operation succeeds, the client's files were written exactly once,
/// with exactly the copy, and the record is gone.
pub proof fn law_successful_rollback_writes_once(
    run: Seq<RollbackMoment>,
    original: Set<FileView>,
) -> (at: int)
    requires
        crash_safety::is_rollback_run(run),
        run[0].earlier.undoable(),
        run[0].earlier.before == Some(original),
        run.last().operation.next(run.last().reply) matches StepView::Finished(Ok(_)),
    ensures
        0 <= at < run.len(),
        run[at].operation matches RollbackRecovery::Replacing { files } && snapshot::contents(
            files@,
        ) == original,
        run[at].reply matches RecoveryReply::Done(Ok(_)),
        run[at].later.active == original,
        forall|i: int|
            0 <= i < run.len() && (#[trigger] run[i]).operation is Replacing ==> i == at,
        run.last().later.record is None,
        run.last().later.active == original,
{
    let last = run.len() - 1;
    lemma_rollback_rank(run, last);
    assert(run.last().operation is Cleaning);
    let at = 5int;
    lemma_rollback_rank(run, at);
    crash_safety::law_rollback_restores_the_files(run, at, original);
    crash_safety::law_rollback_restores_the_files(run, last, original);
    assert(run[6].earlier == run[5].later);
    assert(crash_safety::rollback_work(
        run[at].operation,
        run[at].reply,
        run[at].earlier,
        run[at].later,
    ));
    assert forall|i: int| 0 <= i < run.len() && (#[trigger] run[i]).operation is Replacing implies i
        == at by {
        lemma_rollback_rank(run, i);
    }
    at
}

/// Where writing the copy back fails, that is the error, and the record and the copy are
/// kept. A committed operation is not undone: nothing but the record is read.
pub proof fn law_failed_rollback_keeps_the_slot(run: Seq<RollbackMoment>, i: int)
    requires
        crash_safety::is_rollback_run(run),
        0 <= i < run.len(),
    ensures
        run[i].operation is Replacing && run[i].reply is Done && run[i].reply->Done_0 is Err ==> {
            &&& run[i].operation.next(run[i].reply) == StepView::<RollbackRecovery, ()>::Finished(
                Err(run[i].reply->Done_0->Err_0@),
            )
            &&& run[i].later.record == run[0].earlier.record
            &&& run[i].later.before == run[0].earlier.before
        },
        run[0].earlier.record is Some && run[0].earlier.record->0.state
            == RecoveryState::Committed ==> {
            &&& i == 0
            &&& run[0].operation.next(run[0].reply) matches StepView::Finished(Err(_))
            &&& run[0].later == run[0].earlier
        },
{
    lemma_rollback_rank(run, i);
    assert(crash_safety::rollback_work(
        run[i].operation,
        run[i].reply,
        run[i].earlier,
        run[i].later,
    ));
    assert(crash_safety::rollback_work(
        run[0].operation,
        run[0].reply,
        run[0].earlier,
        run[0].later,
    ));
    if i > 0 {
        assert(run[1].earlier == run[0].later);
    }
}

/// A switch that was committed is final: it can be neither committed again nor undone,
/// whether or not its recovery data could be removed, and neither attempt changes the
/// client's files.
pub proof fn law_committed_switch_is_final(
    id: String,
    first: CommitCall,
    again: CommitCall,
    undoing: RollbackCall,
)
    requires
        first.commits_switch(id),
        first.switch_result(id) matches StepView::Finished(Ok(_)),
        again.commits_switch(id),
        again.earlier == first.later,
        undoing.undoes_switch(id),
        undoing.earlier == first.later,
    ensures
        first.later.active == first.earlier.active,
        first.switch_result(id)->Finished_0->Ok_0 is Committed ==> first.later.record is None
            && first.later.before is None,
        again.switch_result(id) matches StepView::Finished(Err(_)),
        again.later == again.earlier,
        undoing.switch_result(id) matches StepView::Finished(Err(_)),
        undoing.later == undoing.earlier,
{
    let kept = first.stored->0->Ok_0.id@;
    lemma_commit_call(first, kept);
    if undoing.switch_step(id) is Perform {
        let last = undoing.run.len() - 1;
        law_failed_rollback_keeps_the_slot(undoing.run, last);
    }
}

/// After a commit of a switch failed, the switch can still be undone: where the work of
/// undoing succeeds, so does undoing, and the client's files are those from before the
/// switch.
pub proof fn law_failed_switch_commit_can_be_undone(
    id: String,
    commit: CommitCall,
    undoing: RollbackCall,
    original: Set<FileView>,
)
    requires
        commit.earlier.undoable(),
        commit.earlier.before == Some(original),
        commit.earlier.record->0.kind is Switch,
        commit.earlier.record->0.id@ == id@,
        commit.commits_switch(id),
        commit.switch_result(id) matches StepView::Finished(Err(_)),
        commit.atomic(),
        undoing.undoes_switch(id),
        undoing.earlier == commit.later,
        undoing.succeeds(),
    ensures
        commit.later == commit.earlier,
        undoing.switch_result(id) matches StepView::Finished(Ok(_)),
        undoing.later.active == original,
        undoing.later.record is None,
        undoing.later.before is None,
{
    if commit.switch_step(id) is Perform {
        lemma_commit_call(commit, commit.stored->0->Ok_0.id@);
    }
    let last = undoing.run.len() - 1;
    lemma_rollback_rank(undoing.run, last);
    assert(rollback_succeeds(undoing.run[last]));
    assert(crash_safety::rollback_work(
        undoing.run[last].operation,
        undoing.run[last].reply,
        undoing.run[last].earlier,
        undoing.run[last].later,
    ));
    crash_safety::law_rollback_restores_the_files(undoing.run, last, original);
}

} // verus!
