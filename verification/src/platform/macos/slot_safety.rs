//! What holds of the recovery slot on macOS at every moment, whatever work fails and
//! wherever an operation stops: a record in the slot always has the client's state that
//! it needs.

use vstd::prelude::*;

use crate::error::AppError;
use crate::error::ErrorView;
use crate::platform::macos::recovery;
use crate::platform::macos::recovery::CleanupSlot;
use crate::platform::macos::recovery::MoveRecord;
use crate::platform::macos::recovery::PrepareRecovery;
use crate::platform::macos::recovery::RecoveryRecord;
use crate::platform::macos::recovery::RecoveryReply;
use crate::platform::macos::recovery::RecoveryState;
use crate::platform::macos::recovery::RollbackRecovery;
use crate::platform::macos::recovery::StageCandidate;
use crate::step;
use crate::step::Step;
use crate::step::StepView;

verus! {

/// What lies in the slot: the record, and the ids of the client's state from before the
/// operation and after a login.
pub struct Slot {
    pub record: Option<RecoveryRecord>,
    pub before: Option<Seq<char>>,
    pub candidate: Option<Seq<char>>,
}

impl Slot {
    /// Whether the record, where there is one, has the client's state that it names.
    pub open spec fn sound(self) -> bool {
        self.record matches Some(record) ==> {
            &&& self.before == Some(record.before_snapshot_id@)
            &&& record.candidate_snapshot_id matches Some(id) ==> self.candidate == Some(id@)
        }
    }
}

/// Whether the slot has become what the work makes of it. Work that failed may have been
/// done or not.
pub open spec fn comes_of(done: Result<(), AppError>, slot: Slot, made: Slot, after: Slot) -> bool {
    match done {
        Ok(_) => after == made,
        Err(_) => after == slot || after == made,
    }
}

/// Whether the answer says of the slot what is true.
pub open spec fn is_true_of(reply: RecoveryReply, slot: Slot) -> bool {
    match reply {
        RecoveryReply::Record(stored) => recovery::recorded(stored) matches Ok(record)
            ==> record == slot.record,
        RecoveryReply::Exists(Ok(exists)) => exists == slot.record is Some,
        _ => true,
    }
}

/// What the work of a preparation makes of the slot.
pub open spec fn prepared(
    operation: PrepareRecovery,
    reply: RecoveryReply,
    slot: Slot,
    after: Slot,
) -> bool {
    match (operation, reply) {
        (PrepareRecovery::Publishing { before_id, .. }, RecoveryReply::Done(done)) => comes_of(
            done,
            slot,
            Slot { before: Some(before_id@), ..slot },
            after,
        ),
        (PrepareRecovery::Saving { record }, RecoveryReply::Done(done)) => comes_of(
            done,
            slot,
            Slot { record: Some(record), ..slot },
            after,
        ),
        (PrepareRecovery::RemovingBefore { .. }, RecoveryReply::Done(_)) => after == slot || after
            == (Slot { before: None, ..slot }),
        _ => after == slot,
    }
}

/// What is known of the slot during a preparation.
pub open spec fn known_in_preparation(operation: PrepareRecovery, slot: Slot) -> bool {
    &&& slot.sound()
    &&& match operation {
        PrepareRecovery::CheckingSlot { .. }
        | PrepareRecovery::RemovingStaging { .. }
        | PrepareRecovery::CheckingRecord { .. } => true,
        PrepareRecovery::ReadingClock { before_id, .. } => slot.record is None && slot.before
            == Some(before_id@),
        PrepareRecovery::Saving { record } => slot.record is None && slot.before == Some(
            record.before_snapshot_id@,
        ) && record.candidate_snapshot_id is None,
        _ => slot.record is None,
    }
}

/// Preparing an operation keeps the slot sound at each step, whatever work fails: the
/// record is written only when the client's state is in its place, and the client's state
/// is removed only when no record is there.
pub proof fn law_preparation_keeps_the_slot_sound(
    operation: PrepareRecovery,
    reply: RecoveryReply,
    step: Step<PrepareRecovery, RecoveryRecord>,
    slot: Slot,
    after: Slot,
)
    requires
        known_in_preparation(operation, slot),
        is_true_of(reply, slot),
        operation.leads_to(reply, step),
        prepared(operation, reply, slot, after),
    ensures
        after.sound(),
        step matches Step::Perform { operation: next, .. } ==> known_in_preparation(next, after),
        step matches Step::Finished(Ok(record)) ==> after.record == Some(record),
{
}

/// What the work of staging makes of the slot.
pub open spec fn staged(
    operation: StageCandidate,
    reply: RecoveryReply,
    slot: Slot,
    after: Slot,
) -> bool {
    match (operation, reply) {
        (StageCandidate::RemovingOld { .. }, RecoveryReply::Done(done)) => comes_of(
            done,
            slot,
            Slot { candidate: None, ..slot },
            after,
        ),
        (StageCandidate::Publishing { candidate_id, .. }, RecoveryReply::Done(done)) => comes_of(
            done,
            slot,
            Slot { candidate: Some(candidate_id@), ..slot },
            after,
        ),
        (StageCandidate::Saving { record }, RecoveryReply::Done(done)) => comes_of(
            done,
            slot,
            Slot { record: Some(record), ..slot },
            after,
        ),
        _ => after == slot,
    }
}

/// What is known of the slot during staging.
pub open spec fn known_in_staging(operation: StageCandidate, slot: Slot) -> bool {
    &&& slot.sound()
    &&& match operation {
        StageCandidate::Reading { .. } | StageCandidate::RemovingStaging { .. } => true,
        StageCandidate::CheckingLogin { record, .. } => slot.record == Some(record),
        StageCandidate::ReadingExisting { record, .. } => slot.record == Some(record)
            && record.candidate_snapshot_id is Some,
        StageCandidate::RemovingOld { record, .. }
        | StageCandidate::RemovingStale { record, .. }
        | StageCandidate::Creating { record, .. }
        | StageCandidate::Writing { record, .. }
        | StageCandidate::Rereading { record, .. }
        | StageCandidate::Publishing { record, .. } => slot.record == Some(record)
            && record.candidate_snapshot_id is None,
        StageCandidate::Saving { record } => {
            &&& slot.before == Some(record.before_snapshot_id@)
            &&& record.candidate_snapshot_id is Some
            &&& slot.candidate == Some(record.candidate_snapshot_id->0@)
        },
    }
}

/// Staging the client's state after a login keeps the slot sound at each step, whatever
/// work fails: the record names the staged state only when that is in its place.
pub proof fn law_staging_keeps_the_slot_sound(
    operation: StageCandidate,
    reply: RecoveryReply,
    step: Step<StageCandidate, RecoveryRecord>,
    slot: Slot,
    after: Slot,
)
    requires
        known_in_staging(operation, slot),
        is_true_of(reply, slot),
        operation.leads_to(reply, step),
        staged(operation, reply, slot, after),
    ensures
        after.sound(),
        step matches Step::Perform { operation: next, .. } ==> known_in_staging(next, after),
        step matches Step::Finished(Ok(record)) ==> after.record == Some(record)
            && record.candidate_snapshot_id is Some,
{
}

/// What the work of moving the record makes of the slot.
pub open spec fn moved(operation: MoveRecord, reply: RecoveryReply, slot: Slot, after: Slot) -> bool {
    match (operation, reply) {
        (MoveRecord::Saving { record }, RecoveryReply::Done(done)) => comes_of(
            done,
            slot,
            Slot { record: Some(record), ..slot },
            after,
        ),
        _ => after == slot,
    }
}

/// What is known of the slot while the record is moved.
pub open spec fn known_in_moving(operation: MoveRecord, slot: Slot) -> bool {
    &&& slot.sound()
    &&& operation matches MoveRecord::Saving { record } ==> slot.record matches Some(old) && old
        == (RecoveryRecord { state: old.state, ..record }) && recovery::may_move(
        old.state,
        record.state,
    )
}

/// Moving the record keeps the slot sound at each step, and changes nothing of the record
/// but its state.
pub proof fn law_moving_keeps_the_slot_sound(
    operation: MoveRecord,
    reply: RecoveryReply,
    slot: Slot,
    after: Slot,
)
    requires
        known_in_moving(operation, slot),
        is_true_of(reply, slot),
        moved(operation, reply, slot, after),
    ensures
        after.sound(),
        operation.next(reply) matches StepView::Perform { operation: next, .. } ==> known_in_moving(
            next,
            after,
        ),
        operation.next(reply) matches StepView::Finished(Ok(record)) ==> after.record == Some(
            record,
        ) && slot.record == Some(RecoveryRecord { state: slot.record->0.state, ..record }),
{
}

/// What the work of emptying the slot makes of it.
pub open spec fn cleaned(operation: CleanupSlot, reply: RecoveryReply, slot: Slot, after: Slot) -> bool {
    match (operation, reply) {
        (CleanupSlot::RemovingRecord, RecoveryReply::Done(done)) => comes_of(
            done,
            slot,
            Slot { record: None, ..slot },
            after,
        ),
        (CleanupSlot::RemovingCandidate, RecoveryReply::Done(done)) => comes_of(
            done,
            slot,
            Slot { candidate: None, ..slot },
            after,
        ),
        (CleanupSlot::RemovingOrphanedCandidate, RecoveryReply::Done(done)) => comes_of(
            done,
            slot,
            Slot { candidate: None, ..slot },
            after,
        ),
        (CleanupSlot::RemovingBefore, RecoveryReply::Done(done)) => comes_of(
            done,
            slot,
            Slot { before: None, ..slot },
            after,
        ),
        (CleanupSlot::RemovingOrphanedBefore, RecoveryReply::Done(done)) => comes_of(
            done,
            slot,
            Slot { before: None, ..slot },
            after,
        ),
        _ => after == slot,
    }
}

/// What is known of the slot while it is emptied.
pub open spec fn known_in_cleanup(operation: CleanupSlot, slot: Slot) -> bool {
    &&& slot.sound()
    &&& match operation {
        CleanupSlot::CheckingRecord | CleanupSlot::RemovingRecord => true,
        CleanupSlot::RemovingCandidate | CleanupSlot::RemovingOrphanedBefore => slot.record is None,
        CleanupSlot::RemovingBefore => slot.record is None && slot.candidate is None,
        CleanupSlot::RemovingOrphanedCandidate => slot.record is None && slot.before is None,
        CleanupSlot::Listing | CleanupSlot::Removing { .. } => slot.record is None && slot.before
            is None && slot.candidate is None,
    }
}

/// Emptying the slot keeps it sound at each step, whatever work fails: the client's state
/// is removed only when the record is gone. At the end nothing is left.
pub proof fn law_cleanup_keeps_the_slot_sound(
    operation: CleanupSlot,
    reply: RecoveryReply,
    slot: Slot,
    after: Slot,
)
    requires
        known_in_cleanup(operation, slot),
        is_true_of(reply, slot),
        cleaned(operation, reply, slot, after),
    ensures
        after.sound(),
        operation.next(reply) matches StepView::Perform {
            operation: next,
            ..
        } ==> known_in_cleanup(next, after),
        operation.next(reply) matches StepView::Finished(Ok(_)) ==> after == (Slot {
            record: None,
            before: None,
            candidate: None,
        }),
{
}

/// An operation that is committed is never undone, and the slot is emptied only after
/// the client's state from before the operation was put in place; where that fails,
/// nothing is removed.
pub proof fn law_rollback_keeps_what_it_needs(operation: RollbackRecovery, reply: RecoveryReply)
    ensures
        operation matches RollbackRecovery::Reading { id } ==> (reply matches RecoveryReply::Record(
            stored,
        ) ==> (recovery::required(id@, stored) matches Ok(record) ==> (record.state
            == RecoveryState::Committed ==> operation.next(reply) == step::failing::<
            RollbackRecovery,
            (),
        >(ErrorView::Transaction("已提交的恢复记录不能回滚"@))))),
        operation.next(reply) matches StepView::Perform {
            operation: RollbackRecovery::Cleaning,
            ..
        } ==> operation is Applying && reply is Done && reply->Done_0 is Ok,
        operation is Applying && (reply matches RecoveryReply::Done(Err(_))) ==> operation.next(
            reply,
        ) is Finished,
        operation.next(reply) matches StepView::Finished(Ok(_)) ==> operation is Cleaning && reply
            is Done && reply->Done_0 is Ok,
{
}

} // verus!
