//! The recovery slot on macOS: what an operation that changes the client's state leaves
//! there, so that it can be undone or finished whenever it stops.

use vstd::prelude::*;

use crate::contracts;
use crate::contracts::AccountKey;
use crate::contracts::LoginIntent;
use crate::contracts::LoginSessionSnapshot;
use crate::error::AppError;
use crate::error::ErrorView;
use crate::outside;
use crate::platform::macos::secure_snapshot::SecurePayload;
use crate::platform::macos::unix_path;
use crate::step::Moment;
use crate::step::Taken;
use crate::step;
use crate::step::Step;
use crate::step::StepView;
use crate::text;

verus! {

/// The version of a record.
pub const RECORD_VERSION: u8 = 1;

/// How far an operation has come.
#[derive(Clone, Copy, Debug, PartialEq, Eq, Structural)]
pub enum RecoveryState {
    Prepared,
    AwaitingUser,
    Committed,
}

/// What an operation is.
#[derive(Clone, Copy, Debug, PartialEq, Eq, Structural)]
pub enum RecoveryKind {
    Switch,
    Login,
}

/// The record in the slot.
#[derive(Debug)]
pub struct RecoveryRecord {
    pub version: u8,
    pub id: String,
    pub kind: RecoveryKind,
    pub state: RecoveryState,
    /// The id of the client's state from before the operation.
    pub before_snapshot_id: String,
    /// The id of the client's state after a login.
    pub candidate_snapshot_id: Option<String>,
    pub previous_client_was_running: bool,
    pub created_at: u64,
}

impl Clone for RecoveryRecord {
    fn clone(&self) -> (copy: Self)
        ensures
            copy == *self,
    {
        RecoveryRecord {
            version: self.version,
            id: self.id.clone(),
            kind: self.kind,
            state: self.state,
            before_snapshot_id: self.before_snapshot_id.clone(),
            candidate_snapshot_id: self.candidate_snapshot_id.clone(),
            previous_client_was_running: self.previous_client_was_running,
            created_at: self.created_at,
        }
    }
}

impl View for RecoveryRecord {
    type V = RecoveryRecord;

    open spec fn view(&self) -> RecoveryRecord {
        *self
    }
}

/// What an operation is for.
#[derive(Debug)]
pub enum RecoveryContext {
    Switch { target_account: AccountKey, previous_account: Option<AccountKey> },
    Login { intent: LoginIntent, previous_account: Option<AccountKey> },
}

/// The client's state from before an operation, and what the operation is for.
#[derive(Debug)]
pub struct RecoveryEnvelope {
    pub before: SecurePayload,
    pub context: RecoveryContext,
}

impl View for RecoveryEnvelope {
    type V = RecoveryEnvelope;

    open spec fn view(&self) -> RecoveryEnvelope {
        *self
    }
}

/// Whether the context is one of the kind.
pub open spec fn is_of_kind(context: RecoveryContext, kind: RecoveryKind) -> bool {
    match context {
        RecoveryContext::Switch { .. } => kind == RecoveryKind::Switch,
        RecoveryContext::Login { .. } => kind == RecoveryKind::Login,
    }
}

fn context_is_of_kind(context: &RecoveryContext, kind: RecoveryKind) -> (yes: bool)
    ensures
        yes == is_of_kind(*context, kind),
{
    match context {
        RecoveryContext::Switch { .. } => kind == RecoveryKind::Switch,
        RecoveryContext::Login { .. } => kind == RecoveryKind::Login,
    }
}

/// Why the record cannot be used.
pub open spec fn record_error(record: RecoveryRecord) -> Option<ErrorView> {
    if record.version != RECORD_VERSION || outside::uuid_form(record.id@) is None
        || outside::uuid_form(record.before_snapshot_id@) is None || (
    record.candidate_snapshot_id is Some && outside::uuid_form(record.candidate_snapshot_id->0@)
        is None) {
        Some(ErrorView::Transaction("恢复记录版本或标识无效"@))
    } else if record.kind == RecoveryKind::Switch && record.candidate_snapshot_id is Some {
        Some(ErrorView::Transaction("切换记录包含意外候选快照"@))
    } else if record.candidate_snapshot_id is Some && record.state == RecoveryState::Prepared {
        Some(ErrorView::Transaction("恢复记录包含无效候选快照状态"@))
    } else if record.kind == RecoveryKind::Login && record.state == RecoveryState::Committed
        && record.candidate_snapshot_id is None {
        Some(ErrorView::Transaction("已提交登录记录缺少候选快照"@))
    } else {
        None
    }
}

/// Checks a record.
pub fn validate_record(record: &RecoveryRecord) -> (result: Result<(), AppError>)
    ensures
        match result {
            Ok(_) => record_error(*record) is None,
            Err(error) => record_error(*record) == Some(error@),
        },
{
    let candidate_ok = match &record.candidate_snapshot_id {
        Some(id) => outside::is_uuid(id.as_str()),
        None => true,
    };
    if record.version != RECORD_VERSION || !outside::is_uuid(record.id.as_str())
        || !outside::is_uuid(record.before_snapshot_id.as_str()) || !candidate_ok {
        return Err(AppError::Transaction("恢复记录版本或标识无效".to_owned()));
    }
    let has_candidate = record.candidate_snapshot_id.is_some();
    if record.kind == RecoveryKind::Switch && has_candidate {
        return Err(AppError::Transaction("切换记录包含意外候选快照".to_owned()));
    }
    if has_candidate && record.state == RecoveryState::Prepared {
        return Err(AppError::Transaction("恢复记录包含无效候选快照状态".to_owned()));
    }
    if record.kind == RecoveryKind::Login && record.state == RecoveryState::Committed
        && !has_candidate {
        return Err(AppError::Transaction("已提交登录记录缺少候选快照".to_owned()));
    }
    Ok(())
}

/// What was found where the record is kept: nothing, or what was read there.
#[derive(Debug)]
pub struct StoredRecord {
    pub found: Result<Option<Result<RecoveryRecord, String>>, AppError>,
}

/// The record in the slot, where there is one.
pub open spec fn recorded(stored: StoredRecord) -> Result<Option<RecoveryRecord>, ErrorView> {
    match stored.found {
        Err(error) => Err(error@),
        Ok(None) => Ok(None),
        Ok(Some(Err(error))) => Err(ErrorView::Transaction("恢复记录格式无效："@ + error@)),
        Ok(Some(Ok(record))) => match record_error(record) {
            Some(error) => Err(error),
            None => Ok(Some(record)),
        },
    }
}

/// The record in the slot, which has to be that of the operation.
pub open spec fn required(id: Seq<char>, stored: StoredRecord) -> Result<RecoveryRecord, ErrorView> {
    if outside::uuid_form(id) is None {
        Err(ErrorView::Transaction("恢复记录标识无效"@))
    } else {
        match recorded(stored) {
            Err(error) => Err(error),
            Ok(None) => Err(ErrorView::Transaction("恢复记录不存在"@)),
            Ok(Some(record)) => if record.id@ != id {
                Err(ErrorView::Transaction("恢复记录标识不匹配"@))
            } else {
                Ok(record)
            },
        }
    }
}

/// Whether the result is the expected one.
pub open spec fn is_result<T>(result: Result<T, AppError>, expected: Result<T, ErrorView>) -> bool {
    match (result, expected) {
        (Ok(value), Ok(expected)) => value == expected,
        (Err(error), Err(expected)) => error@ == expected,
        _ => false,
    }
}

/// A payload with its id, as it was read.
#[derive(Debug)]
pub struct Identified<T> {
    pub id: String,
    pub value: T,
}

/// What came of the work on the slot.
#[derive(Debug)]
pub enum RecoveryReply {
    Done(Result<(), AppError>),
    Record(StoredRecord),
    Exists(Result<bool, AppError>),
    /// Whether the slot's directory is empty, where its first entry could be read.
    Empty(Result<Result<bool, String>, AppError>),
    /// The id under which a payload was written.
    Written(Result<String, AppError>),
    Envelope(Result<Identified<RecoveryEnvelope>, AppError>),
    Payload(Result<Identified<SecurePayload>, AppError>),
    Context(Result<RecoveryEnvelope, AppError>),
    Candidate(Result<SecurePayload, AppError>),
    Authenticated(Result<bool, AppError>),
    Moved(Result<RecoveryRecord, AppError>),
    Clock(u64),
    /// The names in the slot's directory, and why there are no more of them, where that is
    /// an error.
    Names(Result<(Vec<String>, Option<String>), AppError>),
}

/// The slot.
#[derive(Debug)]
pub struct RecoveryStore {
    pub root: String,
    pub record_path: String,
    pub before_directory: String,
    pub candidate_directory: String,
}

/// Preparing an operation: the slot has to be empty; the client's state is written
/// beside it, read again and moved to its place, and then the record is written. Each
/// state names the work that is to be done.
#[derive(Debug)]
pub enum PrepareRecovery {
    /// The slot is to be read.
    CheckingSlot { job: PrepareJob },
    /// The slot's directory has to be empty.
    CheckingEmpty { job: PrepareJob },
    /// The directory in which the client's state is written is to be created.
    Creating { job: PrepareJob, id: String },
    /// The client's state is to be written to that directory.
    Writing { job: PrepareJob, id: String },
    /// The client's state is to be read from that directory.
    Rereading { job: PrepareJob, id: String, before_id: String },
    /// That directory is to be moved to its place.
    Publishing { job: PrepareJob, id: String, before_id: String },
    /// The time is to be read.
    ReadingClock { job: PrepareJob, id: String, before_id: String },
    /// The record is to be saved.
    Saving { record: RecoveryRecord },
    /// The directory in which the client's state was written is to be removed, whatever
    /// comes of it, after this error.
    RemovingStaging { id: String, error: AppError },
    /// It is to be found out whether the record is there, after this error.
    CheckingRecord { error: AppError },
    /// The client's state is to be removed, whatever comes of it, after this error.
    RemovingBefore { error: AppError },
}

/// The operation that is prepared.
#[derive(Debug)]
pub struct PrepareJob {
    pub kind: RecoveryKind,
    pub previous_client_was_running: bool,
    pub envelope: RecoveryEnvelope,
}

/// Whether the step cleans up after the error.
pub open spec fn abandons(
    id: String,
    error: ErrorView,
    step: Step<PrepareRecovery, RecoveryRecord>,
) -> bool {
    &&& step matches Step::Perform {
        operation: PrepareRecovery::RemovingStaging { id: kept, error: failure },
        report: None,
    }
    &&& kept == id
    &&& failure@ == error
}

fn abandon(id: String, error: AppError) -> (step: Step<PrepareRecovery, RecoveryRecord>)
    ensures
        abandons(id, error@, step),
{
    step::go(PrepareRecovery::RemovingStaging { id, error })
}

/// Whether both contexts are of the same kind.
pub open spec fn same_kind(left: RecoveryContext, right: RecoveryContext) -> bool {
    (left is Switch) == (right is Switch)
}

impl PrepareRecovery {
    /// Whether the answer leads to the step.
    pub open spec fn leads_to(
        self,
        reply: RecoveryReply,
        step: Step<PrepareRecovery, RecoveryRecord>,
    ) -> bool {
        match (self, reply) {
            (PrepareRecovery::CheckingSlot { job }, RecoveryReply::Record(stored)) => step@ == (
            match recorded(stored) {
                Err(error) => step::failing::<PrepareRecovery, RecoveryRecord>(error),
                Ok(Some(_)) => step::failing(
                    ErrorView::Transaction("已有账号操作正在等待完成或恢复"@),
                ),
                Ok(None) => step::going(PrepareRecovery::CheckingEmpty { job }),
            }),
            (PrepareRecovery::CheckingEmpty { job }, RecoveryReply::Empty(empty)) => match empty {
                Err(error) => step@ == step::failing::<PrepareRecovery, RecoveryRecord>(error@),
                Ok(Err(error)) => step@ == step::failing::<PrepareRecovery, RecoveryRecord>(
                    ErrorView::Transaction("无法读取恢复目录项："@ + error@),
                ),
                Ok(Ok(false)) => step@ == step::failing::<PrepareRecovery, RecoveryRecord>(
                    ErrorView::Transaction("恢复目录包含未完成或未识别的数据"@),
                ),
                Ok(Ok(true)) => {
                    &&& step matches Step::Perform {
                        operation: PrepareRecovery::Creating { job: kept, id },
                        report: None,
                    }
                    &&& kept == job
                    &&& outside::uuid_form(id@) == Some(id@)
                },
            },
            (PrepareRecovery::Creating { job, id }, RecoveryReply::Done(done)) => step@ == (
            match done {
                Err(error) => step::failing::<PrepareRecovery, RecoveryRecord>(error@),
                Ok(_) => step::going(PrepareRecovery::Writing { job, id }),
            }),
            (PrepareRecovery::Writing { job, id }, RecoveryReply::Written(written)) =>
                match written {
                    Err(error) => abandons(id, error@, step),
                    Ok(before_id) => step@ == step::going::<PrepareRecovery, RecoveryRecord>(
                        PrepareRecovery::Rereading { job, id, before_id },
                    ),
                },
            (PrepareRecovery::Rereading { job, id, before_id }, RecoveryReply::Envelope(read)) =>
                match read {
                    Err(error) => abandons(id, error@, step),
                    Ok(read) => if read.id@ != before_id@ {
                        abandons(id, ErrorView::Transaction("恢复负载标识校验失败"@), step)
                    } else if !same_kind(read.value.context, job.envelope.context) {
                        abandons(id, ErrorView::Transaction("恢复负载发布前校验失败"@), step)
                    } else {
                        step@ == step::going::<PrepareRecovery, RecoveryRecord>(
                            PrepareRecovery::Publishing { job, id, before_id },
                        )
                    },
                },
            (PrepareRecovery::Publishing { job, id, before_id }, RecoveryReply::Done(done)) =>
                match done {
                    Err(error) => abandons(id, error@, step),
                    Ok(_) => step@ == step::going::<PrepareRecovery, RecoveryRecord>(
                        PrepareRecovery::ReadingClock { job, id, before_id },
                    ),
                },
            (PrepareRecovery::ReadingClock { job, id, before_id }, RecoveryReply::Clock(now)) =>
                step@ == step::going::<PrepareRecovery, RecoveryRecord>(
                    PrepareRecovery::Saving {
                        record: RecoveryRecord {
                            version: RECORD_VERSION,
                            id,
                            kind: job.kind,
                            state: RecoveryState::Prepared,
                            before_snapshot_id: before_id,
                            candidate_snapshot_id: None,
                            previous_client_was_running: job.previous_client_was_running,
                            created_at: now,
                        },
                    },
                ),
            (PrepareRecovery::Saving { record }, RecoveryReply::Done(done)) => match done {
                Err(error) => abandons(record.id, error@, step),
                Ok(_) => step@ == step::ending::<PrepareRecovery, RecoveryRecord>(record),
            },
            (PrepareRecovery::RemovingStaging { error, .. }, RecoveryReply::Done(_)) => step@
                == step::going::<PrepareRecovery, RecoveryRecord>(
                PrepareRecovery::CheckingRecord { error },
            ),
            (PrepareRecovery::CheckingRecord { error }, RecoveryReply::Exists(exists)) => step@ == (
            match exists {
                Err(failure) => step::failing::<PrepareRecovery, RecoveryRecord>(failure@),
                Ok(true) => step::failing(error@),
                Ok(false) => step::going(PrepareRecovery::RemovingBefore { error }),
            }),
            (PrepareRecovery::RemovingBefore { error }, RecoveryReply::Done(_)) => step@
                == step::failing::<PrepareRecovery, RecoveryRecord>(error@),
            _ => step@ == step::confused::<PrepareRecovery, RecoveryRecord>(),
        }
    }

    /// Takes the answer.
    pub fn resume(self, reply: RecoveryReply) -> (step: Step<PrepareRecovery, RecoveryRecord>)
        ensures
            self.leads_to(reply, step),
    {
        match (self, reply) {
            (PrepareRecovery::CheckingSlot { job }, RecoveryReply::Record(stored)) =>
                match RecoveryStore::record(stored) {
                    Err(error) => step::fail(error),
                    Ok(Some(_)) => step::fail(
                        AppError::Transaction("已有账号操作正在等待完成或恢复".to_owned()),
                    ),
                    Ok(None) => step::go(PrepareRecovery::CheckingEmpty { job }),
                },
            (PrepareRecovery::CheckingEmpty { job }, RecoveryReply::Empty(empty)) => match empty {
                Err(error) => step::fail(error),
                Ok(Err(error)) => step::fail(
                    AppError::Transaction(text::joined2("无法读取恢复目录项：", error.as_str())),
                ),
                Ok(Ok(false)) => step::fail(
                    AppError::Transaction("恢复目录包含未完成或未识别的数据".to_owned()),
                ),
                Ok(Ok(true)) => step::go(
                    PrepareRecovery::Creating { job, id: outside::new_id() },
                ),
            },
            (PrepareRecovery::Creating { job, id }, RecoveryReply::Done(done)) => match done {
                Err(error) => step::fail(error),
                Ok(_) => step::go(PrepareRecovery::Writing { job, id }),
            },
            (PrepareRecovery::Writing { job, id }, RecoveryReply::Written(written)) =>
                match written {
                    Err(error) => abandon(id, error),
                    Ok(before_id) => step::go(PrepareRecovery::Rereading { job, id, before_id }),
                },
            (PrepareRecovery::Rereading { job, id, before_id }, RecoveryReply::Envelope(read)) =>
                match read {
                    Err(error) => abandon(id, error),
                    Ok(read) => {
                        if !text::same_text(read.id.as_str(), before_id.as_str()) {
                            return abandon(
                                id,
                                AppError::Transaction("恢复负载标识校验失败".to_owned()),
                            );
                        }
                        let same = match (&read.value.context, &job.envelope.context) {
                            (RecoveryContext::Switch { .. }, RecoveryContext::Switch { .. }) => true,
                            (RecoveryContext::Login { .. }, RecoveryContext::Login { .. }) => true,
                            _ => false,
                        };
                        if !same {
                            return abandon(
                                id,
                                AppError::Transaction("恢复负载发布前校验失败".to_owned()),
                            );
                        }
                        step::go(PrepareRecovery::Publishing { job, id, before_id })
                    },
                },
            (PrepareRecovery::Publishing { job, id, before_id }, RecoveryReply::Done(done)) =>
                match done {
                    Err(error) => abandon(id, error),
                    Ok(_) => step::go(PrepareRecovery::ReadingClock { job, id, before_id }),
                },
            (PrepareRecovery::ReadingClock { job, id, before_id }, RecoveryReply::Clock(now)) =>
                step::go(
                    PrepareRecovery::Saving {
                        record: RecoveryRecord {
                            version: RECORD_VERSION,
                            id,
                            kind: job.kind,
                            state: RecoveryState::Prepared,
                            before_snapshot_id: before_id,
                            candidate_snapshot_id: None,
                            previous_client_was_running: job.previous_client_was_running,
                            created_at: now,
                        },
                    },
                ),
            (PrepareRecovery::Saving { record }, RecoveryReply::Done(done)) => match done {
                Err(error) => abandon(record.id, error),
                Ok(_) => step::end(record),
            },
            (PrepareRecovery::RemovingStaging { id: _, error }, RecoveryReply::Done(_)) => step::go(
                PrepareRecovery::CheckingRecord { error },
            ),
            (PrepareRecovery::CheckingRecord { error }, RecoveryReply::Exists(exists)) =>
                match exists {
                    Err(failure) => step::fail(failure),
                    Ok(true) => step::fail(error),
                    Ok(false) => step::go(PrepareRecovery::RemovingBefore { error }),
                },
            (PrepareRecovery::RemovingBefore { error }, RecoveryReply::Done(_)) => step::fail(error),
            _ => step::give_up(),
        }
    }
}

/// Whether a record may be moved from the one state to the other.
pub open spec fn may_move(from: RecoveryState, to: RecoveryState) -> bool {
    ||| from == RecoveryState::Prepared && to == RecoveryState::AwaitingUser
    ||| from == RecoveryState::AwaitingUser && to == RecoveryState::Committed
    ||| from == RecoveryState::Prepared && to == RecoveryState::Committed
}

/// Moving the record to another state. Each state names the work that is to be done.
#[derive(Debug)]
pub enum MoveRecord {
    /// The slot is to be read.
    Reading { id: String, state: RecoveryState },
    /// The record is to be saved.
    Saving { record: RecoveryRecord },
}

impl MoveRecord {
    /// What the answer leads to.
    pub open spec fn next(self, reply: RecoveryReply) -> StepView<MoveRecord, RecoveryRecord> {
        match (self, reply) {
            (MoveRecord::Reading { id, state }, RecoveryReply::Record(stored)) => match required(
                id@,
                stored,
            ) {
                Err(error) => step::failing(error),
                Ok(record) => if may_move(record.state, state) {
                    step::going(MoveRecord::Saving { record: RecoveryRecord { state, ..record } })
                } else {
                    step::failing(ErrorView::Transaction("恢复状态转换无效"@))
                },
            },
            (MoveRecord::Saving { record }, RecoveryReply::Done(done)) => match done {
                Err(error) => step::failing(error@),
                Ok(_) => step::ending(record),
            },
            _ => step::confused(),
        }
    }

    /// Takes the answer.
    pub fn resume(self, reply: RecoveryReply) -> (step: Step<MoveRecord, RecoveryRecord>)
        ensures
            step@ == self.next(reply),
    {
        match (self, reply) {
            (MoveRecord::Reading { id, state }, RecoveryReply::Record(stored)) =>
                match RecoveryStore::require(id.as_str(), stored) {
                    Err(error) => step::fail(error),
                    Ok(record) => {
                        let valid = match (record.state, state) {
                            (RecoveryState::Prepared, RecoveryState::AwaitingUser) => true,
                            (RecoveryState::AwaitingUser, RecoveryState::Committed) => true,
                            (RecoveryState::Prepared, RecoveryState::Committed) => true,
                            _ => false,
                        };
                        if !valid {
                            return step::fail(AppError::Transaction("恢复状态转换无效".to_owned()));
                        }
                        let mut record = record;
                        record.state = state;
                        step::go(MoveRecord::Saving { record })
                    },
                },
            (MoveRecord::Saving { record }, RecoveryReply::Done(done)) => match done {
                Err(error) => step::fail(error),
                Ok(_) => step::end(record),
            },
            _ => step::give_up(),
        }
    }
}

/// Emptying the slot: the record goes first. Each state names the work that is to be
/// done.
#[derive(Debug)]
pub enum CleanupSlot {
    /// It is to be found out whether the record is there.
    CheckingRecord,
    /// The record is to be removed.
    RemovingRecord,
    /// The client's state after a login is to be removed.
    RemovingCandidate,
    /// The client's state from before the operation is to be removed.
    RemovingBefore,
    /// The client's state from before an operation without a record is to be removed.
    RemovingOrphanedBefore,
    /// The client's state after a login without a record is to be removed.
    RemovingOrphanedCandidate,
    /// The slot's directory is to be listed.
    Listing,
    /// The directory with this number is to be removed.
    Removing { names: Vec<String>, index: usize, failure: Option<String> },
}

/// Why an entry of the slot's directory cannot be removed.
pub open spec fn entry_error(name: Seq<char>) -> Option<ErrorView> {
    let id = if text::begins_with(name, ".preparing-"@) {
        Some(name.subrange(".preparing-"@.len() as int, name.len() as int))
    } else if text::begins_with(name, ".candidate-"@) {
        Some(name.subrange(".candidate-"@.len() as int, name.len() as int))
    } else {
        None
    };
    match id {
        None => Some(ErrorView::Transaction("恢复目录包含未识别项目："@ + name)),
        Some(id) => if outside::uuid_form(id) is None {
            Some(ErrorView::Transaction("恢复暂存目录名称无效"@))
        } else {
            None
        },
    }
}

/// Checks that an entry of the slot's directory is one that an operation leaves there.
pub fn check_entry(name: &str) -> (result: Result<(), AppError>)
    ensures
        match result {
            Ok(_) => entry_error(name@) is None,
            Err(error) => entry_error(name@) == Some(error@),
        },
{
    let id = match text::strip_prefix(name, ".preparing-") {
        Some(id) => id,
        None => match text::strip_prefix(name, ".candidate-") {
            Some(id) => id,
            None => {
                return Err(
                    AppError::Transaction(text::joined2("恢复目录包含未识别项目：", name)),
                );
            },
        },
    };
    if !outside::is_uuid(id.as_str()) {
        return Err(AppError::Transaction("恢复暂存目录名称无效".to_owned()));
    }
    Ok(())
}

/// The step to the entry with this number.
pub open spec fn to_entry(names: Vec<String>, index: int, failure: Option<String>) -> StepView<
    CleanupSlot,
    (),
> {
    if index < names.len() {
        match entry_error(names@[index]@) {
            Some(error) => step::failing(error),
            None => step::going(
                CleanupSlot::Removing { names, index: index as usize, failure },
            ),
        }
    } else {
        match failure {
            Some(error) => step::failing(
                ErrorView::Transaction("无法读取恢复目录项："@ + error@),
            ),
            None => step::ending(()),
        }
    }
}

fn go_to_entry(names: Vec<String>, index: usize, failure: Option<String>) -> (step: Step<
    CleanupSlot,
    (),
>)
    ensures
        step@ == to_entry(names, index as int, failure),
        step matches Step::Perform { operation, .. } ==> operation.valid(),
{
    if index < names.len() {
        match check_entry(names[index].as_str()) {
            Err(error) => step::fail(error),
            Ok(_) => step::go(CleanupSlot::Removing { names, index, failure }),
        }
    } else {
        match failure {
            Some(error) => step::fail(
                AppError::Transaction(text::joined2("无法读取恢复目录项：", error.as_str())),
            ),
            None => step::end(()),
        }
    }
}

impl CleanupSlot {
    /// Whether the number is that of an entry.
    pub open spec fn valid(self) -> bool {
        self matches CleanupSlot::Removing { names, index, .. } ==> index < names.len()
    }

    /// What the answer leads to.
    pub open spec fn next(self, reply: RecoveryReply) -> StepView<CleanupSlot, ()> {
        match (self, reply) {
            (CleanupSlot::CheckingRecord, RecoveryReply::Exists(exists)) => match exists {
                Err(error) => step::failing(error@),
                Ok(true) => step::going(CleanupSlot::RemovingRecord),
                Ok(false) => step::going(CleanupSlot::RemovingCandidate),
            },
            (CleanupSlot::RemovingRecord, RecoveryReply::Done(done)) => match done {
                Err(error) => step::failing(error@),
                Ok(_) => step::going(CleanupSlot::RemovingCandidate),
            },
            (CleanupSlot::RemovingCandidate, RecoveryReply::Done(done)) => match done {
                Err(error) => step::failing(error@),
                Ok(_) => step::going(CleanupSlot::RemovingBefore),
            },
            (CleanupSlot::RemovingBefore, RecoveryReply::Done(done)) => match done {
                Err(error) => step::failing(error@),
                Ok(_) => step::going(CleanupSlot::Listing),
            },
            (CleanupSlot::RemovingOrphanedBefore, RecoveryReply::Done(done)) => match done {
                Err(error) => step::failing(error@),
                Ok(_) => step::going(CleanupSlot::RemovingOrphanedCandidate),
            },
            (CleanupSlot::RemovingOrphanedCandidate, RecoveryReply::Done(done)) => match done {
                Err(error) => step::failing(error@),
                Ok(_) => step::going(CleanupSlot::Listing),
            },
            (CleanupSlot::Listing, RecoveryReply::Names(names)) => match names {
                Err(error) => step::failing(error@),
                Ok(listed) => to_entry(listed.0, 0, listed.1),
            },
            (CleanupSlot::Removing { names, index, failure }, RecoveryReply::Done(done)) =>
                match done {
                    Err(error) => step::failing(error@),
                    Ok(_) => to_entry(names, index + 1, failure),
                },
            _ => step::confused(),
        }
    }

    /// Takes the answer.
    pub fn resume(self, reply: RecoveryReply) -> (step: Step<CleanupSlot, ()>)
        requires
            self.valid(),
        ensures
            step@ == self.next(reply),
            step matches Step::Perform { operation, .. } ==> operation.valid(),
    {
        match (self, reply) {
            (CleanupSlot::CheckingRecord, RecoveryReply::Exists(exists)) => match exists {
                Err(error) => step::fail(error),
                Ok(true) => step::go(CleanupSlot::RemovingRecord),
                Ok(false) => step::go(CleanupSlot::RemovingCandidate),
            },
            (CleanupSlot::RemovingRecord, RecoveryReply::Done(done)) => match done {
                Err(error) => step::fail(error),
                Ok(_) => step::go(CleanupSlot::RemovingCandidate),
            },
            (CleanupSlot::RemovingCandidate, RecoveryReply::Done(done)) => match done {
                Err(error) => step::fail(error),
                Ok(_) => step::go(CleanupSlot::RemovingBefore),
            },
            (CleanupSlot::RemovingBefore, RecoveryReply::Done(done)) => match done {
                Err(error) => step::fail(error),
                Ok(_) => step::go(CleanupSlot::Listing),
            },
            (CleanupSlot::RemovingOrphanedBefore, RecoveryReply::Done(done)) => match done {
                Err(error) => step::fail(error),
                Ok(_) => step::go(CleanupSlot::RemovingOrphanedCandidate),
            },
            (CleanupSlot::RemovingOrphanedCandidate, RecoveryReply::Done(done)) => match done {
                Err(error) => step::fail(error),
                Ok(_) => step::go(CleanupSlot::Listing),
            },
            (CleanupSlot::Listing, RecoveryReply::Names(names)) => match names {
                Err(error) => step::fail(error),
                Ok(listed) => go_to_entry(listed.0, 0, listed.1),
            },
            (CleanupSlot::Removing { names, index, failure }, RecoveryReply::Done(done)) =>
                match done {
                    Err(error) => step::fail(error),
                    Ok(_) => go_to_entry(names, index + 1, failure),
                },
            _ => step::give_up(),
        }
    }
}

/// Opening the slot: its directory is made private and kept out of the backups, and what
/// operations without a record left there is removed. Each state names the work that is to
/// be done.
#[derive(Debug)]
pub enum OpenSlot {
    /// The slot's directory is to be made private, and created where it is not there.
    Securing,
    /// It is to be kept out of the backups.
    Excluding,
    /// It is to be found out whether the record is there.
    CheckingRecord,
    /// What operations without a record left is to be removed.
    Cleaning { cleanup: CleanupSlot },
}

/// What came of the work for [`OpenSlot`].
#[derive(Debug)]
pub enum OpenSlotReply {
    Secured(Result<(), AppError>),
    Excluded(Result<(), String>),
    Exists(Result<bool, AppError>),
    Cleanup(RecoveryReply),
}

/// The step of the removal as one of the whole.
pub open spec fn cleanup_step(step: StepView<CleanupSlot, ()>) -> StepView<OpenSlot, ()> {
    match step {
        StepView::Perform { operation, report } => StepView::Perform {
            operation: OpenSlot::Cleaning { cleanup: operation },
            report,
        },
        StepView::Finished(result) => StepView::Finished(result),
    }
}

impl OpenSlot {
    /// Whether the removal is one that can be resumed.
    pub open spec fn valid(self) -> bool {
        self matches OpenSlot::Cleaning { cleanup } ==> cleanup.valid()
    }

    /// What the answer leads to.
    pub open spec fn next(self, reply: OpenSlotReply) -> StepView<OpenSlot, ()> {
        match (self, reply) {
            (OpenSlot::Securing, OpenSlotReply::Secured(secured)) => match secured {
                Err(error) => step::failing(error@),
                Ok(_) => step::going(OpenSlot::Excluding),
            },
            (OpenSlot::Excluding, OpenSlotReply::Excluded(excluded)) => match excluded {
                Err(error) => step::failing(ErrorView::Transaction(error@)),
                Ok(_) => step::going(OpenSlot::CheckingRecord),
            },
            (OpenSlot::CheckingRecord, OpenSlotReply::Exists(exists)) => match exists {
                Err(error) => step::failing(error@),
                Ok(true) => step::ending(()),
                Ok(false) => step::going(
                    OpenSlot::Cleaning { cleanup: CleanupSlot::RemovingOrphanedBefore },
                ),
            },
            (OpenSlot::Cleaning { cleanup }, OpenSlotReply::Cleanup(reply)) => cleanup_step(
                cleanup.next(reply),
            ),
            _ => step::confused(),
        }
    }

    /// Takes the answer.
    pub fn resume(self, reply: OpenSlotReply) -> (step: Step<OpenSlot, ()>)
        requires
            self.valid(),
        ensures
            step@ == self.next(reply),
            step matches Step::Perform { operation, .. } ==> operation.valid(),
    {
        match (self, reply) {
            (OpenSlot::Securing, OpenSlotReply::Secured(secured)) => match secured {
                Err(error) => step::fail(error),
                Ok(_) => step::go(OpenSlot::Excluding),
            },
            (OpenSlot::Excluding, OpenSlotReply::Excluded(excluded)) => match excluded {
                Err(error) => step::fail(AppError::Transaction(error)),
                Ok(_) => step::go(OpenSlot::CheckingRecord),
            },
            (OpenSlot::CheckingRecord, OpenSlotReply::Exists(exists)) => match exists {
                Err(error) => step::fail(error),
                Ok(true) => step::end(()),
                Ok(false) => step::go(
                    OpenSlot::Cleaning { cleanup: RecoveryStore::cleanup_orphans() },
                ),
            },
            (OpenSlot::Cleaning { cleanup }, OpenSlotReply::Cleanup(reply)) => match cleanup.resume(
                reply,
            ) {
                Step::Perform { operation, report } => Step::Perform {
                    operation: OpenSlot::Cleaning { cleanup: operation },
                    report,
                },
                Step::Finished(result) => Step::Finished(result),
            },
            _ => step::give_up(),
        }
    }
}

/// Begins to open the slot.
pub fn open_slot() -> (operation: OpenSlot)
    ensures
        operation == OpenSlot::Securing,
        operation.valid(),
{
    OpenSlot::Securing
}

/// Where the slot holds a record, opening it removes nothing: a removal begins only where it
/// was found that there is none, and a record that is there ends the opening.
pub proof fn law_opening_keeps_a_recorded_operation(operation: OpenSlot, reply: OpenSlotReply)
    ensures
        operation.next(reply) matches StepView::Perform {
            operation: OpenSlot::Cleaning { cleanup },
            ..
        } ==> operation is Cleaning || (operation is CheckingRecord && reply
            == OpenSlotReply::Exists(Ok(false)) && cleanup is RemovingOrphanedBefore),
        operation is CheckingRecord && reply == OpenSlotReply::Exists(Ok(true)) ==> operation.next(
            reply,
        ) == step::ending::<OpenSlot, ()>(()),
{
}

/// What came of emptying the slot once an operation is committed.
#[derive(Debug)]
pub enum CleanupOutcome {
    Clean,
    /// The slot could not be emptied.
    Pending(String),
}

/// A [`CleanupOutcome`] with its text as a character sequence.
pub enum CleanupOutcomeView {
    Clean,
    Pending(Seq<char>),
}

impl View for CleanupOutcome {
    type V = CleanupOutcomeView;

    open spec fn view(&self) -> CleanupOutcomeView {
        match *self {
            CleanupOutcome::Clean => CleanupOutcomeView::Clean,
            CleanupOutcome::Pending(error) => CleanupOutcomeView::Pending(error@),
        }
    }
}

/// What came of emptying the slot.
pub open spec fn outcome_of(cleaned: Result<(), AppError>) -> CleanupOutcomeView {
    match cleaned {
        Ok(_) => CleanupOutcomeView::Clean,
        Err(error) => CleanupOutcomeView::Pending(error@.message()),
    }
}

/// What came of emptying the slot.
pub fn cleanup_outcome(cleaned: Result<(), AppError>) -> (outcome: CleanupOutcome)
    ensures
        outcome@ == outcome_of(cleaned),
{
    match cleaned {
        Ok(_) => CleanupOutcome::Clean,
        Err(error) => CleanupOutcome::Pending(error.message()),
    }
}

/// Committing an operation: the record is moved, and then the slot is emptied. Each
/// state names the work that is to be done.
#[derive(Debug)]
pub enum CommitRecovery {
    /// The record is to be moved to committed.
    Moving { id: String },
    /// The slot is to be emptied.
    Cleaning,
}

impl CommitRecovery {
    /// What the answer leads to.
    pub open spec fn next(self, reply: RecoveryReply) -> StepView<
        CommitRecovery,
        CleanupOutcomeView,
    > {
        match (self, reply) {
            (CommitRecovery::Moving { .. }, RecoveryReply::Moved(moved)) => match moved {
                Err(error) => step::failing(error@),
                Ok(_) => step::going(CommitRecovery::Cleaning),
            },
            (CommitRecovery::Cleaning, RecoveryReply::Done(done)) => step::ending(outcome_of(done)),
            _ => step::confused(),
        }
    }

    /// Takes the answer.
    pub fn resume(self, reply: RecoveryReply) -> (step: Step<CommitRecovery, CleanupOutcome>)
        ensures
            step@ == self.next(reply),
    {
        match (self, reply) {
            (CommitRecovery::Moving { id: _ }, RecoveryReply::Moved(moved)) => match moved {
                Err(error) => step::fail(error),
                Ok(_) => step::go(CommitRecovery::Cleaning),
            },
            (CommitRecovery::Cleaning, RecoveryReply::Done(done)) => step::end(
                cleanup_outcome(done),
            ),
            _ => step::give_up(),
        }
    }
}

/// Staging the client's state after a login: it is written beside the slot, read again,
/// moved to its place, and named in the record. Each state names the work that is to be
/// done.
#[derive(Debug)]
pub enum StageCandidate {
    /// The slot is to be read.
    Reading { id: String, payload: SecurePayload },
    /// It is to be found out whether a login is among the preferences.
    CheckingLogin { record: RecoveryRecord, payload: SecurePayload },
    /// What is staged already is to be read.
    ReadingExisting { record: RecoveryRecord, payload: SecurePayload },
    /// What lies in the place of the staged state is to be removed.
    RemovingOld { record: RecoveryRecord, payload: SecurePayload },
    /// What was left of an earlier attempt is to be removed.
    RemovingStale { record: RecoveryRecord, payload: SecurePayload },
    /// The directory in which the state is written is to be created.
    Creating { record: RecoveryRecord, payload: SecurePayload },
    /// The state is to be written to that directory.
    Writing { record: RecoveryRecord, payload: SecurePayload },
    /// The state is to be read from that directory.
    Rereading { record: RecoveryRecord, payload: SecurePayload, candidate_id: String },
    /// That directory is to be moved to its place.
    Publishing { record: RecoveryRecord, candidate_id: String },
    /// The record is to be saved.
    Saving { record: RecoveryRecord },
    /// The directory in which the state was written is to be removed, whatever comes of
    /// it, after this error.
    RemovingStaging { id: String, error: AppError },
}

/// Whether both accounts are the same.
pub open spec fn same_account(left: Option<AccountKey>, right: Option<AccountKey>) -> bool {
    contracts::key_view(left) == contracts::key_view(right)
}

fn accounts_are_same(left: &Option<AccountKey>, right: &Option<AccountKey>) -> (same: bool)
    ensures
        same == same_account(*left, *right),
{
    match (left, right) {
        (Some(left), Some(right)) => *left == *right,
        (None, None) => true,
        _ => false,
    }
}

/// Whether the step cleans up after the error.
pub open spec fn unstages(
    id: String,
    error: ErrorView,
    step: Step<StageCandidate, RecoveryRecord>,
) -> bool {
    &&& step matches Step::Perform {
        operation: StageCandidate::RemovingStaging { id: kept, error: failure },
        report: None,
    }
    &&& kept == id
    &&& failure@ == error
}

fn unstage(id: String, error: AppError) -> (step: Step<StageCandidate, RecoveryRecord>)
    ensures
        unstages(id, error@, step),
{
    step::go(StageCandidate::RemovingStaging { id, error })
}

impl StageCandidate {
    /// Whether the answer leads to the step.
    pub open spec fn leads_to(
        self,
        reply: RecoveryReply,
        step: Step<StageCandidate, RecoveryRecord>,
    ) -> bool {
        match (self, reply) {
            (StageCandidate::Reading { id, payload }, RecoveryReply::Record(stored)) => step@ == (
            match required(id@, stored) {
                Err(error) => step::failing::<StageCandidate, RecoveryRecord>(error),
                Ok(record) => if record.kind != RecoveryKind::Login || record.state
                    != RecoveryState::AwaitingUser {
                    step::failing(ErrorView::Login("当前登录会话不能暂存账号快照"@))
                } else if payload.account is None {
                    step::failing(ErrorView::Login("登录结果不包含可保存的认证状态"@))
                } else {
                    step::going(StageCandidate::CheckingLogin { record, payload })
                },
            }),
            (StageCandidate::CheckingLogin { record, payload }, RecoveryReply::Authenticated(yes)) =>
                step@ == (match yes {
                    Err(error) => step::failing::<StageCandidate, RecoveryRecord>(error@),
                    Ok(false) => step::failing(
                        ErrorView::Login("登录结果不包含可保存的认证状态"@),
                    ),
                    Ok(true) => if record.candidate_snapshot_id is Some {
                        step::going(StageCandidate::ReadingExisting { record, payload })
                    } else {
                        step::going(StageCandidate::RemovingOld { record, payload })
                    },
                }),
            (StageCandidate::ReadingExisting { record, payload }, RecoveryReply::Candidate(read)) =>
                step@ == (match read {
                    Err(error) => step::failing::<StageCandidate, RecoveryRecord>(error@),
                    Ok(existing) => if same_account(existing.account, payload.account) {
                        step::ending(record)
                    } else {
                        step::failing(
                            ErrorView::Login("已暂存的登录账号与本次选择不一致，请取消后重试"@),
                        )
                    },
                }),
            (StageCandidate::RemovingOld { record, payload }, RecoveryReply::Done(done)) => step@
                == (match done {
                Err(error) => step::failing::<StageCandidate, RecoveryRecord>(error@),
                Ok(_) => step::going(StageCandidate::RemovingStale { record, payload }),
            }),
            (StageCandidate::RemovingStale { record, payload }, RecoveryReply::Done(done)) => step@
                == (match done {
                Err(error) => step::failing::<StageCandidate, RecoveryRecord>(error@),
                Ok(_) => step::going(StageCandidate::Creating { record, payload }),
            }),
            (StageCandidate::Creating { record, payload }, RecoveryReply::Done(done)) => step@ == (
            match done {
                Err(error) => step::failing::<StageCandidate, RecoveryRecord>(error@),
                Ok(_) => step::going(StageCandidate::Writing { record, payload }),
            }),
            (StageCandidate::Writing { record, payload }, RecoveryReply::Written(written)) =>
                match written {
                    Err(error) => unstages(record.id, error@, step),
                    Ok(candidate_id) => step@ == step::going::<StageCandidate, RecoveryRecord>(
                        StageCandidate::Rereading { record, payload, candidate_id },
                    ),
                },
            (
                StageCandidate::Rereading { record, payload, candidate_id },
                RecoveryReply::Payload(read),
            ) => match read {
                Err(error) => unstages(record.id, error@, step),
                Ok(read) => if read.id@ != candidate_id@ || !same_account(
                    read.value.account,
                    payload.account,
                ) {
                    unstages(
                        record.id,
                        ErrorView::Transaction("候选账号快照发布前校验失败"@),
                        step,
                    )
                } else {
                    step@ == step::going::<StageCandidate, RecoveryRecord>(
                        StageCandidate::Publishing { record, candidate_id },
                    )
                },
            },
            (StageCandidate::Publishing { record, candidate_id }, RecoveryReply::Done(done)) =>
                match done {
                    Err(error) => unstages(record.id, error@, step),
                    Ok(_) => step@ == step::going::<StageCandidate, RecoveryRecord>(
                        StageCandidate::Saving {
                            record: RecoveryRecord {
                                candidate_snapshot_id: Some(candidate_id),
                                ..record
                            },
                        },
                    ),
                },
            (StageCandidate::Saving { record }, RecoveryReply::Done(done)) => match done {
                Err(error) => unstages(record.id, error@, step),
                Ok(_) => step@ == step::ending::<StageCandidate, RecoveryRecord>(record),
            },
            (StageCandidate::RemovingStaging { error, .. }, RecoveryReply::Done(_)) => step@
                == step::failing::<StageCandidate, RecoveryRecord>(error@),
            _ => step@ == step::confused::<StageCandidate, RecoveryRecord>(),
        }
    }

    /// Takes the answer.
    pub fn resume(self, reply: RecoveryReply) -> (step: Step<StageCandidate, RecoveryRecord>)
        ensures
            self.leads_to(reply, step),
    {
        match (self, reply) {
            (StageCandidate::Reading { id, payload }, RecoveryReply::Record(stored)) =>
                match RecoveryStore::require(id.as_str(), stored) {
                    Err(error) => step::fail(error),
                    Ok(record) => if record.kind != RecoveryKind::Login || record.state
                        != RecoveryState::AwaitingUser {
                        step::fail(AppError::Login("当前登录会话不能暂存账号快照".to_owned()))
                    } else if payload.account.is_none() {
                        step::fail(AppError::Login("登录结果不包含可保存的认证状态".to_owned()))
                    } else {
                        step::go(StageCandidate::CheckingLogin { record, payload })
                    },
                },
            (StageCandidate::CheckingLogin { record, payload }, RecoveryReply::Authenticated(yes)) =>
                match yes {
                    Err(error) => step::fail(error),
                    Ok(false) => step::fail(
                        AppError::Login("登录结果不包含可保存的认证状态".to_owned()),
                    ),
                    Ok(true) => if record.candidate_snapshot_id.is_some() {
                        step::go(StageCandidate::ReadingExisting { record, payload })
                    } else {
                        step::go(StageCandidate::RemovingOld { record, payload })
                    },
                },
            (StageCandidate::ReadingExisting { record, payload }, RecoveryReply::Candidate(read)) =>
                match read {
                    Err(error) => step::fail(error),
                    Ok(existing) => if accounts_are_same(&existing.account, &payload.account) {
                        step::end(record)
                    } else {
                        step::fail(
                            AppError::Login(
                                "已暂存的登录账号与本次选择不一致，请取消后重试".to_owned(),
                            ),
                        )
                    },
                },
            (StageCandidate::RemovingOld { record, payload }, RecoveryReply::Done(done)) =>
                match done {
                    Err(error) => step::fail(error),
                    Ok(_) => step::go(StageCandidate::RemovingStale { record, payload }),
                },
            (StageCandidate::RemovingStale { record, payload }, RecoveryReply::Done(done)) =>
                match done {
                    Err(error) => step::fail(error),
                    Ok(_) => step::go(StageCandidate::Creating { record, payload }),
                },
            (StageCandidate::Creating { record, payload }, RecoveryReply::Done(done)) => match done {
                Err(error) => step::fail(error),
                Ok(_) => step::go(StageCandidate::Writing { record, payload }),
            },
            (StageCandidate::Writing { record, payload }, RecoveryReply::Written(written)) =>
                match written {
                    Err(error) => unstage(record.id, error),
                    Ok(candidate_id) => step::go(
                        StageCandidate::Rereading { record, payload, candidate_id },
                    ),
                },
            (
                StageCandidate::Rereading { record, payload, candidate_id },
                RecoveryReply::Payload(read),
            ) => match read {
                Err(error) => unstage(record.id, error),
                Ok(read) => if !text::same_text(read.id.as_str(), candidate_id.as_str())
                    || !accounts_are_same(&read.value.account, &payload.account) {
                    unstage(
                        record.id,
                        AppError::Transaction("候选账号快照发布前校验失败".to_owned()),
                    )
                } else {
                    step::go(StageCandidate::Publishing { record, candidate_id })
                },
            },
            (StageCandidate::Publishing { record, candidate_id }, RecoveryReply::Done(done)) =>
                match done {
                    Err(error) => unstage(record.id, error),
                    Ok(_) => {
                        let mut record = record;
                        record.candidate_snapshot_id = Some(candidate_id);
                        step::go(StageCandidate::Saving { record })
                    },
                },
            (StageCandidate::Saving { record }, RecoveryReply::Done(done)) => match done {
                Err(error) => unstage(record.id, error),
                Ok(_) => step::end(record),
            },
            (StageCandidate::RemovingStaging { id: _, error }, RecoveryReply::Done(_)) => step::fail(
                error,
            ),
            _ => step::give_up(),
        }
    }
}

/// Reading the client's state that was staged after a login. Each state names the work
/// that is to be done.
#[derive(Debug)]
pub enum ReadCandidate {
    /// The slot is to be read.
    Reading { id: String },
    /// The staged state is to be read; it has to have this id.
    ReadingPayload { expected: String },
}

impl ReadCandidate {
    /// What the answer leads to.
    pub open spec fn next(self, reply: RecoveryReply) -> StepView<ReadCandidate, SecurePayload> {
        match (self, reply) {
            (ReadCandidate::Reading { id }, RecoveryReply::Record(stored)) => match required(
                id@,
                stored,
            ) {
                Err(error) => step::failing(error),
                Ok(record) => if record.kind != RecoveryKind::Login {
                    step::failing(ErrorView::Login("恢复记录不是登录会话"@))
                } else {
                    match record.candidate_snapshot_id {
                        None => step::failing(ErrorView::Login("登录候选快照不存在"@)),
                        Some(expected) => step::going(ReadCandidate::ReadingPayload { expected }),
                    }
                },
            },
            (ReadCandidate::ReadingPayload { expected }, RecoveryReply::Payload(read)) =>
                match read {
                    Err(error) => step::failing(error@),
                    Ok(read) => if read.id@ != expected@ || read.value.account is None {
                        step::failing(ErrorView::Transaction("登录候选快照与恢复记录不匹配"@))
                    } else {
                        step::ending(read.value)
                    },
                },
            _ => step::confused(),
        }
    }

    /// Takes the answer.
    pub fn resume(self, reply: RecoveryReply) -> (step: Step<ReadCandidate, SecurePayload>)
        ensures
            step@ == self.next(reply),
    {
        match (self, reply) {
            (ReadCandidate::Reading { id }, RecoveryReply::Record(stored)) =>
                match RecoveryStore::require(id.as_str(), stored) {
                    Err(error) => step::fail(error),
                    Ok(record) => if record.kind != RecoveryKind::Login {
                        step::fail(AppError::Login("恢复记录不是登录会话".to_owned()))
                    } else {
                        match record.candidate_snapshot_id {
                            None => step::fail(AppError::Login("登录候选快照不存在".to_owned())),
                            Some(expected) => step::go(ReadCandidate::ReadingPayload { expected }),
                        }
                    },
                },
            (ReadCandidate::ReadingPayload { expected }, RecoveryReply::Payload(read)) =>
                match read {
                    Err(error) => step::fail(error),
                    Ok(read) => if !text::same_text(read.id.as_str(), expected.as_str())
                        || read.value.account.is_none() {
                        step::fail(
                            AppError::Transaction("登录候选快照与恢复记录不匹配".to_owned()),
                        )
                    } else {
                        step::end(read.value)
                    },
                },
            _ => step::give_up(),
        }
    }
}

/// Marking a login as committed: its state has to be staged. Each state names the work
/// that is to be done.
#[derive(Debug)]
pub enum MarkCommitted {
    /// The slot is to be read.
    Reading { id: String },
    /// The staged state is to be read.
    ReadingCandidate { id: String },
    /// The record is to be moved to committed.
    Moving { id: String },
}

impl MarkCommitted {
    /// What the answer leads to.
    pub open spec fn next(self, reply: RecoveryReply) -> StepView<MarkCommitted, RecoveryRecord> {
        match (self, reply) {
            (MarkCommitted::Reading { id }, RecoveryReply::Record(stored)) => match required(
                id@,
                stored,
            ) {
                Err(error) => step::failing(error),
                Ok(record) => if record.kind != RecoveryKind::Login || record.candidate_snapshot_id
                    is None {
                    step::failing(ErrorView::Login("登录结果尚未完整暂存"@))
                } else {
                    step::going(MarkCommitted::ReadingCandidate { id })
                },
            },
            (MarkCommitted::ReadingCandidate { id }, RecoveryReply::Candidate(read)) => match read {
                Err(error) => step::failing(error@),
                Ok(_) => step::going(MarkCommitted::Moving { id }),
            },
            (MarkCommitted::Moving { .. }, RecoveryReply::Moved(moved)) => match moved {
                Err(error) => step::failing(error@),
                Ok(record) => step::ending(record),
            },
            _ => step::confused(),
        }
    }

    /// Takes the answer.
    pub fn resume(self, reply: RecoveryReply) -> (step: Step<MarkCommitted, RecoveryRecord>)
        ensures
            step@ == self.next(reply),
    {
        match (self, reply) {
            (MarkCommitted::Reading { id }, RecoveryReply::Record(stored)) =>
                match RecoveryStore::require(id.as_str(), stored) {
                    Err(error) => step::fail(error),
                    Ok(record) => if record.kind != RecoveryKind::Login
                        || record.candidate_snapshot_id.is_none() {
                        step::fail(AppError::Login("登录结果尚未完整暂存".to_owned()))
                    } else {
                        step::go(MarkCommitted::ReadingCandidate { id })
                    },
                },
            (MarkCommitted::ReadingCandidate { id }, RecoveryReply::Candidate(read)) => match read {
                Err(error) => step::fail(error),
                Ok(_) => step::go(MarkCommitted::Moving { id }),
            },
            (MarkCommitted::Moving { id: _ }, RecoveryReply::Moved(moved)) => match moved {
                Err(error) => step::fail(error),
                Ok(record) => step::end(record),
            },
            _ => step::give_up(),
        }
    }
}

/// Undoing an operation: the client's state from before it is put in place, and then the
/// slot is emptied. Each state names the work that is to be done.
#[derive(Debug)]
pub enum RollbackRecovery {
    /// The slot is to be read.
    Reading { id: String },
    /// The client's state from before the operation is to be read.
    ReadingContext { id: String },
    /// The client's state is to be put in place.
    Applying { before: SecurePayload },
    /// The slot is to be emptied.
    Cleaning,
}

impl RollbackRecovery {
    /// What the answer leads to.
    pub open spec fn next(self, reply: RecoveryReply) -> StepView<RollbackRecovery, ()> {
        match (self, reply) {
            (RollbackRecovery::Reading { id }, RecoveryReply::Record(stored)) => match required(
                id@,
                stored,
            ) {
                Err(error) => step::failing(error),
                Ok(record) => if record.state == RecoveryState::Committed {
                    step::failing(ErrorView::Transaction("已提交的恢复记录不能回滚"@))
                } else {
                    step::going(RollbackRecovery::ReadingContext { id })
                },
            },
            (RollbackRecovery::ReadingContext { .. }, RecoveryReply::Context(context)) =>
                match context {
                    Err(error) => step::failing(error@),
                    Ok(envelope) => step::going(
                        RollbackRecovery::Applying { before: envelope.before },
                    ),
                },
            (RollbackRecovery::Applying { .. }, RecoveryReply::Done(done)) => match done {
                Err(error) => step::failing(error@),
                Ok(_) => step::going(RollbackRecovery::Cleaning),
            },
            (RollbackRecovery::Cleaning, RecoveryReply::Done(done)) => match done {
                Err(error) => step::failing(error@),
                Ok(_) => step::ending(()),
            },
            _ => step::confused(),
        }
    }

    /// Takes the answer.
    pub fn resume(self, reply: RecoveryReply) -> (step: Step<RollbackRecovery, ()>)
        ensures
            step@ == self.next(reply),
    {
        match (self, reply) {
            (RollbackRecovery::Reading { id }, RecoveryReply::Record(stored)) =>
                match RecoveryStore::require(id.as_str(), stored) {
                    Err(error) => step::fail(error),
                    Ok(record) => if record.state == RecoveryState::Committed {
                        step::fail(
                            AppError::Transaction("已提交的恢复记录不能回滚".to_owned()),
                        )
                    } else {
                        step::go(RollbackRecovery::ReadingContext { id })
                    },
                },
            (RollbackRecovery::ReadingContext { id: _ }, RecoveryReply::Context(context)) =>
                match context {
                    Err(error) => step::fail(error),
                    Ok(envelope) => step::go(
                        RollbackRecovery::Applying { before: envelope.before },
                    ),
                },
            (RollbackRecovery::Applying { before: _ }, RecoveryReply::Done(done)) => match done {
                Err(error) => step::fail(error),
                Ok(_) => step::go(RollbackRecovery::Cleaning),
            },
            (RollbackRecovery::Cleaning, RecoveryReply::Done(done)) => match done {
                Err(error) => step::fail(error),
                Ok(_) => step::end(()),
            },
            _ => step::give_up(),
        }
    }
}

/// The client's state from before the operation, and what the operation is for, as it
/// was read; it has to be the record's.
pub open spec fn context_of(
    id: Seq<char>,
    stored: StoredRecord,
    read: Result<Identified<RecoveryEnvelope>, AppError>,
) -> Result<RecoveryEnvelope, ErrorView> {
    match required(id, stored) {
        Err(error) => Err(error),
        Ok(record) => match read {
            Err(error) => Err(error@),
            Ok(read) => if read.id@ != record.before_snapshot_id@ {
                Err(ErrorView::Transaction("恢复记录与 before-image 不匹配"@))
            } else if !is_of_kind(read.value.context, record.kind) {
                Err(ErrorView::Transaction("恢复记录与恢复负载类型不一致"@))
            } else {
                Ok(read.value)
            },
        },
    }
}

/// The login that waits for the user, where there is one.
pub open spec fn waiting_login(
    stored: StoredRecord,
    context: Result<RecoveryEnvelope, AppError>,
) -> Result<Option<LoginSessionSnapshot>, ErrorView> {
    match recorded(stored) {
        Err(error) => Err(error),
        Ok(None) => Ok(None),
        Ok(Some(record)) => if record.kind != RecoveryKind::Login || record.state
            == RecoveryState::Committed {
            Ok(None)
        } else {
            match context {
                Err(error) => Err(error@),
                Ok(envelope) => match envelope.context {
                    RecoveryContext::Login { intent, .. } => Ok(
                        Some(
                            LoginSessionSnapshot {
                                id: record.id,
                                intent,
                                created_at: record.created_at,
                            },
                        ),
                    ),
                    RecoveryContext::Switch { .. } => Err(
                        ErrorView::Transaction("恢复记录与恢复负载类型不一致"@),
                    ),
                },
            }
        },
    }
}

impl RecoveryStore {
    /// The slot in the application's directory.
    pub fn new(data_directory: &str) -> (store: RecoveryStore)
        ensures
            store.root@ == unix_path::adjoined(data_directory@, "recovery"@),
            store.record_path@ == unix_path::adjoined(store.root@, "record.json"@),
            store.before_directory@ == unix_path::adjoined(store.root@, "before"@),
            store.candidate_directory@ == unix_path::adjoined(store.root@, "candidate"@),
    {
        let root = unix_path::join(data_directory, "recovery");
        RecoveryStore {
            record_path: unix_path::join(root.as_str(), "record.json"),
            before_directory: unix_path::join(root.as_str(), "before"),
            candidate_directory: unix_path::join(root.as_str(), "candidate"),
            root,
        }
    }

    /// Begins to remove what operations without a record have left in the slot.
    pub fn cleanup_orphans() -> (operation: CleanupSlot)
        ensures
            operation == CleanupSlot::RemovingOrphanedBefore,
            operation.valid(),
    {
        CleanupSlot::RemovingOrphanedBefore
    }

    /// Begins to empty the slot.
    pub fn cleanup() -> (operation: CleanupSlot)
        ensures
            operation == CleanupSlot::CheckingRecord,
            operation.valid(),
    {
        CleanupSlot::CheckingRecord
    }

    /// The record in the slot, where there is one.
    pub fn record(stored: StoredRecord) -> (record: Result<Option<RecoveryRecord>, AppError>)
        ensures
            is_result(record, recorded(stored)),
    {
        match stored.found {
            Err(error) => Err(error),
            Ok(None) => Ok(None),
            Ok(Some(Err(error))) => Err(
                AppError::Transaction(text::joined2("恢复记录格式无效：", error.as_str())),
            ),
            Ok(Some(Ok(record))) => match validate_record(&record) {
                Err(error) => Err(error),
                Ok(_) => Ok(Some(record)),
            },
        }
    }

    /// The record in the slot, which has to be that of the operation.
    pub fn require(id: &str, stored: StoredRecord) -> (record: Result<RecoveryRecord, AppError>)
        ensures
            is_result(record, required(id@, stored)),
    {
        if !outside::is_uuid(id) {
            return Err(AppError::Transaction("恢复记录标识无效".to_owned()));
        }
        match RecoveryStore::record(stored) {
            Err(error) => Err(error),
            Ok(None) => Err(AppError::Transaction("恢复记录不存在".to_owned())),
            Ok(Some(record)) => if text::same_text(record.id.as_str(), id) {
                Ok(record)
            } else {
                Err(AppError::Transaction("恢复记录标识不匹配".to_owned()))
            },
        }
    }

    /// The client's state from before the operation, and what the operation is for;
    /// `read` is what was read of it.
    pub fn context(
        id: &str,
        stored: StoredRecord,
        read: Result<Identified<RecoveryEnvelope>, AppError>,
    ) -> (context: Result<RecoveryEnvelope, AppError>)
        ensures
            is_result(context, context_of(id@, stored, read)),
    {
        let record = match RecoveryStore::require(id, stored) {
            Err(error) => {
                return Err(error);
            },
            Ok(record) => record,
        };
        let read = match read {
            Err(error) => {
                return Err(error);
            },
            Ok(read) => read,
        };
        if !text::same_text(read.id.as_str(), record.before_snapshot_id.as_str()) {
            return Err(AppError::Transaction("恢复记录与 before-image 不匹配".to_owned()));
        }
        if !context_is_of_kind(&read.value.context, record.kind) {
            return Err(AppError::Transaction("恢复记录与恢复负载类型不一致".to_owned()));
        }
        Ok(read.value)
    }

    /// Begins to prepare an operation.
    pub fn prepare(
        kind: RecoveryKind,
        previous_client_was_running: bool,
        envelope: RecoveryEnvelope,
    ) -> (operation: PrepareRecovery)
        ensures
            operation == (PrepareRecovery::CheckingSlot {
                job: PrepareJob { kind, previous_client_was_running, envelope },
            }),
    {
        PrepareRecovery::CheckingSlot {
            job: PrepareJob { kind, previous_client_was_running, envelope },
        }
    }

    /// Begins to move the record to another state.
    pub fn transition(id: &str, state: RecoveryState) -> (operation: MoveRecord)
        ensures
            operation matches MoveRecord::Reading { id: kept, state: to } && kept@ == id@ && to
                == state,
    {
        MoveRecord::Reading { id: id.to_owned(), state }
    }

    /// Begins to commit an operation.
    pub fn commit(id: &str) -> (operation: CommitRecovery)
        ensures
            operation matches CommitRecovery::Moving { id: kept } && kept@ == id@,
    {
        CommitRecovery::Moving { id: id.to_owned() }
    }

    /// Begins to stage the client's state after a login.
    pub fn stage_login_candidate(id: &str, payload: SecurePayload) -> (operation: StageCandidate)
        ensures
            operation matches StageCandidate::Reading { id: kept, payload: staged } && kept@ == id@
                && staged == payload,
    {
        StageCandidate::Reading { id: id.to_owned(), payload }
    }

    /// Begins to read the staged state.
    pub fn login_candidate(id: &str) -> (operation: ReadCandidate)
        ensures
            operation matches ReadCandidate::Reading { id: kept } && kept@ == id@,
    {
        ReadCandidate::Reading { id: id.to_owned() }
    }

    /// Begins to mark a login as committed.
    pub fn mark_login_committed(id: &str) -> (operation: MarkCommitted)
        ensures
            operation matches MarkCommitted::Reading { id: kept } && kept@ == id@,
    {
        MarkCommitted::Reading { id: id.to_owned() }
    }

    /// Begins to undo an operation.
    pub fn rollback(id: &str) -> (operation: RollbackRecovery)
        ensures
            operation matches RollbackRecovery::Reading { id: kept } && kept@ == id@,
    {
        RollbackRecovery::Reading { id: id.to_owned() }
    }

    /// Checks that the operation is committed, so that the slot may be emptied.
    pub fn cleanup_committed(id: &str, stored: StoredRecord) -> (result: Result<(), AppError>)
        ensures
            match required(id@, stored) {
                Err(error) => result is Err && result->Err_0@ == error,
                Ok(record) => if record.state == RecoveryState::Committed {
                    result is Ok
                } else {
                    result is Err && result->Err_0@ == ErrorView::Transaction("恢复记录尚未提交"@)
                },
            },
    {
        match RecoveryStore::require(id, stored) {
            Err(error) => Err(error),
            Ok(record) => if record.state == RecoveryState::Committed {
                Ok(())
            } else {
                Err(AppError::Transaction("恢复记录尚未提交".to_owned()))
            },
        }
    }

    /// The login that waits for the user, where there is one; `context` is what
    /// [`RecoveryStore::context`] said of the record in the slot.
    pub fn login_snapshot(stored: StoredRecord, context: Result<RecoveryEnvelope, AppError>) -> (session:
        Result<Option<LoginSessionSnapshot>, AppError>)
        ensures
            is_result(session, waiting_login(stored, context)),
    {
        let record = match RecoveryStore::record(stored) {
            Err(error) => {
                return Err(error);
            },
            Ok(None) => {
                return Ok(None);
            },
            Ok(Some(record)) => record,
        };
        if record.kind != RecoveryKind::Login || record.state == RecoveryState::Committed {
            return Ok(None);
        }
        match context {
            Err(error) => Err(error),
            Ok(envelope) => match envelope.context {
                RecoveryContext::Login { intent, .. } => Ok(
                    Some(
                        LoginSessionSnapshot {
                            id: record.id,
                            intent,
                            created_at: record.created_at,
                        },
                    ),
                ),
                RecoveryContext::Switch { .. } => Err(
                    AppError::Transaction("恢复记录与恢复负载类型不一致".to_owned()),
                ),
            },
        }
    }
}

/// Writing a record into the slot. Each state names the work that is to be done.
#[derive(Debug)]
pub enum SaveRecord {
    /// The record is to be turned into text.
    Generating { record: RecoveryRecord },
    /// The text is to be written in place of the record in the slot.
    Writing { bytes: Vec<u8> },
}

/// What came of the work that a [`SaveRecord`] names.
#[derive(Debug)]
pub enum SaveRecordReply {
    /// The text of the record.
    Generated(Result<Vec<u8>, String>),
    /// The text was written.
    Written(Result<(), AppError>),
}

impl SaveRecord {
    /// What follows on the answer to the work that is named.
    pub open spec fn next(self, reply: SaveRecordReply) -> StepView<SaveRecord, ()> {
        match (self, reply) {
            (SaveRecord::Generating { .. }, SaveRecordReply::Generated(generated)) =>
                match generated {
                Err(error) => step::failing(
                    ErrorView::Transaction("无法生成恢复记录："@ + error@),
                ),
                Ok(bytes) => step::going(SaveRecord::Writing { bytes }),
            },
            (SaveRecord::Writing { .. }, SaveRecordReply::Written(written)) => match written {
                Err(error) => step::failing(error@),
                Ok(_) => step::ending(()),
            },
            _ => step::confused(),
        }
    }

    /// Takes the answer.
    pub fn resume(self, reply: SaveRecordReply) -> (step: Step<SaveRecord, ()>)
        ensures
            step@ == self.next(reply),
    {
        match (self, reply) {
            (SaveRecord::Generating { .. }, SaveRecordReply::Generated(generated)) =>
                match generated {
                Err(error) => step::fail(
                    AppError::Transaction(text::joined2("无法生成恢复记录：", error.as_str())),
                ),
                Ok(bytes) => step::go(SaveRecord::Writing { bytes }),
            },
            (SaveRecord::Writing { .. }, SaveRecordReply::Written(written)) => match written {
                Err(error) => step::fail(error),
                Ok(_) => step::end(()),
            },
            _ => step::give_up(),
        }
    }
}

/// Begins to write a record into the slot; one that would not be read again is refused.
pub fn save_record(record: RecoveryRecord) -> (step: Step<SaveRecord, ()>)
    ensures
        step@ == match record_error(record) {
            Some(error) => step::failing::<SaveRecord, ()>(error),
            None => step::going(SaveRecord::Generating { record }),
        },
{
    match validate_record(&record) {
        Err(error) => step::fail(error),
        Ok(_) => step::go(SaveRecord::Generating { record }),
    }
}

/// Whether a record can be kept: it is of this version, its names have the form of such, only
/// a login has a state after it, none does before it waits for the user, and every one that
/// is committed does.
pub open spec fn is_sound(record: RecoveryRecord) -> bool {
    &&& record.version == RECORD_VERSION
    &&& outside::uuid_form(record.id@) is Some
    &&& outside::uuid_form(record.before_snapshot_id@) is Some
    &&& record.candidate_snapshot_id is Some ==> {
        &&& outside::uuid_form(record.candidate_snapshot_id->0@) is Some
        &&& record.kind == RecoveryKind::Login
        &&& record.state != RecoveryState::Prepared
    }
    &&& record.kind == RecoveryKind::Login && record.state == RecoveryState::Committed
        ==> record.candidate_snapshot_id is Some
}

/// Whether there is a sound record in the slot.
pub open spec fn holds_sound(stored: StoredRecord) -> bool {
    stored.found matches Ok(Some(Ok(record))) && is_sound(record)
}

/// The record in the slot.
pub open spec fn stored_record(stored: StoredRecord) -> RecoveryRecord {
    stored.found->Ok_0->0->Ok_0
}

/// A record is read, in the slot or as that of an operation, exactly where it is sound, and
/// in the latter case that of the operation; an empty slot holds none. Nothing is changed in
/// it.
pub proof fn law_only_sound_records_are_read(id: Seq<char>, stored: StoredRecord)
    ensures
        recorded(stored) == Ok::<Option<RecoveryRecord>, ErrorView>(None) <==> stored.found == Ok::<
            Option<Result<RecoveryRecord, String>>,
            AppError,
        >(None),
        recorded(stored) is Ok && recorded(stored)->Ok_0 is Some <==> holds_sound(stored),
        holds_sound(stored) ==> recorded(stored)->Ok_0 == Some(stored_record(stored)),
        required(id, stored) is Ok <==> holds_sound(stored) && stored_record(stored).id@ == id,
        required(id, stored) is Ok ==> required(id, stored)->Ok_0 == stored_record(stored),
{
}

impl MoveRecord {
    /// How the operation goes on.
    pub open spec fn steps() -> spec_fn(MoveRecord, RecoveryReply) -> StepView<
        MoveRecord,
        RecoveryRecord,
    > {
        |operation: MoveRecord, reply: RecoveryReply| operation.next(reply)
    }
}

/// Moving a record succeeds exactly where the slot holds it, it is moved forward, from
/// being prepared to waiting for the user or to being committed, or from waiting to being
/// committed, and it was saved so. Nothing but its state changes.
pub proof fn law_moved_record_is_saved(
    id: String,
    state: RecoveryState,
    run: Seq<Moment<MoveRecord, RecoveryReply>>,
)
    requires
        step::is_run(MoveRecord::steps(), MoveRecord::Reading { id, state }, run),
    ensures
        step::result_of(MoveRecord::steps(), run) is Ok <==> {
            let record = stored_record(run[0].reply->Record_0);
            &&& run.len() == 2
            &&& run[0].reply is Record
            &&& holds_sound(run[0].reply->Record_0)
            &&& record.id@ == id@
            &&& (record.state == RecoveryState::Prepared && state != RecoveryState::Prepared) || (record.state
                == RecoveryState::AwaitingUser && state == RecoveryState::Committed)
            &&& run[1].operation is Saving
            &&& run[1].reply is Done
            &&& run[1].reply->Done_0 is Ok
        },
        step::result_of(MoveRecord::steps(), run) is Ok ==> {
            let record = stored_record(run[0].reply->Record_0);
            step::result_of(MoveRecord::steps(), run) == Ok::<RecoveryRecord, ErrorView>(RecoveryRecord { state, ..record })
        },
        run.len() == 2 ==> run[1].operation == (MoveRecord::Saving {
            record: RecoveryRecord { state, ..stored_record(run[0].reply->Record_0) },
        }),
        run.len() <= 2,
{
    let steps = MoveRecord::steps();
    assert(step::follows(steps, run, 0));
    if run.len() > 1 {
        assert(step::follows(steps, run, 1));
    }
}

impl CommitRecovery {
    /// How the operation goes on.
    pub open spec fn steps() -> spec_fn(CommitRecovery, RecoveryReply) -> StepView<
        CommitRecovery,
        CleanupOutcomeView,
    > {
        |operation: CommitRecovery, reply: RecoveryReply| operation.next(reply)
    }
}

/// Committing an operation succeeds exactly where its record was moved to committed and
/// emptying the slot was tried; a slot that could not be emptied is reported with the
/// reason.
pub proof fn law_record_is_committed_before_the_slot_is_emptied(
    id: String,
    run: Seq<Moment<CommitRecovery, RecoveryReply>>,
)
    requires
        step::is_run(CommitRecovery::steps(), CommitRecovery::Moving { id }, run),
    ensures
        step::result_of(CommitRecovery::steps(), run) is Ok <==> {
            &&& run.len() == 2
            &&& run[0].reply is Moved
            &&& run[0].reply->Moved_0 is Ok
            &&& run[1].operation is Cleaning
            &&& run[1].reply is Done
        },
        step::result_of(CommitRecovery::steps(), run) is Ok ==> step::result_of(CommitRecovery::steps(), run)->Ok_0 == (match run[1].reply->Done_0 {
            Ok(_) => CleanupOutcomeView::Clean,
            Err(error) => CleanupOutcomeView::Pending(error@.message()),
        }),
        run[0].reply matches RecoveryReply::Moved(Err(error)) ==> step::result_of(CommitRecovery::steps(), run) == Err::<
            CleanupOutcomeView,
            ErrorView,
        >(error@),
        run.len() <= 2,
{
    let steps = CommitRecovery::steps();
    assert(step::follows(steps, run, 0));
    if run.len() > 1 {
        assert(step::follows(steps, run, 1));
    }
}

impl ReadCandidate {
    /// How the operation goes on.
    pub open spec fn steps() -> spec_fn(ReadCandidate, RecoveryReply) -> StepView<
        ReadCandidate,
        SecurePayload,
    > {
        |operation: ReadCandidate, reply: RecoveryReply| operation.next(reply)
    }
}

/// The state after a login is read exactly where the slot holds the record of the login,
/// which names that state, and what was read is the state with this name, of an account.
pub proof fn law_candidate_is_the_one_of_the_record(
    id: String,
    run: Seq<Moment<ReadCandidate, RecoveryReply>>,
)
    requires
        step::is_run(ReadCandidate::steps(), ReadCandidate::Reading { id }, run),
    ensures
        step::result_of(ReadCandidate::steps(), run) is Ok <==> {
            let record = stored_record(run[0].reply->Record_0);
            &&& run.len() == 2
            &&& run[0].reply is Record
            &&& holds_sound(run[0].reply->Record_0)
            &&& record.id@ == id@
            &&& record.kind == RecoveryKind::Login
            &&& record.candidate_snapshot_id is Some
            &&& run[1].operation == (ReadCandidate::ReadingPayload { expected: record.candidate_snapshot_id->0 })
            &&& run[1].reply is Payload
            &&& run[1].reply->Payload_0 is Ok
            &&& run[1].reply->Payload_0->Ok_0.id@ == record.candidate_snapshot_id->0@
            &&& run[1].reply->Payload_0->Ok_0.value.account is Some
        },
        step::result_of(ReadCandidate::steps(), run) is Ok ==> {
            let record = stored_record(run[0].reply->Record_0);
            step::result_of(ReadCandidate::steps(), run) == Ok::<SecurePayload, ErrorView>(run[1].reply->Payload_0->Ok_0.value)
        },
        run.len() <= 2,
{
    let steps = ReadCandidate::steps();
    assert(step::follows(steps, run, 0));
    if run.len() > 1 {
        assert(step::follows(steps, run, 1));
    }
}

impl MarkCommitted {
    /// How the operation goes on.
    pub open spec fn steps() -> spec_fn(MarkCommitted, RecoveryReply) -> StepView<
        MarkCommitted,
        RecoveryRecord,
    > {
        |operation: MarkCommitted, reply: RecoveryReply| operation.next(reply)
    }
}

/// A login is marked as committed exactly where the slot holds its record, which names the
/// state after the login, that state was read, and the record was moved.
pub proof fn law_only_a_staged_login_is_committed(
    id: String,
    run: Seq<Moment<MarkCommitted, RecoveryReply>>,
)
    requires
        step::is_run(MarkCommitted::steps(), MarkCommitted::Reading { id }, run),
    ensures
        step::result_of(MarkCommitted::steps(), run) is Ok <==> {
            let record = stored_record(run[0].reply->Record_0);
            &&& run.len() == 3
            &&& run[0].reply is Record
            &&& holds_sound(run[0].reply->Record_0)
            &&& record.id@ == id@
            &&& record.kind == RecoveryKind::Login
            &&& record.candidate_snapshot_id is Some
            &&& run[1].operation == (MarkCommitted::ReadingCandidate { id })
            &&& run[1].reply is Candidate
            &&& run[1].reply->Candidate_0 is Ok
            &&& run[2].operation == (MarkCommitted::Moving { id })
            &&& run[2].reply is Moved
            &&& run[2].reply->Moved_0 is Ok
        },
        step::result_of(MarkCommitted::steps(), run) is Ok ==> {
            let record = stored_record(run[0].reply->Record_0);
            step::result_of(MarkCommitted::steps(), run) == Ok::<RecoveryRecord, ErrorView>(run[2].reply->Moved_0->Ok_0)
        },
        run.len() <= 3,
{
    let steps = MarkCommitted::steps();
    assert(step::follows(steps, run, 0));
    if run.len() > 1 {
        assert(step::follows(steps, run, 1));
    }
    if run.len() > 2 {
        assert(step::follows(steps, run, 2));
    }
}

impl RollbackRecovery {
    /// How the operation goes on.
    pub open spec fn steps() -> spec_fn(RollbackRecovery, RecoveryReply) -> StepView<
        RollbackRecovery,
        (),
    > {
        |operation: RollbackRecovery, reply: RecoveryReply| operation.next(reply)
    }
}

/// Undoing an operation succeeds exactly where the slot holds its record, which is not
/// committed, the state from before the operation was read, it was put in place, and the
/// slot was emptied. Work that fails ends it with its error.
pub proof fn law_rollback_puts_back_the_state_from_before(
    id: String,
    run: Seq<Moment<RollbackRecovery, RecoveryReply>>,
)
    requires
        step::is_run(RollbackRecovery::steps(), RollbackRecovery::Reading { id }, run),
    ensures
        step::result_of(RollbackRecovery::steps(), run) is Ok <==> {
            let record = stored_record(run[0].reply->Record_0);
            &&& run.len() == 4
            &&& run[0].reply is Record
            &&& holds_sound(run[0].reply->Record_0)
            &&& record.id@ == id@
            &&& record.state != RecoveryState::Committed
            &&& run[1].operation == (RollbackRecovery::ReadingContext { id })
            &&& run[1].reply is Context
            &&& run[1].reply->Context_0 is Ok
            &&& run[2].operation == (RollbackRecovery::Applying { before: run[1].reply->Context_0->Ok_0.before })
            &&& run[2].reply is Done
            &&& run[2].reply->Done_0 is Ok
            &&& run[3].operation is Cleaning
            &&& run[3].reply is Done
            &&& run[3].reply->Done_0 is Ok
        },
        forall|i: int|
            2 <= i < run.len() && (#[trigger] run[i]).reply is Done && run[i].reply->Done_0 is Err ==> i
                == run.len() - 1 && step::result_of(RollbackRecovery::steps(), run) == Err::<(), ErrorView>(run[i].reply->Done_0->Err_0@),
        run.len() <= 4,
{
    let steps = RollbackRecovery::steps();
    assert(step::follows(steps, run, 0));
    if run.len() > 1 {
        assert(step::follows(steps, run, 1));
    }
    if run.len() > 2 {
        assert(step::follows(steps, run, 2));
    }
    if run.len() > 3 {
        assert(step::follows(steps, run, 3));
    }
}

impl SaveRecord {
    /// How the operation goes on.
    pub open spec fn steps() -> spec_fn(SaveRecord, SaveRecordReply) -> StepView<
        SaveRecord,
        (),
    > {
        |operation: SaveRecord, reply: SaveRecordReply| operation.next(reply)
    }
}

/// Saving a record succeeds exactly where its text was generated and this text was
/// written.
pub proof fn law_record_is_saved_as_it_was_generated(
    record: RecoveryRecord,
    run: Seq<Moment<SaveRecord, SaveRecordReply>>,
)
    requires
        step::is_run(SaveRecord::steps(), SaveRecord::Generating { record }, run),
    ensures
        step::result_of(SaveRecord::steps(), run) is Ok <==> {
            &&& run.len() == 2
            &&& run[0].reply is Generated
            &&& run[0].reply->Generated_0 is Ok
            &&& run[1].operation == (SaveRecord::Writing { bytes: run[0].reply->Generated_0->Ok_0 })
            &&& run[1].reply is Written
            &&& run[1].reply->Written_0 is Ok
        },
        run.len() <= 2,
{
    let steps = SaveRecord::steps();
    assert(step::follows(steps, run, 0));
    if run.len() > 1 {
        assert(step::follows(steps, run, 1));
    }
}

impl PrepareRecovery {
    /// How the operation may go on.
    pub open spec fn leads() -> spec_fn(PrepareRecovery, RecoveryReply, Step<PrepareRecovery, RecoveryRecord>) -> bool {
        |operation: PrepareRecovery, reply: RecoveryReply, step: Step<PrepareRecovery, RecoveryRecord>|
            operation.leads_to(reply, step)
    }
}

/// Preparing an operation succeeds exactly where the slot holds no record and its
/// directory is empty, a directory was made, the client's state was written to it and read
/// back under the same name and as of the same kind of operation, it was moved to its
/// place, the time was read, and the record was saved: that of the operation, in its first
/// state, naming the state that was written.
pub proof fn law_operation_is_prepared_by_writing_and_recording(
    job: PrepareJob,
    run: Seq<Taken<PrepareRecovery, RecoveryReply, RecoveryRecord>>,
)
    requires
        step::is_taken_run(PrepareRecovery::leads(), PrepareRecovery::CheckingSlot { job }, run),
    ensures
        step::taken_result(run) is Ok <==> {
            let id = run[2].operation->Creating_id;
            let before_id = run[3].reply->Written_0->Ok_0;
            &&& run.len() == 8
            &&& run[0].reply is Record
            &&& run[0].reply->Record_0.found is Ok
            &&& run[0].reply->Record_0.found->Ok_0 is None
            &&& run[1].operation == (PrepareRecovery::CheckingEmpty { job })
            &&& run[1].reply == RecoveryReply::Empty(Ok(Ok(true)))
            &&& run[2].operation is Creating
            &&& run[2].reply is Done
            &&& run[2].reply->Done_0 is Ok
            &&& run[3].operation == (PrepareRecovery::Writing { job, id })
            &&& run[3].reply is Written
            &&& run[3].reply->Written_0 is Ok
            &&& run[4].operation == (PrepareRecovery::Rereading { job, id, before_id })
            &&& run[4].reply is Envelope
            &&& run[4].reply->Envelope_0 is Ok
            &&& run[4].reply->Envelope_0->Ok_0.id@ == before_id@
            &&& run[4].reply->Envelope_0->Ok_0.value.context is Switch <==> job.envelope.context is Switch
            &&& run[5].operation == (PrepareRecovery::Publishing { job, id, before_id })
            &&& run[5].reply is Done
            &&& run[5].reply->Done_0 is Ok
            &&& run[6].operation == (PrepareRecovery::ReadingClock { job, id, before_id })
            &&& run[6].reply is Clock
            &&& run[7].operation is Saving
            &&& run[7].reply is Done
            &&& run[7].reply->Done_0 is Ok
        },
        step::taken_result(run) is Ok ==> {
            let record = step::taken_result(run)->Ok_0;
            &&& record == run[7].operation->Saving_record
            &&& record.version == RECORD_VERSION
            &&& record.id == run[2].operation->Creating_id
            &&& outside::uuid_form(record.id@) == Some(record.id@)
            &&& record.kind == job.kind
            &&& record.state == RecoveryState::Prepared
            &&& record.before_snapshot_id == run[3].reply->Written_0->Ok_0
            &&& record.candidate_snapshot_id is None
            &&& record.previous_client_was_running == job.previous_client_was_running
            &&& record.created_at == run[6].reply->Clock_0
        },
        forall|i: int|
            0 <= i < run.len() && (match (#[trigger] run[i]).operation {
                PrepareRecovery::Writing { .. } => run[i].reply matches RecoveryReply::Written(Err(_)),
                PrepareRecovery::Rereading { .. } => run[i].reply matches RecoveryReply::Envelope(Err(_)),
                PrepareRecovery::Publishing { .. } | PrepareRecovery::Saving { .. } => run[i].reply
                    matches RecoveryReply::Done(Err(_)),
                _ => false,
            }) ==> {
                &&& i + 1 < run.len()
                &&& run[i + 1].operation is RemovingStaging
                &&& run[i + 1].operation->RemovingStaging_id == run[2].operation->Creating_id
                &&& step::taken_result(run) is Err
            },
        run.len() <= 11,
{
    let steps = PrepareRecovery::leads();
    assert(step::goes_on(steps, run, 0));
    if run.len() > 1 {
        assert(step::goes_on(steps, run, 1));
    }
    if run.len() > 2 {
        assert(step::goes_on(steps, run, 2));
    }
    if run.len() > 3 {
        assert(step::goes_on(steps, run, 3));
    }
    if run.len() > 4 {
        assert(step::goes_on(steps, run, 4));
    }
    if run.len() > 5 {
        assert(step::goes_on(steps, run, 5));
    }
    if run.len() > 6 {
        assert(step::goes_on(steps, run, 6));
    }
    if run.len() > 7 {
        assert(step::goes_on(steps, run, 7));
    }
    if run.len() > 8 {
        assert(step::goes_on(steps, run, 8));
    }
    if run.len() > 9 {
        assert(step::goes_on(steps, run, 9));
    }
    if run.len() > 10 {
        assert(step::goes_on(steps, run, 10));
    }
}

impl StageCandidate {
    /// How the operation may go on.
    pub open spec fn leads() -> spec_fn(StageCandidate, RecoveryReply, Step<StageCandidate, RecoveryRecord>) -> bool {
        |operation: StageCandidate, reply: RecoveryReply, step: Step<StageCandidate, RecoveryRecord>|
            operation.leads_to(reply, step)
    }
}

/// Putting the state after a login in the slot succeeds exactly where the slot holds the
/// record of a login that waits for the user, the state is of an account and holds a login,
/// and either a state of the same account is there already, which stays, or what lay there
/// was removed, the state was written and read back under the same name and as of the same
/// account, it was moved to its place, and the record that names it was saved.
#[verifier::rlimit(40)]
pub proof fn law_state_after_a_login_is_staged(
    id: String,
    payload: SecurePayload,
    run: Seq<Taken<StageCandidate, RecoveryReply, RecoveryRecord>>,
)
    requires
        step::is_taken_run(StageCandidate::leads(), StageCandidate::Reading { id, payload }, run),
    ensures
        run.len() <= 11,
        step::taken_result(run) is Ok <==> {
            let record = stored_record(run[0].reply->Record_0);
            let account = contracts::key_view(payload.account);
            &&& run[0].reply is Record
            &&& holds_sound(run[0].reply->Record_0)
            &&& record.id@ == id@
            &&& record.kind == RecoveryKind::Login
            &&& record.state == RecoveryState::AwaitingUser
            &&& payload.account is Some
            &&& run.len() > 1
            &&& run[1].operation == (StageCandidate::CheckingLogin { record, payload })
            &&& run[1].reply == RecoveryReply::Authenticated(Ok(true))
            &&& if record.candidate_snapshot_id is Some {
                &&& run.len() == 3
                &&& run[2].operation == (StageCandidate::ReadingExisting { record, payload })
                &&& run[2].reply is Candidate
                &&& run[2].reply->Candidate_0 is Ok
                &&& contracts::key_view(run[2].reply->Candidate_0->Ok_0.account) == account
            } else {
                let candidate_id = run[5].reply->Written_0->Ok_0;
                &&& run.len() == 9
                &&& run[2].operation == (StageCandidate::RemovingOld { record, payload })
                &&& run[2].reply is Done
                &&& run[2].reply->Done_0 is Ok
                &&& run[3].operation == (StageCandidate::RemovingStale { record, payload })
                &&& run[3].reply is Done
                &&& run[3].reply->Done_0 is Ok
                &&& run[4].operation == (StageCandidate::Creating { record, payload })
                &&& run[4].reply is Done
                &&& run[4].reply->Done_0 is Ok
                &&& run[5].operation == (StageCandidate::Writing { record, payload })
                &&& run[5].reply is Written
                &&& run[5].reply->Written_0 is Ok
                &&& run[6].operation == (StageCandidate::Rereading { record, payload, candidate_id })
                &&& run[6].reply is Payload
                &&& run[6].reply->Payload_0 is Ok
                &&& run[6].reply->Payload_0->Ok_0.id@ == candidate_id@
                &&& contracts::key_view(run[6].reply->Payload_0->Ok_0.value.account) == account
                &&& run[7].operation == (StageCandidate::Publishing { record, candidate_id })
                &&& run[7].reply is Done
                &&& run[7].reply->Done_0 is Ok
                &&& run[8].operation == (StageCandidate::Saving {
                    record: RecoveryRecord { candidate_snapshot_id: Some(candidate_id), ..record },
                })
                &&& run[8].reply is Done
                &&& run[8].reply->Done_0 is Ok
            }
        },
        step::taken_result(run) is Ok ==> {
            let record = stored_record(run[0].reply->Record_0);
            step::taken_result(run)->Ok_0 == (if record.candidate_snapshot_id is Some {
                record
            } else {
                RecoveryRecord {
                    candidate_snapshot_id: Some(run[5].reply->Written_0->Ok_0),
                    ..record
                }
            })
        },
{
    let leads = StageCandidate::leads();
    assert(step::goes_on(leads, run, 0));
    if run.len() > 1 {
        assert(step::goes_on(leads, run, 1));
    }
    if run.len() > 2 {
        assert(step::goes_on(leads, run, 2));
    }
    if run.len() > 3 {
        assert(step::goes_on(leads, run, 3));
    }
    if run.len() > 4 {
        assert(step::goes_on(leads, run, 4));
    }
    if run.len() > 5 {
        assert(step::goes_on(leads, run, 5));
    }
    if run.len() > 6 {
        assert(step::goes_on(leads, run, 6));
    }
    if run.len() > 7 {
        assert(step::goes_on(leads, run, 7));
    }
    if run.len() > 8 {
        assert(step::goes_on(leads, run, 8));
    }
    if run.len() > 9 {
        assert(step::goes_on(leads, run, 9));
    }
    if run.len() > 10 {
        assert(step::goes_on(leads, run, 10));
    }
}

} // verus!
