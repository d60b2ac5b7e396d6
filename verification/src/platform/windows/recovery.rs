//! The recovery slot on Windows: before an operation changes the client's
//! files, a copy of them and a record of the operation are kept, so that the
//! operation can be undone, at once or after a restart. Switching and logging
//! in share the one slot.

use vstd::prelude::*;

use crate::contracts::AccountKey;
use crate::contracts::LoginIntent;
use crate::data_store::WrittenDocument;
use crate::error::AppError;
use crate::error::ErrorView;
use crate::outside;
use crate::platform::windows::authentication::AuthenticationBaseline;
use crate::platform::windows::paths;
use crate::platform::windows::snapshot;
use crate::platform::windows::snapshot::DocumentError;
use crate::platform::windows::snapshot::FileSetManifest;
use crate::platform::windows::snapshot::ManifestFile;
use crate::platform::windows::snapshot_store;
use crate::step::Moment;
use crate::step::Taken;
use crate::step;
use crate::step::Step;
use crate::step::StepView;
use crate::text;

verus! {

pub const RECORD_VERSION: u8 = 1;

/// How far a recorded operation has got.
#[derive(Clone, Copy, Debug, PartialEq, Eq, Structural)]
pub enum RecoveryState {
    Prepared,
    AwaitingUser,
    Committed,
}

/// What a recorded operation is.
#[derive(Debug)]
pub enum RecoveryKind {
    Switch { target_account: AccountKey, previous_account: Option<AccountKey> },
    Login {
        intent: LoginIntent,
        previous_account: Option<AccountKey>,
        created_at: u64,
        authentication_baseline: AuthenticationBaseline,
    },
}

/// The record of an operation.
#[derive(Debug)]
pub struct RecoveryRecord {
    pub version: u8,
    pub id: String,
    pub state: RecoveryState,
    pub previous_client_was_running: bool,
    pub kind: RecoveryKind,
}

impl View for RecoveryRecord {
    type V = RecoveryRecord;

    open spec fn view(&self) -> RecoveryRecord {
        *self
    }
}

/// What came of committing an operation.
#[derive(Debug)]
pub enum RecoveryCommitOutcome {
    Committed,
    /// The operation is committed, but its recovery data is still there.
    CleanupPending(String),
}

/// A [`RecoveryCommitOutcome`] with its text as a character sequence.
pub enum CommitOutcomeView {
    Committed,
    CleanupPending(Seq<char>),
}

impl View for RecoveryCommitOutcome {
    type V = CommitOutcomeView;

    open spec fn view(&self) -> CommitOutcomeView {
        match *self {
            RecoveryCommitOutcome::Committed => CommitOutcomeView::Committed,
            RecoveryCommitOutcome::CleanupPending(error) => CommitOutcomeView::CleanupPending(
                error@,
            ),
        }
    }
}

/// Where the recovery slot is.
#[derive(Debug)]
pub struct RecoveryStore {
    root_directory: String,
}

/// The error with the given message.
pub open spec fn recovery_failure(message: Seq<char>) -> ErrorView {
    ErrorView::Message("恢复数据不可用："@ + message)
}

/// The error with the given message.
pub fn recovery_error(message: &str) -> (error: AppError)
    ensures
        error@ == recovery_failure(message@),
{
    AppError::Message(text::joined2("恢复数据不可用：", message))
}

fn recovery_error_with(message: &str, detail: &str) -> (error: AppError)
    ensures
        error@ == recovery_failure(message@ + detail@),
{
    recovery_error(text::joined2(message, detail).as_str())
}

/// Whether an operation of this kind can be in this state.
pub open spec fn fits(kind: RecoveryKind, state: RecoveryState) -> bool {
    kind is Login || state != RecoveryState::AwaitingUser
}

/// Checks that the record's operation can be in its state.
pub fn validate_record_state(record: &RecoveryRecord) -> (result: Result<(), AppError>)
    ensures
        result is Ok == fits(record.kind, record.state),
        result is Err ==> result->Err_0@ == recovery_failure("恢复记录包含不适用于当前操作的状态"@),
{
    let valid = match (&record.kind, record.state) {
        (RecoveryKind::Switch { .. }, RecoveryState::AwaitingUser) => false,
        _ => true,
    };
    if valid {
        Ok(())
    } else {
        Err(recovery_error("恢复记录包含不适用于当前操作的状态"))
    }
}

/// Why a record cannot be used.
pub open spec fn record_error(record: RecoveryRecord) -> Option<ErrorView> {
    if record.version != RECORD_VERSION {
        Some(recovery_failure("不支持的恢复记录版本："@ + text::decimal(record.version as nat)))
    } else if outside::uuid_form(record.id@) is None {
        Some(recovery_failure("恢复记录标识无效"@))
    } else if !fits(record.kind, record.state) {
        Some(recovery_failure("恢复记录包含不适用于当前操作的状态"@))
    } else {
        None
    }
}

/// The record that was read, or why there is none.
pub open spec fn loaded(read: Result<RecoveryRecord, DocumentError>) -> Result<
    RecoveryRecord,
    ErrorView,
> {
    match read {
        Err(DocumentError::Unreadable(error)) => Err(
            recovery_failure("无法读取恢复记录："@ + error@),
        ),
        Err(DocumentError::Invalid(error)) => Err(
            recovery_failure("恢复记录格式无效："@ + error@),
        ),
        Ok(record) => match record_error(record) {
            Some(error) => Err(error),
            None => Ok(record),
        },
    }
}

/// Whether the result is the expected one, its error taken by its view.
pub open spec fn is_result<T>(result: Result<T, AppError>, expected: Result<T, ErrorView>) -> bool {
    match (result, expected) {
        (Ok(value), Ok(wanted)) => value == wanted,
        (Err(error), Err(wanted)) => error@ == wanted,
        _ => false,
    }
}

/// The record that was read.
pub fn load_record(read: Result<RecoveryRecord, DocumentError>) -> (record: Result<
    RecoveryRecord,
    AppError,
>)
    ensures
        is_result(record, loaded(read)),
{
    let record = match read {
        Err(DocumentError::Unreadable(error)) => {
            return Err(recovery_error_with("无法读取恢复记录：", error.as_str()));
        },
        Err(DocumentError::Invalid(error)) => {
            return Err(recovery_error_with("恢复记录格式无效：", error.as_str()));
        },
        Ok(record) => record,
    };
    if record.version != RECORD_VERSION {
        let version = text::decimal_text(record.version as u64);
        return Err(recovery_error_with("不支持的恢复记录版本：", version.as_str()));
    }
    if !outside::is_uuid(record.id.as_str()) {
        return Err(recovery_error("恢复记录标识无效"));
    }
    match validate_record_state(&record) {
        Ok(_) => Ok(record),
        Err(error) => Err(error),
    }
}

/// The record in the slot: `None` where the slot has none.
pub open spec fn recorded(stored: Option<Result<RecoveryRecord, DocumentError>>) -> Result<
    Option<RecoveryRecord>,
    ErrorView,
> {
    match stored {
        None => Ok(None),
        Some(read) => match loaded(read) {
            Ok(record) => Ok(Some(record)),
            Err(error) => Err(error),
        },
    }
}

/// The record that was read, which has to be that of the operation `id`.
pub open spec fn required(id: Seq<char>, read: Result<RecoveryRecord, DocumentError>) -> Result<
    RecoveryRecord,
    ErrorView,
> {
    if outside::uuid_form(id) is None {
        Err(recovery_failure("恢复记录标识无效"@))
    } else {
        match loaded(read) {
            Err(error) => Err(error),
            Ok(record) => if record.id@ != id {
                Err(recovery_failure("恢复记录标识不匹配"@))
            } else {
                Ok(record)
            },
        }
    }
}

/// Whether an operation of this kind may move from one state to the other.
pub open spec fn may_move(kind: RecoveryKind, from: RecoveryState, to: RecoveryState) -> bool {
    match kind {
        RecoveryKind::Switch { .. } => from == RecoveryState::Prepared && to
            == RecoveryState::Committed,
        RecoveryKind::Login { .. } => (from == RecoveryState::Prepared && to
            == RecoveryState::AwaitingUser) || (from == RecoveryState::AwaitingUser && to
            == RecoveryState::Committed),
    }
}

/// The record that is to be written when the operation `id` moves on.
pub open spec fn moved(
    id: Seq<char>,
    to: RecoveryState,
    read: Result<RecoveryRecord, DocumentError>,
) -> Result<RecoveryRecord, ErrorView> {
    match required(id, read) {
        Err(error) => Err(error),
        Ok(record) => if may_move(record.kind, record.state, to) {
            Ok(RecoveryRecord { state: to, ..record })
        } else {
            Err(recovery_failure("恢复记录状态转换无效"@))
        },
    }
}

/// What came of writing a record.
pub open spec fn write_error(written: WrittenDocument) -> Option<ErrorView> {
    match written {
        WrittenDocument::Done => None,
        WrittenDocument::NotGenerated(error) => Some(
            recovery_failure("无法生成恢复记录："@ + error@),
        ),
        WrittenDocument::NotWritten(error) => Some(
            recovery_failure("无法持久化恢复记录："@ + error@),
        ),
    }
}

/// What came of writing a record.
pub fn saved_record(written: WrittenDocument) -> (result: Result<(), AppError>)
    ensures
        match result {
            Ok(_) => write_error(written) is None,
            Err(error) => write_error(written) == Some(error@),
        },
{
    match written {
        WrittenDocument::Done => Ok(()),
        WrittenDocument::NotGenerated(error) => Err(
            recovery_error_with("无法生成恢复记录：", error.as_str()),
        ),
        WrittenDocument::NotWritten(error) => Err(
            recovery_error_with("无法持久化恢复记录：", error.as_str()),
        ),
    }
}

/// What was found in the recovery directory.
#[derive(Debug)]
pub struct SlotFacts {
    pub record_exists: bool,
    /// Whether the directory has an entry, or why it could not be read.
    pub entries: Result<Result<bool, String>, String>,
}

/// Why the slot cannot take an operation.
pub open spec fn slot_error(facts: SlotFacts) -> Option<ErrorView> {
    if facts.record_exists {
        Some(recovery_failure("已有账号操作正在等待完成或恢复，请先处理后再试"@))
    } else {
        match facts.entries {
            Err(error) => Some(recovery_failure("无法读取恢复目录："@ + error@)),
            Ok(Err(error)) => Some(recovery_failure("无法读取恢复目录项："@ + error@)),
            Ok(Ok(true)) => Some(
                recovery_failure("恢复目录包含未识别的数据，请关闭战网并重新启动本工具"@),
            ),
            Ok(Ok(false)) => None,
        }
    }
}

/// Checks that the slot is empty.
pub fn ensure_empty(facts: &SlotFacts) -> (result: Result<(), AppError>)
    ensures
        match result {
            Ok(_) => slot_error(*facts) is None,
            Err(error) => slot_error(*facts) == Some(error@),
        },
{
    if facts.record_exists {
        return Err(recovery_error("已有账号操作正在等待完成或恢复，请先处理后再试"));
    }
    match &facts.entries {
        Err(error) => Err(recovery_error_with("无法读取恢复目录：", error.as_str())),
        Ok(Err(error)) => Err(recovery_error_with("无法读取恢复目录项：", error.as_str())),
        Ok(Ok(true)) => Err(
            recovery_error("恢复目录包含未识别的数据，请关闭战网并重新启动本工具"),
        ),
        Ok(Ok(false)) => Ok(()),
    }
}

/// Why an entry of the slot's directory is not one that a preparation leaves there.
pub open spec fn orphan_error(name: Seq<char>) -> Option<ErrorView> {
    if !text::begins_with(name, ".preparing-"@) {
        Some(recovery_failure("恢复目录包含未识别的项目："@ + name))
    } else if outside::uuid_form(
        name.subrange(".preparing-"@.len() as int, name.len() as int),
    ) is None {
        Some(recovery_failure("恢复暂存目录名称无效："@ + name))
    } else {
        None
    }
}

/// Whether the entry is what an interrupted preparation left behind; anything
/// else is an error.
pub fn check_orphan(name: &str) -> (result: Result<(), AppError>)
    ensures
        match result {
            Ok(_) => orphan_error(name@) is None,
            Err(error) => orphan_error(name@) == Some(error@),
        },
{
    match text::strip_prefix(name, ".preparing-") {
        None => Err(recovery_error_with("恢复目录包含未识别的项目：", name)),
        Some(id) => if outside::is_uuid(id.as_str()) {
            Ok(())
        } else {
            Err(recovery_error_with("恢复暂存目录名称无效：", name))
        },
    }
}

/// Opening the slot: its directory is created, and what a preparation without a record
/// left there is removed. Each state names the work that is to be done.
#[derive(Debug)]
pub enum OpenSlot {
    /// The slot's directory is to be created where it is not there.
    Creating,
    /// The path of that directory is to be checked.
    CheckingPath,
    /// It is to be found out whether the record is there.
    CheckingRecord,
    /// The copy from before an operation is to be removed where it is there.
    RemovingBefore,
    /// The slot's directory is to be listed.
    Listing,
    /// The directory with this number is to be removed.
    Removing { names: Vec<String>, index: usize, failure: Option<String> },
}

/// What came of the work for [`OpenSlot`].
#[derive(Debug)]
pub enum OpenSlotReply {
    Io(Result<(), String>),
    Checked(Result<(), AppError>),
    Exists(bool),
    /// The names in the directory, and why there are no more of them, where that is an
    /// error.
    Names(Result<(Vec<String>, Option<String>), String>),
}

/// The step to the entry with this number.
pub open spec fn to_orphan(names: Vec<String>, index: int, failure: Option<String>) -> StepView<
    OpenSlot,
    (),
> {
    if index < names.len() {
        match orphan_error(names@[index]@) {
            Some(error) => step::failing(error),
            None => step::going(OpenSlot::Removing { names, index: index as usize, failure }),
        }
    } else {
        match failure {
            Some(error) => step::failing(recovery_failure("无法读取恢复目录项："@ + error@)),
            None => step::ending(()),
        }
    }
}

fn go_to_orphan(names: Vec<String>, index: usize, failure: Option<String>) -> (step: Step<
    OpenSlot,
    (),
>)
    ensures
        step@ == to_orphan(names, index as int, failure),
        step matches Step::Perform { operation, .. } ==> operation.valid(),
{
    if index < names.len() {
        match check_orphan(names[index].as_str()) {
            Err(error) => step::fail(error),
            Ok(_) => step::go(OpenSlot::Removing { names, index, failure }),
        }
    } else {
        match failure {
            Some(error) => step::fail(
                recovery_error_with("无法读取恢复目录项：", error.as_str()),
            ),
            None => step::end(()),
        }
    }
}

impl OpenSlot {
    /// Whether the number is that of an entry.
    pub open spec fn valid(self) -> bool {
        self matches OpenSlot::Removing { names, index, .. } ==> index < names.len()
    }

    /// What the answer leads to.
    pub open spec fn next(self, reply: OpenSlotReply) -> StepView<OpenSlot, ()> {
        match (self, reply) {
            (OpenSlot::Creating, OpenSlotReply::Io(created)) => match created {
                Err(error) => step::failing(recovery_failure("无法创建恢复目录："@ + error@)),
                Ok(_) => step::going(OpenSlot::CheckingPath),
            },
            (OpenSlot::CheckingPath, OpenSlotReply::Checked(checked)) => match checked {
                Err(error) => step::failing(error@),
                Ok(_) => step::going(OpenSlot::CheckingRecord),
            },
            (OpenSlot::CheckingRecord, OpenSlotReply::Exists(exists)) => if exists {
                step::ending(())
            } else {
                step::going(OpenSlot::RemovingBefore)
            },
            (OpenSlot::RemovingBefore, OpenSlotReply::Checked(removed)) => match removed {
                Err(error) => step::failing(error@),
                Ok(_) => step::going(OpenSlot::Listing),
            },
            (OpenSlot::Listing, OpenSlotReply::Names(names)) => match names {
                Err(error) => step::failing(recovery_failure("无法读取恢复目录："@ + error@)),
                Ok(listed) => to_orphan(listed.0, 0, listed.1),
            },
            (OpenSlot::Removing { names, index, failure }, OpenSlotReply::Checked(removed)) =>
                match removed {
                    Err(error) => step::failing(error@),
                    Ok(_) => to_orphan(names, index + 1, failure),
                },
            _ => step::confused(),
        }
    }

    /// Takes the answer.
    pub fn resume(self, reply: OpenSlotReply) -> (step: Step<OpenSlot, ()>)
        requires
            self.valid(),
        ensures
            step@ == self.next(reply),
            step matches Step::Perform { operation, .. } ==> operation.valid(),
    {
        match (self, reply) {
            (OpenSlot::Creating, OpenSlotReply::Io(created)) => match created {
                Err(error) => step::fail(
                    recovery_error_with("无法创建恢复目录：", error.as_str()),
                ),
                Ok(_) => step::go(OpenSlot::CheckingPath),
            },
            (OpenSlot::CheckingPath, OpenSlotReply::Checked(checked)) => match checked {
                Err(error) => step::fail(error),
                Ok(_) => step::go(OpenSlot::CheckingRecord),
            },
            (OpenSlot::CheckingRecord, OpenSlotReply::Exists(exists)) => if exists {
                step::end(())
            } else {
                step::go(OpenSlot::RemovingBefore)
            },
            (OpenSlot::RemovingBefore, OpenSlotReply::Checked(removed)) => match removed {
                Err(error) => step::fail(error),
                Ok(_) => step::go(OpenSlot::Listing),
            },
            (OpenSlot::Listing, OpenSlotReply::Names(names)) => match names {
                Err(error) => step::fail(
                    recovery_error_with("无法读取恢复目录：", error.as_str()),
                ),
                Ok(listed) => go_to_orphan(listed.0, 0, listed.1),
            },
            (OpenSlot::Removing { names, index, failure }, OpenSlotReply::Checked(removed)) =>
                match removed {
                    Err(error) => step::fail(error),
                    Ok(_) => go_to_orphan(names, index + 1, failure),
                },
            _ => step::give_up(),
        }
    }
}

/// Begins to open the slot.
pub fn open_slot() -> (operation: OpenSlot)
    ensures
        operation == OpenSlot::Creating,
        operation.valid(),
{
    OpenSlot::Creating
}

/// Where the slot holds a record, opening it removes nothing.
pub proof fn law_opening_keeps_a_recorded_operation(operation: OpenSlot, reply: OpenSlotReply)
    ensures
        operation.next(reply) matches StepView::Perform {
            operation: OpenSlot::RemovingBefore,
            ..
        } ==> operation is CheckingRecord && reply == OpenSlotReply::Exists(false),
        operation.next(reply) matches StepView::Perform {
            operation: OpenSlot::Removing { names, index, .. },
            ..
        } ==> (operation is Listing || operation is Removing) && orphan_error(
            names@[index as int]@,
        ) is None,
{
}

/// What is prepared.
#[derive(Debug)]
pub struct PrepareJob {
    pub id: String,
    pub active_directory: String,
    pub kind: RecoveryKind,
    pub previous_client_was_running: bool,
}

/// The record of a prepared operation.
pub open spec fn prepared_record(job: PrepareJob) -> RecoveryRecord {
    RecoveryRecord {
        version: RECORD_VERSION,
        id: job.id,
        state: RecoveryState::Prepared,
        previous_client_was_running: job.previous_client_was_running,
        kind: job.kind,
    }
}

/// Preparing an operation: the client's files are copied and the copy is
/// checked and published; then the record is written. A failure removes what was
/// made, the published copy only where there is no record.
#[derive(Debug)]
pub enum PrepareRecovery {
    /// The slot is to be looked at.
    CheckingSlot { job: PrepareJob },
    /// The path of the client's files is to be checked.
    CheckingActive { job: PrepareJob },
    /// The directory in which the copy is made is to be created.
    CreatingStaging { job: PrepareJob },
    /// The client's files are to be copied into it.
    Capturing { job: PrepareJob },
    /// The manifest of the copy is to be written.
    WritingManifest { job: PrepareJob, manifest: FileSetManifest },
    /// The copy is to be checked against its manifest.
    CheckingFiles { job: PrepareJob, manifest: FileSetManifest },
    /// The copy is to be renamed to its place.
    Publishing { job: PrepareJob },
    /// The directory in which it was made is to be removed.
    RemovingStaging { job: PrepareJob },
    /// The record is to be written.
    WritingRecord { record: RecoveryRecord },
    /// The directory in which the copy was made is to be removed where it is
    /// still there, after this error.
    Discarding { id: String, error: AppError },
    /// It is to be found out whether there is a record, after this error.
    CheckingRecord { error: AppError },
    /// The published copy is to be removed where it is there, after this error.
    RemovingBefore { error: AppError },
}

/// What came of the work for [`PrepareRecovery`].
#[derive(Debug)]
pub enum PrepareReply {
    Slot(SlotFacts),
    Checked(Result<(), AppError>),
    Io(Result<(), String>),
    Captured(Result<FileSetManifest, AppError>),
    Written(WrittenDocument),
    Exists(bool),
    Finished,
}

/// Whether the step removes what was made for the operation and then fails with
/// `error`.
pub open spec fn discards_with(
    step: Step<PrepareRecovery, RecoveryRecord>,
    id: String,
    error: ErrorView,
) -> bool {
    &&& step matches Step::Perform {
        operation: PrepareRecovery::Discarding { id: kept, error: reason },
        report,
    }
    &&& report is None
    &&& kept == id
    &&& reason@ == error
}

/// Whether the step goes on with `operation`.
pub open spec fn goes_on(
    step: Step<PrepareRecovery, RecoveryRecord>,
    operation: PrepareRecovery,
) -> bool {
    step@ == step::going::<PrepareRecovery, RecoveryRecord>(operation)
}

/// Whether the step fails with `error`.
pub open spec fn fails(step: Step<PrepareRecovery, RecoveryRecord>, error: ErrorView) -> bool {
    step@ == step::failing::<PrepareRecovery, RecoveryRecord>(error)
}

impl PrepareRecovery {
    /// Whether the step is the one that the answer leads to.
    pub open spec fn leads_to(
        self,
        reply: PrepareReply,
        step: Step<PrepareRecovery, RecoveryRecord>,
    ) -> bool {
        match (self, reply) {
            (PrepareRecovery::CheckingSlot { job }, PrepareReply::Slot(facts)) => match slot_error(
                facts,
            ) {
                Some(error) => fails(step, error),
                None => goes_on(step, PrepareRecovery::CheckingActive { job }),
            },
            (PrepareRecovery::CheckingActive { job }, PrepareReply::Checked(checked)) =>
                match checked {
                    Err(error) => fails(step, error@),
                    Ok(_) => goes_on(step, PrepareRecovery::CreatingStaging { job }),
                },
            (PrepareRecovery::CreatingStaging { job }, PrepareReply::Io(done)) => match done {
                Err(error) => fails(step, recovery_failure("无法创建恢复暂存目录："@ + error@)),
                Ok(_) => goes_on(step, PrepareRecovery::Capturing { job }),
            },
            (PrepareRecovery::Capturing { job }, PrepareReply::Captured(captured)) =>
                match captured {
                    Err(error) => discards_with(step, job.id, error@),
                    Ok(manifest) => goes_on(
                        step,
                        PrepareRecovery::WritingManifest { job, manifest },
                    ),
                },
            (
                PrepareRecovery::WritingManifest { job, manifest },
                PrepareReply::Checked(written),
            ) => match written {
                Err(error) => discards_with(step, job.id, error@),
                Ok(_) => goes_on(step, PrepareRecovery::CheckingFiles { job, manifest }),
            },
            (PrepareRecovery::CheckingFiles { job, manifest }, PrepareReply::Checked(checked)) =>
                match checked {
                    Err(error) => discards_with(step, job.id, error@),
                    Ok(_) => goes_on(step, PrepareRecovery::Publishing { job }),
                },
            (PrepareRecovery::Publishing { job }, PrepareReply::Io(done)) => match done {
                Err(error) => discards_with(
                    step,
                    job.id,
                    recovery_failure("无法发布恢复副本："@ + error@),
                ),
                Ok(_) => goes_on(step, PrepareRecovery::RemovingStaging { job }),
            },
            (PrepareRecovery::RemovingStaging { job }, PrepareReply::Io(done)) => match done {
                Err(error) => discards_with(
                    step,
                    job.id,
                    recovery_failure("无法清理恢复暂存目录："@ + error@),
                ),
                Ok(_) => goes_on(
                    step,
                    PrepareRecovery::WritingRecord { record: prepared_record(job) },
                ),
            },
            (PrepareRecovery::WritingRecord { record }, PrepareReply::Written(written)) =>
                match write_error(written) {
                    Some(error) => discards_with(step, record.id, error),
                    None => step@ == step::ending::<PrepareRecovery, RecoveryRecord>(record),
                },
            (PrepareRecovery::Discarding { error, .. }, PrepareReply::Finished) => goes_on(
                step,
                PrepareRecovery::CheckingRecord { error },
            ),
            (PrepareRecovery::CheckingRecord { error }, PrepareReply::Exists(exists)) => if exists {
                fails(step, error@)
            } else {
                goes_on(step, PrepareRecovery::RemovingBefore { error })
            },
            (PrepareRecovery::RemovingBefore { error }, PrepareReply::Finished) => fails(
                step,
                error@,
            ),
            _ => step@ == step::confused::<PrepareRecovery, RecoveryRecord>(),
        }
    }

    /// Takes the answer.
    pub fn resume(self, reply: PrepareReply) -> (step: Step<PrepareRecovery, RecoveryRecord>)
        ensures
            self.leads_to(reply, step),
    {
        match (self, reply) {
            (PrepareRecovery::CheckingSlot { job }, PrepareReply::Slot(facts)) => match ensure_empty(
                &facts,
            ) {
                Err(error) => step::fail(error),
                Ok(_) => step::go(PrepareRecovery::CheckingActive { job }),
            },
            (PrepareRecovery::CheckingActive { job }, PrepareReply::Checked(checked)) =>
                match checked {
                    Err(error) => step::fail(error),
                    Ok(_) => step::go(PrepareRecovery::CreatingStaging { job }),
                },
            (PrepareRecovery::CreatingStaging { job }, PrepareReply::Io(done)) => match done {
                Err(error) => step::fail(
                    recovery_error_with("无法创建恢复暂存目录：", error.as_str()),
                ),
                Ok(_) => step::go(PrepareRecovery::Capturing { job }),
            },
            (PrepareRecovery::Capturing { job }, PrepareReply::Captured(captured)) =>
                match captured {
                    Err(error) => step::go(PrepareRecovery::Discarding { id: job.id, error }),
                    Ok(manifest) => step::go(PrepareRecovery::WritingManifest { job, manifest }),
                },
            (
                PrepareRecovery::WritingManifest { job, manifest },
                PrepareReply::Checked(written),
            ) => match written {
                Err(error) => step::go(PrepareRecovery::Discarding { id: job.id, error }),
                Ok(_) => step::go(PrepareRecovery::CheckingFiles { job, manifest }),
            },
            (
                PrepareRecovery::CheckingFiles { job, manifest: _ },
                PrepareReply::Checked(checked),
            ) => match checked {
                Err(error) => step::go(PrepareRecovery::Discarding { id: job.id, error }),
                Ok(_) => step::go(PrepareRecovery::Publishing { job }),
            },
            (PrepareRecovery::Publishing { job }, PrepareReply::Io(done)) => match done {
                Err(error) => {
                    let error = recovery_error_with("无法发布恢复副本：", error.as_str());
                    step::go(PrepareRecovery::Discarding { id: job.id, error })
                },
                Ok(_) => step::go(PrepareRecovery::RemovingStaging { job }),
            },
            (PrepareRecovery::RemovingStaging { job }, PrepareReply::Io(done)) => match done {
                Err(error) => {
                    let error = recovery_error_with("无法清理恢复暂存目录：", error.as_str());
                    step::go(PrepareRecovery::Discarding { id: job.id, error })
                },
                Ok(_) => {
                    let record = RecoveryRecord {
                        version: RECORD_VERSION,
                        id: job.id,
                        state: RecoveryState::Prepared,
                        previous_client_was_running: job.previous_client_was_running,
                        kind: job.kind,
                    };
                    step::go(PrepareRecovery::WritingRecord { record })
                },
            },
            (PrepareRecovery::WritingRecord { record }, PrepareReply::Written(written)) =>
                match saved_record(written) {
                    Err(error) => step::go(PrepareRecovery::Discarding { id: record.id, error }),
                    Ok(_) => step::end(record),
                },
            (PrepareRecovery::Discarding { id: _, error }, PrepareReply::Finished) => step::go(
                PrepareRecovery::CheckingRecord { error },
            ),
            (PrepareRecovery::CheckingRecord { error }, PrepareReply::Exists(exists)) => if exists {
                step::fail(error)
            } else {
                step::go(PrepareRecovery::RemovingBefore { error })
            },
            (PrepareRecovery::RemovingBefore { error }, PrepareReply::Finished) => step::fail(error),
            _ => step::give_up(),
        }
    }
}

/// Moving an operation on: its record is read and written with the new state.
#[derive(Debug)]
pub enum TransitionRecovery {
    /// The record is to be read.
    Loading { id: String, state: RecoveryState },
    /// The record is to be written.
    Writing { record: RecoveryRecord },
}

impl TransitionRecovery {
    /// What the answer leads to.
    pub open spec fn next(self, reply: RecoveryReply) -> StepView<
        TransitionRecovery,
        RecoveryRecord,
    > {
        match (self, reply) {
            (TransitionRecovery::Loading { id, state }, RecoveryReply::Record(read)) => match moved(
                id@,
                state,
                read,
            ) {
                Err(error) => step::failing(error),
                Ok(record) => step::going(TransitionRecovery::Writing { record }),
            },
            (TransitionRecovery::Writing { record }, RecoveryReply::Written(written)) =>
                match write_error(written) {
                    Some(error) => step::failing(error),
                    None => step::ending(record),
                },
            _ => step::confused(),
        }
    }

    /// Takes the answer.
    pub fn resume(self, reply: RecoveryReply) -> (step: Step<TransitionRecovery, RecoveryRecord>)
        ensures
            step@ == self.next(reply),
    {
        match (self, reply) {
            (TransitionRecovery::Loading { id, state }, RecoveryReply::Record(read)) =>
                match RecoveryStore::transition(id.as_str(), state, read) {
                    Err(error) => step::fail(error),
                    Ok(record) => step::go(TransitionRecovery::Writing { record }),
                },
            (TransitionRecovery::Writing { record }, RecoveryReply::Written(written)) =>
                match saved_record(written) {
                    Err(error) => step::fail(error),
                    Ok(_) => step::end(record),
                },
            _ => step::give_up(),
        }
    }
}

/// Emptying the slot: the record goes first, then the copy.
#[derive(Clone, Copy, Debug, PartialEq, Eq, Structural)]
pub enum CleanupRecovery {
    /// The record is to be removed where there is one.
    RemovingRecord,
    /// The copy is to be removed where there is one.
    RemovingBefore,
}

/// What came of the work for [`CleanupRecovery`].
#[derive(Debug)]
pub enum CleanupReply {
    Io(Result<(), String>),
    Checked(Result<(), AppError>),
}

impl CleanupRecovery {
    /// What the answer leads to.
    pub open spec fn next(self, reply: CleanupReply) -> StepView<CleanupRecovery, ()> {
        match (self, reply) {
            (CleanupRecovery::RemovingRecord, CleanupReply::Io(done)) => match done {
                Err(error) => step::failing(recovery_failure("无法清理恢复记录："@ + error@)),
                Ok(_) => step::going(CleanupRecovery::RemovingBefore),
            },
            (CleanupRecovery::RemovingBefore, CleanupReply::Checked(done)) => match done {
                Err(error) => step::failing(error@),
                Ok(_) => step::ending(()),
            },
            _ => step::confused(),
        }
    }

    /// Takes the answer.
    pub fn resume(self, reply: CleanupReply) -> (step: Step<CleanupRecovery, ()>)
        ensures
            step@ == self.next(reply),
    {
        match (self, reply) {
            (CleanupRecovery::RemovingRecord, CleanupReply::Io(done)) => match done {
                Err(error) => step::fail(
                    recovery_error_with("无法清理恢复记录：", error.as_str()),
                ),
                Ok(_) => step::go(CleanupRecovery::RemovingBefore),
            },
            (CleanupRecovery::RemovingBefore, CleanupReply::Checked(done)) => match done {
                Err(error) => step::fail(error),
                Ok(_) => step::end(()),
            },
            _ => step::give_up(),
        }
    }
}

/// Empties the slot.
pub fn cleanup() -> (operation: CleanupRecovery)
    ensures
        operation == CleanupRecovery::RemovingRecord,
{
    CleanupRecovery::RemovingRecord
}

/// What came of removing a directory of recovery data: its path is checked
/// before.
pub fn removed_directory(checked: Result<(), AppError>, removed: Result<(), String>) -> (result:
    Result<(), AppError>)
    ensures
        match (checked, removed) {
            (Err(error), _) => result == Err::<(), AppError>(error),
            (Ok(_), Err(error)) => result is Err && result->Err_0@ == recovery_failure(
                "无法清理恢复目录："@ + error@,
            ),
            (Ok(_), Ok(_)) => result is Ok,
        },
{
    match (checked, removed) {
        (Err(error), _) => Err(error),
        (Ok(_), Err(error)) => Err(recovery_error_with("无法清理恢复目录：", error.as_str())),
        (Ok(_), Ok(_)) => Ok(()),
    }
}

/// Committing an operation: the record says so, and then the slot is emptied.
#[derive(Debug)]
pub enum CommitRecovery {
    /// The record is to be read.
    Loading { id: String },
    /// The record is to be written.
    Writing { record: RecoveryRecord },
    /// The slot is to be emptied.
    Cleaning { id: String },
}

/// What came of the work for an operation on the slot.
#[derive(Debug)]
pub enum RecoveryReply {
    Record(Result<RecoveryRecord, DocumentError>),
    Written(WrittenDocument),
    Manifest(Result<FileSetManifest, DocumentError>),
    Done(Result<(), AppError>),
}

impl CommitRecovery {
    /// What the answer leads to.
    pub open spec fn next(self, reply: RecoveryReply) -> StepView<
        CommitRecovery,
        CommitOutcomeView,
    > {
        match (self, reply) {
            (CommitRecovery::Loading { id }, RecoveryReply::Record(read)) => match moved(
                id@,
                RecoveryState::Committed,
                read,
            ) {
                Err(error) => step::failing(error),
                Ok(record) => step::going(CommitRecovery::Writing { record }),
            },
            (CommitRecovery::Writing { record }, RecoveryReply::Written(written)) =>
                match write_error(written) {
                    Some(error) => step::failing(error),
                    None => step::going(CommitRecovery::Cleaning { id: record.id }),
                },
            (CommitRecovery::Cleaning { id }, RecoveryReply::Done(done)) => match done {
                Ok(_) => step::ending(CommitOutcomeView::Committed),
                Err(error) => step::ending(CommitOutcomeView::CleanupPending(error@.message())),
            },
            _ => step::confused(),
        }
    }

    /// Takes the answer.
    pub fn resume(self, reply: RecoveryReply) -> (step: Step<
        CommitRecovery,
        RecoveryCommitOutcome,
    >)
        ensures
            step@ == self.next(reply),
    {
        match (self, reply) {
            (CommitRecovery::Loading { id }, RecoveryReply::Record(read)) => match RecoveryStore::transition(
                id.as_str(),
                RecoveryState::Committed,
                read,
            ) {
                Err(error) => step::fail(error),
                Ok(record) => step::go(CommitRecovery::Writing { record }),
            },
            (CommitRecovery::Writing { record }, RecoveryReply::Written(written)) =>
                match saved_record(written) {
                    Err(error) => step::fail(error),
                    Ok(_) => step::go(CommitRecovery::Cleaning { id: record.id }),
                },
            (CommitRecovery::Cleaning { id: _ }, RecoveryReply::Done(done)) => match done {
                Ok(_) => step::end(RecoveryCommitOutcome::Committed),
                Err(error) => step::end(RecoveryCommitOutcome::CleanupPending(error.message())),
            },
            _ => step::give_up(),
        }
    }
}

/// Emptying the slot of an operation that has to be in the given state.
#[derive(Debug)]
pub enum DropRecovery {
    /// The record is to be read.
    Loading { id: String, state: RecoveryState },
    /// The slot is to be emptied.
    Cleaning,
}

/// The error for an operation that is not in the state in which its slot may be
/// emptied.
pub open spec fn not_droppable(state: RecoveryState) -> ErrorView {
    if state == RecoveryState::Committed {
        recovery_failure("恢复记录尚未提交"@)
    } else {
        recovery_failure("只能放弃尚未写入活动配置的恢复记录"@)
    }
}

impl DropRecovery {
    /// What the answer leads to.
    pub open spec fn next(self, reply: RecoveryReply) -> StepView<DropRecovery, ()> {
        match (self, reply) {
            (DropRecovery::Loading { id, state }, RecoveryReply::Record(read)) => match required(
                id@,
                read,
            ) {
                Err(error) => step::failing(error),
                Ok(record) => if record.state == state {
                    step::going(DropRecovery::Cleaning)
                } else {
                    step::failing(not_droppable(state))
                },
            },
            (DropRecovery::Cleaning, RecoveryReply::Done(done)) => match done {
                Ok(_) => step::ending(()),
                Err(error) => step::failing(error@),
            },
            _ => step::confused(),
        }
    }

    /// Takes the answer.
    pub fn resume(self, reply: RecoveryReply) -> (step: Step<DropRecovery, ()>)
        ensures
            step@ == self.next(reply),
    {
        match (self, reply) {
            (DropRecovery::Loading { id, state }, RecoveryReply::Record(read)) => match RecoveryStore::require(
                id.as_str(),
                read,
            ) {
                Err(error) => step::fail(error),
                Ok(record) => if record.state == state {
                    step::go(DropRecovery::Cleaning)
                } else if state == RecoveryState::Committed {
                    step::fail(recovery_error("恢复记录尚未提交"))
                } else {
                    step::fail(recovery_error("只能放弃尚未写入活动配置的恢复记录"))
                },
            },
            (DropRecovery::Cleaning, RecoveryReply::Done(done)) => match done {
                Ok(_) => step::end(()),
                Err(error) => step::fail(error),
            },
            _ => step::give_up(),
        }
    }
}

/// Undoing an operation: the copy is checked, the client has to be stopped, the
/// client's files are replaced by the copy, and the slot is emptied.
#[derive(Debug)]
pub enum RollbackRecovery {
    /// The record is to be read.
    Loading { id: String },
    /// The path of the copy is to be checked.
    CheckingBefore,
    /// The manifest of the copy is to be read.
    ReadingManifest,
    /// The copy is to be checked against its manifest.
    CheckingFiles { files: Vec<ManifestFile> },
    /// It is to be made sure that the client is stopped.
    ConfirmingStopped { files: Vec<ManifestFile> },
    /// The client's files are to be replaced by these files of the copy.
    Replacing { files: Vec<ManifestFile> },
    /// The slot is to be emptied.
    Cleaning,
}

impl RollbackRecovery {
    /// What the answer leads to.
    pub open spec fn next(self, reply: RecoveryReply) -> StepView<RollbackRecovery, ()> {
        match (self, reply) {
            (RollbackRecovery::Loading { id }, RecoveryReply::Record(read)) => match required(
                id@,
                read,
            ) {
                Err(error) => step::failing(error),
                Ok(record) => if record.state == RecoveryState::Committed {
                    step::failing(recovery_failure("已提交的操作不能回滚"@))
                } else {
                    step::going(RollbackRecovery::CheckingBefore)
                },
            },
            (RollbackRecovery::CheckingBefore, RecoveryReply::Done(done)) => match done {
                Err(error) => step::failing(error@),
                Ok(_) => step::going(RollbackRecovery::ReadingManifest),
            },
            (RollbackRecovery::ReadingManifest, RecoveryReply::Manifest(read)) => match read {
                Err(error) => step::failing(snapshot::document_failure("事务文件清单"@, error)),
                Ok(manifest) => if manifest.version != snapshot::SNAPSHOT_VERSION {
                    step::failing(
                        ErrorView::Snapshot(
                            "不支持的文件清单版本："@ + text::decimal(manifest.version as nat),
                        ),
                    )
                } else {
                    step::going(RollbackRecovery::CheckingFiles { files: manifest.files })
                },
            },
            (RollbackRecovery::CheckingFiles { files }, RecoveryReply::Done(done)) => match done {
                Err(error) => step::failing(error@),
                Ok(_) => step::going(RollbackRecovery::ConfirmingStopped { files }),
            },
            (RollbackRecovery::ConfirmingStopped { files }, RecoveryReply::Done(done)) =>
                match done {
                    Err(error) => step::failing(error@),
                    Ok(_) => step::going(RollbackRecovery::Replacing { files }),
                },
            (RollbackRecovery::Replacing { files }, RecoveryReply::Done(done)) => match done {
                Err(error) => step::failing(error@),
                Ok(_) => step::going(RollbackRecovery::Cleaning),
            },
            (RollbackRecovery::Cleaning, RecoveryReply::Done(done)) => match done {
                Err(error) => step::failing(error@),
                Ok(_) => step::ending(()),
            },
            _ => step::confused(),
        }
    }

    /// Takes the answer.
    pub fn resume(self, reply: RecoveryReply) -> (step: Step<RollbackRecovery, ()>)
        ensures
            step@ == self.next(reply),
    {
        match (self, reply) {
            (RollbackRecovery::Loading { id }, RecoveryReply::Record(read)) => match RecoveryStore::require(
                id.as_str(),
                read,
            ) {
                Err(error) => step::fail(error),
                Ok(record) => if record.state == RecoveryState::Committed {
                    step::fail(recovery_error("已提交的操作不能回滚"))
                } else {
                    step::go(RollbackRecovery::CheckingBefore)
                },
            },
            (RollbackRecovery::CheckingBefore, RecoveryReply::Done(done)) => match done {
                Err(error) => step::fail(error),
                Ok(_) => step::go(RollbackRecovery::ReadingManifest),
            },
            (RollbackRecovery::ReadingManifest, RecoveryReply::Manifest(read)) =>
                match snapshot_store::read_file_set_manifest(read) {
                    Err(error) => step::fail(error),
                    Ok(manifest) => step::go(
                        RollbackRecovery::CheckingFiles { files: manifest.files },
                    ),
                },
            (RollbackRecovery::CheckingFiles { files }, RecoveryReply::Done(done)) => match done {
                Err(error) => step::fail(error),
                Ok(_) => step::go(RollbackRecovery::ConfirmingStopped { files }),
            },
            (RollbackRecovery::ConfirmingStopped { files }, RecoveryReply::Done(done)) =>
                match done {
                    Err(error) => step::fail(error),
                    Ok(_) => step::go(RollbackRecovery::Replacing { files }),
                },
            (RollbackRecovery::Replacing { files: _ }, RecoveryReply::Done(done)) => match done {
                Err(error) => step::fail(error),
                Ok(_) => step::go(RollbackRecovery::Cleaning),
            },
            (RollbackRecovery::Cleaning, RecoveryReply::Done(done)) => match done {
                Err(error) => step::fail(error),
                Ok(_) => step::end(()),
            },
            _ => step::give_up(),
        }
    }
}

impl RecoveryStore {
    /// The directory of the slot.
    pub closed spec fn root(self) -> Seq<char> {
        self.root_directory@
    }

    /// The slot in the given data directory.
    pub fn new(data_directory: &str) -> (store: RecoveryStore)
        ensures
            store.root() == paths::adjoined(data_directory@, "recovery"@),
    {
        RecoveryStore { root_directory: paths::join(data_directory, "recovery") }
    }

    /// The directory of the slot.
    pub fn root_directory(&self) -> (directory: &str)
        ensures
            directory@ == self.root(),
    {
        self.root_directory.as_str()
    }

    /// The file of the record.
    pub fn record_path(&self) -> (path: String)
        ensures
            path@ == paths::adjoined(self.root(), "record.json"@),
    {
        paths::join(self.root_directory.as_str(), "record.json")
    }

    /// The directory of the copy.
    pub fn before_directory(&self) -> (path: String)
        ensures
            path@ == paths::adjoined(self.root(), "before"@),
    {
        paths::join(self.root_directory.as_str(), "before")
    }

    /// The directory in which the copy of an operation is made.
    pub fn staging_directory(&self, id: &str) -> (path: String)
        ensures
            path@ == paths::adjoined(self.root(), ".preparing-"@ + id@),
    {
        paths::join(
            self.root_directory.as_str(),
            text::joined2(".preparing-", id).as_str(),
        )
    }

    /// The record in the slot: `None` where the slot has none.
    pub fn record(stored: Option<Result<RecoveryRecord, DocumentError>>) -> (record: Result<
        Option<RecoveryRecord>,
        AppError,
    >)
        ensures
            is_result(record, recorded(stored)),
    {
        match stored {
            None => Ok(None),
            Some(read) => match load_record(read) {
                Ok(record) => Ok(Some(record)),
                Err(error) => Err(error),
            },
        }
    }

    /// The record that was read, which has to be that of the operation `id`.
    pub fn require(id: &str, read: Result<RecoveryRecord, DocumentError>) -> (record: Result<
        RecoveryRecord,
        AppError,
    >)
        ensures
            is_result(record, required(id@, read)),
    {
        if !outside::is_uuid(id) {
            return Err(recovery_error("恢复记录标识无效"));
        }
        match load_record(read) {
            Err(error) => Err(error),
            Ok(record) => if text::same_text(record.id.as_str(), id) {
                Ok(record)
            } else {
                Err(recovery_error("恢复记录标识不匹配"))
            },
        }
    }

    /// The record that is to be written when the operation `id` moves on.
    pub fn transition(
        id: &str,
        next_state: RecoveryState,
        read: Result<RecoveryRecord, DocumentError>,
    ) -> (record: Result<RecoveryRecord, AppError>)
        ensures
            is_result(record, moved(id@, next_state, read)),
    {
        let record = match RecoveryStore::require(id, read) {
            Ok(record) => record,
            Err(error) => {
                return Err(error);
            },
        };
        let valid = match (&record.kind, record.state, next_state) {
            (RecoveryKind::Switch { .. }, RecoveryState::Prepared, RecoveryState::Committed) => true,
            (RecoveryKind::Login { .. }, RecoveryState::Prepared, RecoveryState::AwaitingUser) => true,
            (RecoveryKind::Login { .. }, RecoveryState::AwaitingUser, RecoveryState::Committed) => true,
            _ => false,
        };
        if !valid {
            return Err(recovery_error("恢复记录状态转换无效"));
        }
        Ok(RecoveryRecord { state: next_state, ..record })
    }

    /// Begins to prepare an operation.
    pub fn prepare(
        active_directory: &str,
        kind: RecoveryKind,
        previous_client_was_running: bool,
    ) -> (operation: PrepareRecovery)
        ensures
            operation matches PrepareRecovery::CheckingSlot { job } && {
                &&& outside::uuid_form(job.id@) == Some(job.id@)
                &&& job.active_directory@ == active_directory@
                &&& job.kind == kind
                &&& job.previous_client_was_running == previous_client_was_running
            },
    {
        PrepareRecovery::CheckingSlot {
            job: PrepareJob {
                id: outside::new_id(),
                active_directory: active_directory.to_owned(),
                kind,
                previous_client_was_running,
            },
        }
    }

    /// Commits the operation `id`.
    pub fn commit(id: &str) -> (operation: CommitRecovery)
        ensures
            operation matches CommitRecovery::Loading { id: kept } && kept@ == id@,
    {
        CommitRecovery::Loading { id: id.to_owned() }
    }

    /// Gives up the operation `id`, which has not changed the client's files yet.
    pub fn discard_prepared(id: &str) -> (operation: DropRecovery)
        ensures
            operation matches DropRecovery::Loading { id: kept, state } && kept@ == id@ && state
                == RecoveryState::Prepared,
    {
        DropRecovery::Loading { id: id.to_owned(), state: RecoveryState::Prepared }
    }

    /// Empties the slot of the operation `id`, which is committed.
    pub fn cleanup_committed(id: &str) -> (operation: DropRecovery)
        ensures
            operation matches DropRecovery::Loading { id: kept, state } && kept@ == id@ && state
                == RecoveryState::Committed,
    {
        DropRecovery::Loading { id: id.to_owned(), state: RecoveryState::Committed }
    }

    /// Undoes the operation `id`.
    pub fn rollback(id: &str) -> (operation: RollbackRecovery)
        ensures
            operation matches RollbackRecovery::Loading { id: kept } && kept@ == id@,
    {
        RollbackRecovery::Loading { id: id.to_owned() }
    }
}

impl RecoveryReply {
    /// Whether the work was done.
    pub open spec fn is_done(self) -> bool {
        self matches RecoveryReply::Done(Ok(_))
    }

    /// Why the work was not done.
    pub open spec fn failure(self) -> Option<ErrorView> {
        match self {
            RecoveryReply::Done(Err(error)) => Some(error@),
            _ => None,
        }
    }
}

/// Whether a record is one of this version that can be kept: its name has the form of one,
/// and only a login waits for the user.
pub open spec fn is_sound(record: RecoveryRecord) -> bool {
    &&& record.version == RECORD_VERSION
    &&& outside::uuid_form(record.id@) is Some
    &&& record.state == RecoveryState::AwaitingUser ==> record.kind is Login
}

/// Whether a sound record was read.
pub open spec fn reads_sound(read: Result<RecoveryRecord, DocumentError>) -> bool {
    read matches Ok(record) && is_sound(record)
}

/// Whether there is a sound record in the slot.
pub open spec fn holds_sound(stored: Option<Result<RecoveryRecord, DocumentError>>) -> bool {
    stored matches Some(Ok(record)) && is_sound(record)
}

/// A record is read, in the slot or as that of an operation, exactly where it is sound, and
/// in the latter case that of the operation. Nothing is changed in it.
pub proof fn law_only_sound_records_are_read(
    id: Seq<char>,
    read: Result<RecoveryRecord, DocumentError>,
)
    ensures
        loaded(read) is Ok <==> reads_sound(read),
        loaded(read) is Ok ==> loaded(read)->Ok_0 == read->Ok_0,
        recorded(None) == Ok::<Option<RecoveryRecord>, ErrorView>(None),
        recorded(Some(read)) is Ok <==> reads_sound(read),
        recorded(Some(read)) is Ok ==> recorded(Some(read))->Ok_0 == Some(read->Ok_0),
        required(id, read) is Ok <==> reads_sound(read) && read->Ok_0.id@ == id,
        required(id, read) is Ok ==> required(id, read)->Ok_0 == read->Ok_0,
{
}

/// A switch that is prepared can be committed; a login that is prepared can be moved to
/// waiting for the user, and one that waits can be committed. Nothing else moves, and moving
/// changes the state of the record alone.
pub proof fn law_records_move_forward_only(
    id: Seq<char>,
    to: RecoveryState,
    read: Result<RecoveryRecord, DocumentError>,
)
    ensures
        moved(id, to, read) is Ok <==> {
            &&& reads_sound(read)
            &&& read->Ok_0.id@ == id
            &&& {
                ||| read->Ok_0.kind is Switch && read->Ok_0.state == RecoveryState::Prepared && to
                    == RecoveryState::Committed
                ||| read->Ok_0.kind is Login && read->Ok_0.state == RecoveryState::Prepared && to
                    == RecoveryState::AwaitingUser
                ||| read->Ok_0.kind is Login && read->Ok_0.state == RecoveryState::AwaitingUser
                    && to == RecoveryState::Committed
            }
        },
        moved(id, to, read) is Ok ==> {
            let record = moved(id, to, read)->Ok_0;
            &&& record.state == to
            &&& record.id == read->Ok_0.id
            &&& record.version == read->Ok_0.version
            &&& record.kind == read->Ok_0.kind
            &&& record.previous_client_was_running == read->Ok_0.previous_client_was_running
        },
{
}

impl TransitionRecovery {
    /// How the operation goes on.
    pub open spec fn steps() -> spec_fn(TransitionRecovery, RecoveryReply) -> StepView<
        TransitionRecovery,
        RecoveryRecord,
    > {
        |operation: TransitionRecovery, reply: RecoveryReply| operation.next(reply)
    }
}

/// Moving a record succeeds exactly where it was read, may move to the state, and was
/// written in it.
pub proof fn law_moved_record_is_written(
    id: String,
    state: RecoveryState,
    run: Seq<Moment<TransitionRecovery, RecoveryReply>>,
)
    requires
        step::is_run(TransitionRecovery::steps(), TransitionRecovery::Loading { id, state }, run),
    ensures
        step::result_of(TransitionRecovery::steps(), run) is Ok <==> {
            &&& run.len() == 2
            &&& run[0].reply is Record
            &&& moved(id@, state, run[0].reply->Record_0) is Ok
            &&& run[1].operation == (TransitionRecovery::Writing { record: moved(id@, state, run[0].reply->Record_0)->Ok_0 })
            &&& run[1].reply == RecoveryReply::Written(WrittenDocument::Done)
        },
        step::result_of(TransitionRecovery::steps(), run) is Ok ==> {
            step::result_of(TransitionRecovery::steps(), run) == Ok::<RecoveryRecord, ErrorView>(moved(id@, state, run[0].reply->Record_0)->Ok_0)
        },
        run.len() <= 2,
{
    let steps = TransitionRecovery::steps();
    assert(step::follows(steps, run, 0));
    if run.len() > 1 {
        assert(step::follows(steps, run, 1));
    }
}

impl CleanupRecovery {
    /// How the operation goes on.
    pub open spec fn steps() -> spec_fn(CleanupRecovery, CleanupReply) -> StepView<
        CleanupRecovery,
        (),
    > {
        |operation: CleanupRecovery, reply: CleanupReply| operation.next(reply)
    }
}

/// Emptying the slot succeeds exactly where the record was removed and then the copy.
pub proof fn law_record_is_removed_before_the_copy(
    run: Seq<Moment<CleanupRecovery, CleanupReply>>,
)
    requires
        step::is_run(CleanupRecovery::steps(), CleanupRecovery::RemovingRecord, run),
    ensures
        step::result_of(CleanupRecovery::steps(), run) is Ok <==> {
            &&& run.len() == 2
            &&& run[0].reply is Io
            &&& run[0].reply->Io_0 is Ok
            &&& run[1].operation is RemovingBefore
            &&& run[1].reply is Checked
            &&& run[1].reply->Checked_0 is Ok
        },
        run.len() <= 2,
{
    let steps = CleanupRecovery::steps();
    assert(step::follows(steps, run, 0));
    if run.len() > 1 {
        assert(step::follows(steps, run, 1));
    }
}

impl CommitRecovery {
    /// How the operation goes on.
    pub open spec fn steps() -> spec_fn(CommitRecovery, RecoveryReply) -> StepView<
        CommitRecovery,
        CommitOutcomeView,
    > {
        |operation: CommitRecovery, reply: RecoveryReply| operation.next(reply)
    }
}

/// Committing an operation succeeds exactly where its record was read, may move to being
/// committed, was written as committed, and emptying the slot was tried. A slot that could
/// not be emptied is reported as such, with the reason, and the operation is committed
/// nevertheless.
pub proof fn law_committed_record_is_written_before_the_slot_is_emptied(
    id: String,
    run: Seq<Moment<CommitRecovery, RecoveryReply>>,
)
    requires
        step::is_run(CommitRecovery::steps(), CommitRecovery::Loading { id }, run),
    ensures
        step::result_of(CommitRecovery::steps(), run) is Ok <==> {
            &&& run.len() == 3
            &&& run[0].reply is Record
            &&& moved(id@, RecoveryState::Committed, run[0].reply->Record_0) is Ok
            &&& run[1].operation == (CommitRecovery::Writing {
                record: moved(id@, RecoveryState::Committed, run[0].reply->Record_0)->Ok_0,
            })
            &&& run[1].reply == RecoveryReply::Written(WrittenDocument::Done)
            &&& run[2].operation is Cleaning
            &&& run[2].operation->Cleaning_id@ == id@
            &&& run[2].reply is Done
        },
        step::result_of(CommitRecovery::steps(), run) is Ok && run[2].reply.is_done() ==> step::result_of(CommitRecovery::steps(), run) == Ok::<CommitOutcomeView, ErrorView>(
            CommitOutcomeView::Committed,
        ),
        step::result_of(CommitRecovery::steps(), run) is Ok && run[2].reply.failure() is Some ==> step::result_of(CommitRecovery::steps(), run) == Ok::<CommitOutcomeView, ErrorView>(
            CommitOutcomeView::CleanupPending(run[2].reply.failure()->0.message()),
        ),
        run.len() <= 3,
{
    let steps = CommitRecovery::steps();
    assert(step::follows(steps, run, 0));
    if run.len() > 1 {
        assert(step::follows(steps, run, 1));
    }
    if run.len() > 2 {
        assert(step::follows(steps, run, 2));
    }
}

impl DropRecovery {
    /// How the operation goes on.
    pub open spec fn steps() -> spec_fn(DropRecovery, RecoveryReply) -> StepView<
        DropRecovery,
        (),
    > {
        |operation: DropRecovery, reply: RecoveryReply| operation.next(reply)
    }
}

/// Dropping an operation succeeds exactly where its record was read, is in the state that
/// was given, and the slot was emptied.
pub proof fn law_operation_is_dropped_in_its_state_only(
    id: String,
    state: RecoveryState,
    run: Seq<Moment<DropRecovery, RecoveryReply>>,
)
    requires
        step::is_run(DropRecovery::steps(), DropRecovery::Loading { id, state }, run),
    ensures
        step::result_of(DropRecovery::steps(), run) is Ok <==> {
            &&& run.len() == 2
            &&& run[0].reply is Record
            &&& reads_sound(run[0].reply->Record_0)
            &&& run[0].reply->Record_0->Ok_0.id@ == id@
            &&& run[0].reply->Record_0->Ok_0.state == state
            &&& run[1].operation is Cleaning
            &&& run[1].reply.is_done()
        },
        run.len() == 2 && run[1].reply.failure() is Some ==> step::result_of(DropRecovery::steps(), run) == Err::<(), ErrorView>(run[1].reply.failure()->0),
        run.len() <= 2,
{
    let steps = DropRecovery::steps();
    assert(step::follows(steps, run, 0));
    if run.len() > 1 {
        assert(step::follows(steps, run, 1));
    }
}

impl RollbackRecovery {
    /// How the operation goes on.
    pub open spec fn steps() -> spec_fn(RollbackRecovery, RecoveryReply) -> StepView<
        RollbackRecovery,
        (),
    > {
        |operation: RollbackRecovery, reply: RecoveryReply| operation.next(reply)
    }
}

/// Undoing an operation succeeds exactly where its record was read and is not committed,
/// the path of the copy was checked, its manifest of this version was read, the copy was
/// checked against it, the client was confirmed to be stopped, the client's files were
/// replaced by those of the manifest, and the slot was emptied. Work that fails ends it
/// with its error.
pub proof fn law_rollback_puts_back_the_checked_copy(
    id: String,
    run: Seq<Moment<RollbackRecovery, RecoveryReply>>,
)
    requires
        step::is_run(RollbackRecovery::steps(), RollbackRecovery::Loading { id }, run),
    ensures
        step::result_of(RollbackRecovery::steps(), run) is Ok <==> {
            let files = run[2].reply->Manifest_0->Ok_0.files;
            &&& run.len() == 7
            &&& run[0].reply is Record
            &&& reads_sound(run[0].reply->Record_0)
            &&& run[0].reply->Record_0->Ok_0.id@ == id@
            &&& run[0].reply->Record_0->Ok_0.state != RecoveryState::Committed
            &&& run[1].operation is CheckingBefore
            &&& run[1].reply.is_done()
            &&& run[2].operation is ReadingManifest
            &&& run[2].reply is Manifest
            &&& run[2].reply->Manifest_0 is Ok
            &&& run[2].reply->Manifest_0->Ok_0.version == snapshot::SNAPSHOT_VERSION
            &&& run[3].operation == (RollbackRecovery::CheckingFiles { files })
            &&& run[3].reply.is_done()
            &&& run[4].operation == (RollbackRecovery::ConfirmingStopped { files })
            &&& run[4].reply.is_done()
            &&& run[5].operation == (RollbackRecovery::Replacing { files })
            &&& run[5].reply.is_done()
            &&& run[6].operation is Cleaning
            &&& run[6].reply.is_done()
        },
        forall|i: int|
            0 < i < run.len() && (#[trigger] run[i].reply.failure()) is Some && !(run[i].operation
                is ReadingManifest) ==> i == run.len() - 1 && step::result_of(RollbackRecovery::steps(), run) == Err::<(), ErrorView>(
                run[i].reply.failure()->0,
            ),
        run.len() <= 7,
{
    let steps = RollbackRecovery::steps();
    assert(step::follows(steps, run, 0));
    if run.len() > 1 {
        assert(step::follows(steps, run, 1));
    }
    if run.len() > 2 {
        assert(step::follows(steps, run, 2));
    }
    if run.len() > 3 {
        assert(step::follows(steps, run, 3));
    }
    if run.len() > 4 {
        assert(step::follows(steps, run, 4));
    }
    if run.len() > 5 {
        assert(step::follows(steps, run, 5));
    }
    if run.len() > 6 {
        assert(step::follows(steps, run, 6));
    }
}

impl PrepareRecovery {
    /// How the operation may go on.
    pub open spec fn leads() -> spec_fn(PrepareRecovery, PrepareReply, Step<PrepareRecovery, RecoveryRecord>) -> bool {
        |operation: PrepareRecovery, reply: PrepareReply, step: Step<PrepareRecovery, RecoveryRecord>|
            operation.leads_to(reply, step)
    }
}

impl PrepareReply {
    /// Whether the work was done.
    pub open spec fn is_done(self) -> bool {
        self matches PrepareReply::Checked(Ok(_)) || self matches PrepareReply::Io(Ok(_))
    }
}

/// Preparing an operation succeeds exactly where the slot holds neither a record nor
/// anything else, the path of the client's files was checked, the files were copied into a
/// directory that was made for it, the manifest of the copy was written and the copy
/// checked against it, the copy was put in its place, that directory was removed, and the
/// record was written: that of the operation, in its first state.
pub proof fn law_operation_is_prepared_by_copying_and_recording(
    job: PrepareJob,
    run: Seq<Taken<PrepareRecovery, PrepareReply, RecoveryRecord>>,
)
    requires
        step::is_taken_run(PrepareRecovery::leads(), PrepareRecovery::CheckingSlot { job }, run),
    ensures
        step::taken_result(run) is Ok <==> {
            let manifest = run[3].reply->Captured_0->Ok_0;
            &&& run.len() == 9
            &&& run[0].reply is Slot
            &&& !run[0].reply->Slot_0.record_exists
            &&& run[0].reply->Slot_0.entries == Ok::<Result<bool, String>, String>(Ok(false))
            &&& run[1].operation == (PrepareRecovery::CheckingActive { job })
            &&& run[1].reply is Checked
            &&& run[1].reply.is_done()
            &&& run[2].operation == (PrepareRecovery::CreatingStaging { job })
            &&& run[2].reply is Io
            &&& run[2].reply.is_done()
            &&& run[3].operation == (PrepareRecovery::Capturing { job })
            &&& run[3].reply is Captured
            &&& run[3].reply->Captured_0 is Ok
            &&& run[4].operation == (PrepareRecovery::WritingManifest { job, manifest })
            &&& run[4].reply is Checked
            &&& run[4].reply.is_done()
            &&& run[5].operation == (PrepareRecovery::CheckingFiles { job, manifest })
            &&& run[5].reply is Checked
            &&& run[5].reply.is_done()
            &&& run[6].operation == (PrepareRecovery::Publishing { job })
            &&& run[6].reply is Io
            &&& run[6].reply.is_done()
            &&& run[7].operation == (PrepareRecovery::RemovingStaging { job })
            &&& run[7].reply is Io
            &&& run[7].reply.is_done()
            &&& run[8].operation is WritingRecord
            &&& run[8].reply == PrepareReply::Written(WrittenDocument::Done)
        },
        step::taken_result(run) is Ok ==> {
            let record = step::taken_result(run)->Ok_0;
            &&& record == run[8].operation->WritingRecord_record
            &&& record.version == RECORD_VERSION
            &&& record.id == job.id
            &&& record.state == RecoveryState::Prepared
            &&& record.kind == job.kind
            &&& record.previous_client_was_running == job.previous_client_was_running
        },
        forall|i: int|
            3 <= i < run.len() - 1 && run[i + 1].operation is Discarding ==> {
                &&& run[i + 1].operation->Discarding_id == job.id
                &&& (#[trigger] run[i]).operation is Capturing || run[i].operation is WritingManifest
                    || run[i].operation is CheckingFiles || run[i].operation is Publishing
                    || run[i].operation is RemovingStaging || run[i].operation is WritingRecord
                &&& step::taken_result(run) is Err
            },
        forall|i: int|
            3 <= i <= 8 && i < run.len() && !(#[trigger] run[i]).reply.is_done() && (match run[i].reply {
                PrepareReply::Captured(captured) => run[i].operation is Capturing && captured is Err,
                PrepareReply::Checked(_) => run[i].operation is WritingManifest || run[i].operation
                    is CheckingFiles,
                PrepareReply::Io(_) => run[i].operation is Publishing || run[i].operation
                    is RemovingStaging,
                PrepareReply::Written(written) => run[i].operation is WritingRecord && !(written is Done),
                _ => false,
            }) ==> i + 1 < run.len() && run[i + 1].operation is Discarding,
        run.len() <= 12,
{
    let steps = PrepareRecovery::leads();
    assert(step::goes_on(steps, run, 0));
    if run.len() > 1 {
        assert(step::goes_on(steps, run, 1));
    }
    if run.len() > 2 {
        assert(step::goes_on(steps, run, 2));
    }
    if run.len() > 3 {
        assert(step::goes_on(steps, run, 3));
    }
    if run.len() > 4 {
        assert(step::goes_on(steps, run, 4));
    }
    if run.len() > 5 {
        assert(step::goes_on(steps, run, 5));
    }
    if run.len() > 6 {
        assert(step::goes_on(steps, run, 6));
    }
    if run.len() > 7 {
        assert(step::goes_on(steps, run, 7));
    }
    if run.len() > 8 {
        assert(step::goes_on(steps, run, 8));
    }
    if run.len() > 9 {
        assert(step::goes_on(steps, run, 9));
    }
    if run.len() > 10 {
        assert(step::goes_on(steps, run, 10));
    }
    if run.len() > 11 {
        assert(step::goes_on(steps, run, 11));
    }
}

} // verus!
