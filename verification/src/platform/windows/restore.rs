//! Switching the client's files to those of a saved account on Windows, as a
//! transaction: it is prepared in the recovery slot, applied, and then committed
//! or undone.

use vstd::prelude::*;

use crate::contracts::AccountKey;
use crate::error::AppError;
use crate::error::ErrorView;
use crate::ordered;
use crate::ordered::TextEntry;
use crate::ordered::TextMap;
use crate::outside;
use crate::platform::windows::paths;
use crate::platform::windows::recovery;
use crate::platform::windows::recovery::CommitOutcomeView;
use crate::platform::windows::recovery::RecoveryCommitOutcome;
use crate::platform::windows::recovery::RecoveryKind;
use crate::platform::windows::recovery::RecoveryRecord;
use crate::platform::windows::recovery::RecoveryState;
use crate::platform::windows::recovery::RecoveryStore;
use crate::platform::windows::snapshot;
use crate::platform::windows::snapshot::DocumentError;
use crate::platform::windows::snapshot::ManifestFile;
use crate::platform::windows::snapshot::ValidatedSnapshot;
use crate::step::Moment;
use crate::step::Taken;
use crate::step;
use crate::step::Step;
use crate::step::StepView;
use crate::text;

verus! {

/// The space that has to stay free on the disk of the client's files.
pub const MINIMUM_FREE_SPACE_RESERVE: u64 = 8388608;

pub const MEBIBYTE: u64 = 1048576;

/// Switches the client's files.
#[derive(Debug)]
pub struct RestoreEngine {
    active_directory: String,
    recovery: RecoveryStore,
}

/// A switch that was applied and is neither committed nor undone.
#[derive(Debug)]
pub struct RestoreReceipt {
    pub operation_id: String,
    pub previous_client_was_running: bool,
}

impl View for RestoreReceipt {
    type V = RestoreReceipt;

    open spec fn view(&self) -> RestoreReceipt {
        *self
    }
}

/// What a recovery did.
#[derive(Clone, Copy, Debug, PartialEq, Eq, Structural)]
pub enum RecoveryOutcome {
    Nothing,
    RolledBack,
    CleanedCompleted,
}

impl View for RecoveryOutcome {
    type V = RecoveryOutcome;

    open spec fn view(&self) -> RecoveryOutcome {
        *self
    }
}

/// What came of committing a switch or a login.
#[derive(Debug)]
pub enum CommitOutcome {
    Committed,
    CleanupPending(String),
}

impl View for CommitOutcome {
    type V = CommitOutcomeView;

    open spec fn view(&self) -> CommitOutcomeView {
        match *self {
            CommitOutcome::Committed => CommitOutcomeView::Committed,
            CommitOutcome::CleanupPending(error) => CommitOutcomeView::CleanupPending(error@),
        }
    }
}

/// The outcome of the slot as that of the operation.
pub fn commit_outcome(outcome: RecoveryCommitOutcome) -> (result: CommitOutcome)
    ensures
        result@ == outcome@,
{
    match outcome {
        RecoveryCommitOutcome::Committed => CommitOutcome::Committed,
        RecoveryCommitOutcome::CleanupPending(error) => CommitOutcome::CleanupPending(error),
    }
}

/// Whether a switch waits to be recovered; a record that cannot be read counts
/// as one.
pub open spec fn pending_switch(stored: Option<Result<RecoveryRecord, DocumentError>>) -> bool {
    match recovery::recorded(stored) {
        Ok(Some(record)) => record.kind is Switch,
        Ok(None) => false,
        Err(_) => true,
    }
}

/// The record of the switch in the slot, where it is one.
pub open spec fn recorded_switch(stored: Option<Result<RecoveryRecord, DocumentError>>) -> Result<
    Option<RecoveryRecord>,
    ErrorView,
> {
    match recovery::recorded(stored) {
        Ok(Some(record)) => if record.kind is Switch {
            Ok(Some(record))
        } else {
            Ok(None)
        },
        other => other,
    }
}

/// The record in the slot, which has to be that of the switch `id`.
pub open spec fn required_switch(
    id: Seq<char>,
    stored: Option<Result<RecoveryRecord, DocumentError>>,
) -> Result<RecoveryRecord, ErrorView> {
    match recovery::recorded(stored) {
        Err(error) => Err(error),
        Ok(None) => Err(ErrorView::Transaction("切换恢复记录不存在"@)),
        Ok(Some(record)) => if record.id@ != id || !(record.kind is Switch) {
            Err(ErrorView::Transaction("切换事务标识不匹配"@))
        } else {
            Ok(record)
        },
    }
}

/// The size of all files together.
pub open spec fn total_size(files: Seq<ManifestFile>) -> nat
    decreases files.len(),
{
    if files.len() == 0 {
        0
    } else {
        total_size(files.drop_last()) + files.last().size as nat
    }
}

/// The space that is needed to apply the files.
pub open spec fn required_space(files: Seq<ManifestFile>) -> nat {
    MINIMUM_FREE_SPACE_RESERVE as nat + total_size(files)
}

/// Why the files cannot be applied where `available` is free.
pub open spec fn space_error(
    available: Result<u64, String>,
    files: Seq<ManifestFile>,
) -> Option<ErrorView> {
    match available {
        Err(error) => Some(
            ErrorView::Transaction("无法读取战网配置盘可用空间："@ + error@),
        ),
        Ok(available) => if required_space(files) > u64::MAX {
            Some(ErrorView::Transaction("目标账号快照大小无效"@))
        } else if available < required_space(files) {
            Some(
                ErrorView::Transaction(
                    "战网配置盘可用空间不足，至少需要 "@ + text::decimal(
                        ((required_space(files) + MEBIBYTE - 1) / MEBIBYTE as int) as nat,
                    ) + " MiB"@,
                ),
            )
        } else {
            None
        },
    }
}

/// The sizes of the first files are no more than those of all.
proof fn lemma_total_size(files: Seq<ManifestFile>, count: int)
    requires
        0 <= count <= files.len(),
    ensures
        total_size(files.take(count)) <= total_size(files),
    decreases files.len(),
{
    if count == files.len() {
        assert(files.take(count) =~= files);
    } else {
        lemma_total_size(files.drop_last(), count);
        assert(files.drop_last().take(count) =~= files.take(count));
    }
}

/// Checks that there is space for the files.
pub fn ensure_available_space(available: Result<u64, String>, files: &Vec<ManifestFile>) -> (result:
    Result<(), AppError>)
    ensures
        match result {
            Ok(_) => space_error(available, files@) is None,
            Err(error) => space_error(available, files@) == Some(error@),
        },
{
    let free: u64 = match &available {
        Ok(free) => *free,
        Err(error) => {
            return Err(
                AppError::Transaction(
                    text::joined2("无法读取战网配置盘可用空间：", error.as_str()),
                ),
            );
        },
    };
    let mut required: u64 = MINIMUM_FREE_SPACE_RESERVE;
    let mut i: usize = 0;
    while i < files.len()
        invariant
            i <= files.len(),
            available == Ok::<u64, String>(free),
            required == required_space(files@.take(i as int)),
        decreases files.len() - i,
    {
        assert(files@.take(i + 1).drop_last() =~= files@.take(i as int));
        proof {
            lemma_total_size(files@, i + 1);
        }
        match required.checked_add(files[i].size) {
            Some(total) => {
                required = total;
            },
            None => {
                return Err(AppError::Transaction("目标账号快照大小无效".to_owned()));
            },
        }
        i = i + 1;
    }
    assert(files@.take(i as int) =~= files@);
    if free < required {
        let mebibytes: u64 = if required % MEBIBYTE == 0 {
            required / MEBIBYTE
        } else {
            required / MEBIBYTE + 1
        };
        assert(mebibytes == (required + MEBIBYTE - 1) / MEBIBYTE as int);
        let number = text::decimal_text(mebibytes);
        return Err(
            AppError::Transaction(
                text::joined3("战网配置盘可用空间不足，至少需要 ", number.as_str(), " MiB"),
            ),
        );
    }
    Ok(())
}

/// Whether the bytes are those of the expected file.
pub fn copied_as_expected(bytes: &Vec<u8>, expected: &ManifestFile) -> (yes: bool)
    ensures
        yes == (bytes.len() == expected.size && outside::sha256_hex(bytes@) == expected.sha256@),
{
    let (size, sha256) = snapshot::hash_bytes(bytes);
    size == expected.size && text::same_text(sha256.as_str(), expected.sha256.as_str())
}

/// What replaces the client's files, and from where.
#[derive(Debug)]
pub struct ReplaceJob {
    pub source_directory: String,
    pub files: Vec<ManifestFile>,
}

/// Replacing the client's files: each new file is put in place, files that are
/// not among the new ones are removed, and the result is checked.
#[derive(Debug)]
pub enum ReplaceFiles {
    /// The path of the client's files is to be checked.
    CheckingActive { job: ReplaceJob },
    /// The new files are to be checked.
    CheckingSource { job: ReplaceJob },
    /// The client's files are to be listed.
    Listing { job: ReplaceJob },
    /// The file `job.files[index]` is to be put in place.
    Replacing { job: ReplaceJob, stale: Vec<String>, index: usize },
    /// The file `stale[index]` is to be removed.
    Removing { job: ReplaceJob, stale: Vec<String>, index: usize },
    /// The client's files are to be checked against the new ones.
    CheckingResult { job: ReplaceJob },
}

/// What came of the work for [`ReplaceFiles`].
#[derive(Debug)]
pub enum ReplaceReply {
    Checked(Result<(), AppError>),
    Listed(Result<TextMap, AppError>),
    Io(Result<(), String>),
}

/// The names that are not among the files, in order.
pub open spec fn stale_names(entries: Seq<TextEntry>, files: Seq<ManifestFile>) -> Seq<String>
    decreases entries.len(),
{
    if entries.len() == 0 {
        Seq::empty()
    } else {
        let rest = stale_names(entries.drop_last(), files);
        if snapshot::expects(files, entries.last().key@) {
            rest
        } else {
            rest.push(entries.last().key)
        }
    }
}

fn stale_files(current: &TextMap, files: &Vec<ManifestFile>) -> (stale: Vec<String>)
    ensures
        exists|entries: Seq<TextEntry>|
            ordered::ascending(entries) && ordered::map_of(entries) == current@ && stale@
                == #[trigger] stale_names(entries, files@),
{
    let entries = current.entries();
    let mut stale: Vec<String> = Vec::new();
    let mut i: usize = 0;
    while i < entries.len()
        invariant
            i <= entries.len(),
            stale@ == stale_names(entries@.take(i as int), files@),
        decreases entries.len() - i,
    {
        assert(entries@.take(i + 1).drop_last() =~= entries@.take(i as int));
        if !snapshot::is_expected(files, entries[i].key.as_str()) {
            stale.push(entries[i].key.clone());
        }
        i = i + 1;
    }
    assert(entries@.take(i as int) =~= entries@);
    assert(stale@ == stale_names(entries@, files@));
    stale
}

/// The operation that puts the file at `index` in place, or goes on once all are.
pub open spec fn replacing_from(job: ReplaceJob, stale: Vec<String>, index: int) -> ReplaceFiles {
    if index < job.files.len() {
        ReplaceFiles::Replacing { job, stale, index: index as usize }
    } else {
        removing_from(job, stale, 0)
    }
}

/// The operation that removes the file at `index`, or goes on once all are.
pub open spec fn removing_from(job: ReplaceJob, stale: Vec<String>, index: int) -> ReplaceFiles {
    if index < stale.len() {
        ReplaceFiles::Removing { job, stale, index: index as usize }
    } else {
        ReplaceFiles::CheckingResult { job }
    }
}

/// Whether the operation goes on by replacing from the first file, with the
/// names of the current files that are not among the new ones.
pub open spec fn starts_replacing(
    operation: ReplaceFiles,
    job: ReplaceJob,
    current: Map<Seq<char>, Seq<char>>,
) -> bool {
    exists|stale: Vec<String>, entries: Seq<TextEntry>|
        ordered::ascending(entries) && ordered::map_of(entries) == current && stale@
            == #[trigger] stale_names(entries, job.files@) && operation
            == #[trigger] replacing_from(job, stale, 0)
}

fn replace_from(job: ReplaceJob, stale: Vec<String>, index: usize) -> (operation: ReplaceFiles)
    ensures
        operation == replacing_from(job, stale, index as int),
{
    if index < job.files.len() {
        ReplaceFiles::Replacing { job, stale, index }
    } else {
        remove_from(job, stale, 0)
    }
}

fn remove_from(job: ReplaceJob, stale: Vec<String>, index: usize) -> (operation: ReplaceFiles)
    ensures
        operation == removing_from(job, stale, index as int),
{
    if index < stale.len() {
        ReplaceFiles::Removing { job, stale, index }
    } else {
        ReplaceFiles::CheckingResult { job }
    }
}

impl ReplaceFiles {
    /// Whether the operation points at a file that there is.
    pub open spec fn valid(self) -> bool {
        match self {
            ReplaceFiles::Replacing { job, stale, index } => index < job.files.len(),
            ReplaceFiles::Removing { job, stale, index } => index < stale.len(),
            _ => true,
        }
    }

    /// Whether the step is the one that the answer leads to.
    pub open spec fn leads_to(self, reply: ReplaceReply, step: Step<ReplaceFiles, ()>) -> bool {
        match (self, reply) {
            (ReplaceFiles::CheckingActive { job }, ReplaceReply::Checked(checked)) => match checked {
                Err(error) => step@ == step::failing::<ReplaceFiles, ()>(error@),
                Ok(_) => step@ == step::going::<ReplaceFiles, ()>(
                    ReplaceFiles::CheckingSource { job },
                ),
            },
            (ReplaceFiles::CheckingSource { job }, ReplaceReply::Checked(checked)) => match checked {
                Err(error) => step@ == step::failing::<ReplaceFiles, ()>(error@),
                Ok(_) => step@ == step::going::<ReplaceFiles, ()>(ReplaceFiles::Listing { job }),
            },
            (ReplaceFiles::Listing { job }, ReplaceReply::Listed(listed)) => match listed {
                Err(error) => step@ == step::failing::<ReplaceFiles, ()>(error@),
                Ok(current) => {
                    &&& step matches Step::Perform { operation, report }
                    &&& report is None
                    &&& starts_replacing(operation, job, current@)
                },
            },
            (ReplaceFiles::Replacing { job, stale, index }, ReplaceReply::Io(done)) => match done {
                Err(error) => step@ == step::failing::<ReplaceFiles, ()>(
                    ErrorView::Transaction(
                        "无法原子替换配置文件 "@ + job.files@[index as int].name@ + "："@ + error@,
                    ),
                ),
                Ok(_) => step@ == step::going::<ReplaceFiles, ()>(
                    replacing_from(job, stale, index + 1),
                ),
            },
            (ReplaceFiles::Removing { job, stale, index }, ReplaceReply::Io(done)) => match done {
                Err(error) => step@ == step::failing::<ReplaceFiles, ()>(
                    ErrorView::Transaction(
                        "无法移除旧的战网配置文件 "@ + stale@[index as int]@ + "："@ + error@,
                    ),
                ),
                Ok(_) => step@ == step::going::<ReplaceFiles, ()>(
                    removing_from(job, stale, index + 1),
                ),
            },
            (ReplaceFiles::CheckingResult { job }, ReplaceReply::Checked(checked)) => match checked {
                Err(error) => step@ == step::failing::<ReplaceFiles, ()>(error@),
                Ok(_) => step@ == step::ending::<ReplaceFiles, ()>(()),
            },
            _ => step@ == step::confused::<ReplaceFiles, ()>(),
        }
    }

    /// Takes the answer.
    pub fn resume(self, reply: ReplaceReply) -> (step: Step<ReplaceFiles, ()>)
        requires
            self.valid(),
        ensures
            self.leads_to(reply, step),
            step matches Step::Perform { operation, .. } ==> operation.valid(),
    {
        match (self, reply) {
            (ReplaceFiles::CheckingActive { job }, ReplaceReply::Checked(checked)) => match checked {
                Err(error) => step::fail(error),
                Ok(_) => step::go(ReplaceFiles::CheckingSource { job }),
            },
            (ReplaceFiles::CheckingSource { job }, ReplaceReply::Checked(checked)) => match checked {
                Err(error) => step::fail(error),
                Ok(_) => step::go(ReplaceFiles::Listing { job }),
            },
            (ReplaceFiles::Listing { job }, ReplaceReply::Listed(listed)) => match listed {
                Err(error) => step::fail(error),
                Ok(current) => {
                    let stale = stale_files(&current, &job.files);
                    let operation = replace_from(job, stale, 0);
                    assert(starts_replacing(operation, job, current@));
                    step::go(operation)
                },
            },
            (ReplaceFiles::Replacing { job, stale, index }, ReplaceReply::Io(done)) => match done {
                Err(error) => step::fail(
                    AppError::Transaction(
                        text::joined4(
                            "无法原子替换配置文件 ",
                            job.files[index].name.as_str(),
                            "：",
                            error.as_str(),
                        ),
                    ),
                ),
                Ok(_) => step::go(replace_from(job, stale, index + 1)),
            },
            (ReplaceFiles::Removing { job, stale, index }, ReplaceReply::Io(done)) => match done {
                Err(error) => step::fail(
                    AppError::Transaction(
                        text::joined4(
                            "无法移除旧的战网配置文件 ",
                            stale[index].as_str(),
                            "：",
                            error.as_str(),
                        ),
                    ),
                ),
                Ok(_) => step::go(remove_from(job, stale, index + 1)),
            },
            (ReplaceFiles::CheckingResult { job: _ }, ReplaceReply::Checked(checked)) =>
                match checked {
                    Err(error) => step::fail(error),
                    Ok(_) => step::end(()),
                },
            _ => step::give_up(),
        }
    }
}

/// The files that are removed are those that were there and are not among the
/// new ones: what is then left are exactly the new files.
pub proof fn law_replacement_leaves_the_new_names(
    entries: Seq<TextEntry>,
    files: Seq<ManifestFile>,
    name: Seq<char>,
)
    ensures
        paths_contain(stale_names(entries, files), name) <==> (exists|i: int|
            ordered::entry_at(entries, i, name)) && !snapshot::expects(files, name),
        ((exists|i: int| ordered::entry_at(entries, i, name)) || snapshot::expects(files, name))
            && !paths_contain(stale_names(entries, files), name) <==> snapshot::expects(
            files,
            name,
        ),
    decreases entries.len(),
{
    if entries.len() > 0 {
        let front = entries.drop_last();
        law_replacement_leaves_the_new_names(front, files, name);
        let rest = stale_names(front, files);
        let all = stale_names(entries, files);
        if exists|i: int| ordered::entry_at(front, i, name) {
            let i = choose|i: int| ordered::entry_at(front, i, name);
            assert(ordered::entry_at(entries, i, name));
        }
        if entries.last().key@ == name {
            assert(ordered::entry_at(entries, entries.len() - 1, name));
        }
        if exists|i: int| ordered::entry_at(entries, i, name) {
            let i = choose|i: int| ordered::entry_at(entries, i, name);
            if i < entries.len() - 1 {
                assert(ordered::entry_at(front, i, name));
            }
        }
        if paths_contain(rest, name) {
            let i = choose|i: int| 0 <= i < rest.len() && (#[trigger] rest[i])@ == name;
            assert(all[i]@ == name);
        }
        if !snapshot::expects(files, entries.last().key@) {
            assert(all[rest.len() as int] == entries.last().key);
        }
        if paths_contain(all, name) {
            let i = choose|i: int| 0 <= i < all.len() && (#[trigger] all[i])@ == name;
            if i < rest.len() {
                assert(rest[i]@ == name);
            }
        }
    }
}

/// Whether the name is in the list.
pub open spec fn paths_contain(names: Seq<String>, name: Seq<char>) -> bool {
    exists|i: int| 0 <= i < names.len() && (#[trigger] names[i])@ == name
}

/// What is switched to, and from what.
#[derive(Debug)]
pub struct ApplyJob {
    pub target: ValidatedSnapshot,
    pub previous_account: Option<AccountKey>,
    pub previous_client_was_running: bool,
}

/// Applying a saved account: the slot has to be empty and the target in order;
/// the switch is prepared, the client has to be stopped, and the files are
/// replaced. Where the client is running the preparation is given up; where
/// replacing fails the switch is undone.
#[derive(Debug)]
pub enum ApplySnapshot {
    /// The slot is to be read.
    CheckingSlot { job: ApplyJob },
    /// It is to be found out whether the client's files are there.
    CheckingActive { job: ApplyJob },
    /// The target's files are to be checked.
    CheckingTarget { job: ApplyJob },
    /// The path of the client's files is to be checked.
    CheckingPath { job: ApplyJob },
    /// The free space is to be found out.
    CheckingSpace { job: ApplyJob },
    /// The switch is to be prepared in the slot.
    Preparing { job: ApplyJob },
    /// It is to be made sure that the client is stopped.
    ConfirmingStopped { job: ApplyJob, id: String },
    /// The prepared switch is to be given up, for this reason.
    Discarding { id: String, error: AppError },
    /// The client's files are to be replaced by those of the target.
    Replacing { job: ApplyJob, id: String },
    /// The switch is to be undone, for this reason.
    RollingBack { id: String, error: AppError },
}

/// What came of the work for an operation of the engine.
#[derive(Debug)]
pub enum RestoreReply {
    Slot(Option<Result<RecoveryRecord, DocumentError>>),
    Flag(bool),
    Space(Result<u64, String>),
    Prepared(Result<RecoveryRecord, AppError>),
    Committed(Result<RecoveryCommitOutcome, AppError>),
    Done(Result<(), AppError>),
}

/// The record kind of the switch that a job makes.
pub open spec fn switch_kind(job: ApplyJob) -> RecoveryKind {
    RecoveryKind::Switch {
        target_account: job.target.account,
        previous_account: job.previous_account,
    }
}

impl ApplyJob {
    /// The record kind of the switch.
    pub fn kind(&self) -> (kind: RecoveryKind)
        ensures
            kind == switch_kind(*self),
    {
        RecoveryKind::Switch {
            target_account: self.target.account.clone(),
            previous_account: match &self.previous_account {
                Some(account) => Some(account.clone()),
                None => None,
            },
        }
    }
}

/// The error after a failed replacement was undone, or could not be.
pub open spec fn apply_failure(error: AppError, rollback: Result<(), AppError>) -> ErrorView {
    match rollback {
        Ok(_) => ErrorView::Transaction("应用目标账号失败，已恢复原配置："@ + error@.nested()),
        Err(rollback) => ErrorView::Transaction(
            "应用目标账号失败且自动恢复未完成："@ + error@.nested() + "；"@ + rollback@.nested(),
        ),
    }
}

impl ApplySnapshot {
    /// What the answer leads to.
    pub open spec fn next(self, reply: RestoreReply) -> StepView<ApplySnapshot, RestoreReceipt> {
        match (self, reply) {
            (ApplySnapshot::CheckingSlot { job }, RestoreReply::Slot(stored)) =>
                match recovery::recorded(stored) {
                    Err(error) => step::failing(error),
                    Ok(Some(_)) => step::failing(
                        ErrorView::Transaction("检测到未完成的账号操作，请先恢复后再试"@),
                    ),
                    Ok(None) => step::going(ApplySnapshot::CheckingActive { job }),
                },
            (ApplySnapshot::CheckingActive { job }, RestoreReply::Flag(present)) => if present {
                step::going(ApplySnapshot::CheckingTarget { job })
            } else {
                step::failing(
                    ErrorView::Transaction("未找到 Battle.net 配置目录，请先登录一次战网客户端"@),
                )
            },
            (ApplySnapshot::CheckingTarget { job }, RestoreReply::Done(done)) => match done {
                Err(error) => step::failing(error@),
                Ok(_) => step::going(ApplySnapshot::CheckingPath { job }),
            },
            (ApplySnapshot::CheckingPath { job }, RestoreReply::Done(done)) => match done {
                Err(error) => step::failing(error@),
                Ok(_) => step::going(ApplySnapshot::CheckingSpace { job }),
            },
            (ApplySnapshot::CheckingSpace { job }, RestoreReply::Space(available)) =>
                match space_error(available, job.target.files@) {
                    Some(error) => step::failing(error),
                    None => step::going(ApplySnapshot::Preparing { job }),
                },
            (ApplySnapshot::Preparing { job }, RestoreReply::Prepared(prepared)) => match prepared {
                Err(error) => step::failing(error@),
                Ok(record) => step::going(ApplySnapshot::ConfirmingStopped { job, id: record.id }),
            },
            (ApplySnapshot::ConfirmingStopped { job, id }, RestoreReply::Done(done)) => match done {
                Err(error) => step::going(ApplySnapshot::Discarding { id, error }),
                Ok(_) => step::going(ApplySnapshot::Replacing { job, id }),
            },
            (ApplySnapshot::Discarding { id, error }, RestoreReply::Done(_)) => step::failing(
                error@,
            ),
            (ApplySnapshot::Replacing { job, id }, RestoreReply::Done(done)) => match done {
                Err(error) => step::going(ApplySnapshot::RollingBack { id, error }),
                Ok(_) => step::ending(
                    RestoreReceipt {
                        operation_id: id,
                        previous_client_was_running: job.previous_client_was_running,
                    },
                ),
            },
            (ApplySnapshot::RollingBack { id, error }, RestoreReply::Done(done)) => step::failing(
                apply_failure(error, done),
            ),
            _ => step::confused(),
        }
    }

    /// Takes the answer.
    pub fn resume(self, reply: RestoreReply) -> (step: Step<ApplySnapshot, RestoreReceipt>)
        ensures
            step@ == self.next(reply),
    {
        match (self, reply) {
            (ApplySnapshot::CheckingSlot { job }, RestoreReply::Slot(stored)) =>
                match RecoveryStore::record(stored) {
                    Err(error) => step::fail(error),
                    Ok(Some(_)) => step::fail(
                        AppError::Transaction("检测到未完成的账号操作，请先恢复后再试".to_owned()),
                    ),
                    Ok(None) => step::go(ApplySnapshot::CheckingActive { job }),
                },
            (ApplySnapshot::CheckingActive { job }, RestoreReply::Flag(present)) => if present {
                step::go(ApplySnapshot::CheckingTarget { job })
            } else {
                step::fail(
                    AppError::Transaction(
                        "未找到 Battle.net 配置目录，请先登录一次战网客户端".to_owned(),
                    ),
                )
            },
            (ApplySnapshot::CheckingTarget { job }, RestoreReply::Done(done)) => match done {
                Err(error) => step::fail(error),
                Ok(_) => step::go(ApplySnapshot::CheckingPath { job }),
            },
            (ApplySnapshot::CheckingPath { job }, RestoreReply::Done(done)) => match done {
                Err(error) => step::fail(error),
                Ok(_) => step::go(ApplySnapshot::CheckingSpace { job }),
            },
            (ApplySnapshot::CheckingSpace { job }, RestoreReply::Space(available)) =>
                match ensure_available_space(available, &job.target.files) {
                    Err(error) => step::fail(error),
                    Ok(_) => step::go(ApplySnapshot::Preparing { job }),
                },
            (ApplySnapshot::Preparing { job }, RestoreReply::Prepared(prepared)) => match prepared {
                Err(error) => step::fail(error),
                Ok(record) => step::go(ApplySnapshot::ConfirmingStopped { job, id: record.id }),
            },
            (ApplySnapshot::ConfirmingStopped { job, id }, RestoreReply::Done(done)) => match done {
                Err(error) => step::go(ApplySnapshot::Discarding { id, error }),
                Ok(_) => step::go(ApplySnapshot::Replacing { job, id }),
            },
            (ApplySnapshot::Discarding { id: _, error }, RestoreReply::Done(_)) => step::fail(
                error,
            ),
            (ApplySnapshot::Replacing { job, id }, RestoreReply::Done(done)) => match done {
                Err(error) => step::go(ApplySnapshot::RollingBack { id, error }),
                Ok(_) => step::end(
                    RestoreReceipt {
                        operation_id: id,
                        previous_client_was_running: job.previous_client_was_running,
                    },
                ),
            },
            (ApplySnapshot::RollingBack { id: _, error }, RestoreReply::Done(done)) => {
                let nested = error.nested_message();
                match done {
                    Ok(_) => step::fail(
                        AppError::Transaction(
                            text::joined2("应用目标账号失败，已恢复原配置：", nested.as_str()),
                        ),
                    ),
                    Err(rollback) => step::fail(
                        AppError::Transaction(
                            text::joined4(
                                "应用目标账号失败且自动恢复未完成：",
                                nested.as_str(),
                                "；",
                                rollback.nested_message().as_str(),
                            ),
                        ),
                    ),
                }
            },
            _ => step::give_up(),
        }
    }
}

/// Committing a switch: its record has to be prepared.
#[derive(Debug)]
pub enum CommitSwitch {
    /// The slot is to be read.
    CheckingSlot { id: String },
    /// The operation in the slot is to be committed.
    Committing { id: String },
}

impl CommitSwitch {
    /// What the answer leads to.
    pub open spec fn next(self, reply: RestoreReply) -> StepView<CommitSwitch, CommitOutcomeView> {
        match (self, reply) {
            (CommitSwitch::CheckingSlot { id }, RestoreReply::Slot(stored)) => match required_switch(
                id@,
                stored,
            ) {
                Err(error) => step::failing(error),
                Ok(record) => if record.state == RecoveryState::Prepared {
                    step::going(CommitSwitch::Committing { id: record.id })
                } else {
                    step::failing(ErrorView::Transaction("当前事务不能提交"@))
                },
            },
            (CommitSwitch::Committing { id }, RestoreReply::Committed(outcome)) => match outcome {
                Err(error) => step::failing(error@),
                Ok(outcome) => step::ending(outcome@),
            },
            _ => step::confused(),
        }
    }

    /// Takes the answer.
    pub fn resume(self, reply: RestoreReply) -> (step: Step<CommitSwitch, CommitOutcome>)
        ensures
            step@ == self.next(reply),
    {
        match (self, reply) {
            (CommitSwitch::CheckingSlot { id }, RestoreReply::Slot(stored)) => match RestoreEngine::require_switch(
                id.as_str(),
                stored,
            ) {
                Err(error) => step::fail(error),
                Ok(record) => if record.state == RecoveryState::Prepared {
                    step::go(CommitSwitch::Committing { id: record.id })
                } else {
                    step::fail(AppError::Transaction("当前事务不能提交".to_owned()))
                },
            },
            (CommitSwitch::Committing { id: _ }, RestoreReply::Committed(outcome)) => match outcome {
                Err(error) => step::fail(error),
                Ok(outcome) => step::end(commit_outcome(outcome)),
            },
            _ => step::give_up(),
        }
    }
}

/// Undoing a switch: the slot has to hold it.
#[derive(Debug)]
pub enum RollbackSwitch {
    /// The slot is to be read.
    CheckingSlot { id: String },
    /// The operation in the slot is to be undone.
    RollingBack { id: String },
}

impl RollbackSwitch {
    /// What the answer leads to.
    pub open spec fn next(self, reply: RestoreReply) -> StepView<RollbackSwitch, ()> {
        match (self, reply) {
            (RollbackSwitch::CheckingSlot { id }, RestoreReply::Slot(stored)) =>
                match required_switch(id@, stored) {
                    Err(error) => step::failing(error),
                    Ok(record) => step::going(RollbackSwitch::RollingBack { id: record.id }),
                },
            (RollbackSwitch::RollingBack { id }, RestoreReply::Done(done)) => match done {
                Err(error) => step::failing(error@),
                Ok(_) => step::ending(()),
            },
            _ => step::confused(),
        }
    }

    /// Takes the answer.
    pub fn resume(self, reply: RestoreReply) -> (step: Step<RollbackSwitch, ()>)
        ensures
            step@ == self.next(reply),
    {
        match (self, reply) {
            (RollbackSwitch::CheckingSlot { id }, RestoreReply::Slot(stored)) =>
                match RestoreEngine::require_switch(id.as_str(), stored) {
                    Err(error) => step::fail(error),
                    Ok(record) => step::go(RollbackSwitch::RollingBack { id: record.id }),
                },
            (RollbackSwitch::RollingBack { id: _ }, RestoreReply::Done(done)) => match done {
                Err(error) => step::fail(error),
                Ok(_) => step::end(()),
            },
            _ => step::give_up(),
        }
    }
}

/// Recovering a switch that was interrupted: a prepared one is undone, of a
/// committed one the rest is removed.
#[derive(Debug)]
pub enum RecoverSwitch {
    /// The slot is to be read.
    CheckingSlot,
    /// The switch is to be undone.
    RollingBack { id: String },
    /// The slot of the committed switch is to be emptied.
    Cleaning { id: String },
}

impl RecoverSwitch {
    /// What the answer leads to.
    pub open spec fn next(self, reply: RestoreReply) -> StepView<RecoverSwitch, RecoveryOutcome> {
        match (self, reply) {
            (RecoverSwitch::CheckingSlot, RestoreReply::Slot(stored)) => match recorded_switch(
                stored,
            ) {
                Err(error) => step::failing(error),
                Ok(None) => step::ending(RecoveryOutcome::Nothing),
                Ok(Some(record)) => match record.state {
                    RecoveryState::Prepared => step::going(
                        RecoverSwitch::RollingBack { id: record.id },
                    ),
                    RecoveryState::Committed => step::going(
                        RecoverSwitch::Cleaning { id: record.id },
                    ),
                    RecoveryState::AwaitingUser => step::failing(
                        ErrorView::Transaction("恢复记录属于未完成登录流程，请先完成或取消登录"@),
                    ),
                },
            },
            (RecoverSwitch::RollingBack { id }, RestoreReply::Done(done)) => match done {
                Err(error) => step::failing(error@),
                Ok(_) => step::ending(RecoveryOutcome::RolledBack),
            },
            (RecoverSwitch::Cleaning { id }, RestoreReply::Done(done)) => match done {
                Err(error) => step::failing(error@),
                Ok(_) => step::ending(RecoveryOutcome::CleanedCompleted),
            },
            _ => step::confused(),
        }
    }

    /// Takes the answer.
    pub fn resume(self, reply: RestoreReply) -> (step: Step<RecoverSwitch, RecoveryOutcome>)
        ensures
            step@ == self.next(reply),
    {
        match (self, reply) {
            (RecoverSwitch::CheckingSlot, RestoreReply::Slot(stored)) => match RestoreEngine::switch_record(
                stored,
            ) {
                Err(error) => step::fail(error),
                Ok(None) => step::end(RecoveryOutcome::Nothing),
                Ok(Some(record)) => match record.state {
                    RecoveryState::Prepared => step::go(
                        RecoverSwitch::RollingBack { id: record.id },
                    ),
                    RecoveryState::Committed => step::go(RecoverSwitch::Cleaning { id: record.id }),
                    RecoveryState::AwaitingUser => step::fail(
                        AppError::Transaction(
                            "恢复记录属于未完成登录流程，请先完成或取消登录".to_owned(),
                        ),
                    ),
                },
            },
            (RecoverSwitch::RollingBack { id: _ }, RestoreReply::Done(done)) => match done {
                Err(error) => step::fail(error),
                Ok(_) => step::end(RecoveryOutcome::RolledBack),
            },
            (RecoverSwitch::Cleaning { id: _ }, RestoreReply::Done(done)) => match done {
                Err(error) => step::fail(error),
                Ok(_) => step::end(RecoveryOutcome::CleanedCompleted),
            },
            _ => step::give_up(),
        }
    }
}

impl RestoreEngine {
    /// The directory of the client's files.
    pub closed spec fn active(self) -> Seq<char> {
        self.active_directory@
    }

    /// The engine for the client's files in the given directory.
    pub fn new(data_directory: &str, active_directory: &str) -> (engine: RestoreEngine)
        ensures
            engine.active() == active_directory@,
            engine.slot().root() == paths::adjoined(data_directory@, "recovery"@),
    {
        RestoreEngine {
            active_directory: active_directory.to_owned(),
            recovery: RecoveryStore::new(data_directory),
        }
    }

    /// The recovery slot.
    pub closed spec fn slot(self) -> RecoveryStore {
        self.recovery
    }

    /// The recovery slot.
    pub fn recovery(&self) -> (slot: &RecoveryStore)
        ensures
            *slot == self.slot(),
    {
        &self.recovery
    }

    /// The directory of the client's files.
    pub fn active_directory(&self) -> (directory: &str)
        ensures
            directory@ == self.active(),
    {
        self.active_directory.as_str()
    }

    /// Whether a switch waits to be recovered; a record that cannot be read counts
    /// as one.
    pub fn has_pending_operation(stored: Option<Result<RecoveryRecord, DocumentError>>) -> (pending:
        bool)
        ensures
            pending == pending_switch(stored),
    {
        match RecoveryStore::record(stored) {
            Ok(Some(record)) => match record.kind {
                RecoveryKind::Switch { .. } => true,
                RecoveryKind::Login { .. } => false,
            },
            Ok(None) => false,
            Err(_) => true,
        }
    }

    /// The record of the switch in the slot, where it is one.
    pub fn switch_record(stored: Option<Result<RecoveryRecord, DocumentError>>) -> (record: Result<
        Option<RecoveryRecord>,
        AppError,
    >)
        ensures
            recovery::is_result(record, recorded_switch(stored)),
    {
        match RecoveryStore::record(stored) {
            Ok(Some(record)) => {
                let switch = match &record.kind {
                    RecoveryKind::Switch { .. } => true,
                    RecoveryKind::Login { .. } => false,
                };
                if switch {
                    Ok(Some(record))
                } else {
                    Ok(None)
                }
            },
            Ok(None) => Ok(None),
            Err(error) => Err(error),
        }
    }

    /// Whether the client has to be started again after the recovery of a switch.
    pub fn pending_client_restart_required(
        stored: Option<Result<RecoveryRecord, DocumentError>>,
    ) -> (required: Result<bool, AppError>)
        ensures
            recovery::is_result(
                required,
                match recorded_switch(stored) {
                    Ok(Some(record)) => Ok(record.previous_client_was_running),
                    Ok(None) => Ok(false),
                    Err(error) => Err(error),
                },
            ),
    {
        match RestoreEngine::switch_record(stored) {
            Ok(Some(record)) => Ok(record.previous_client_was_running),
            Ok(None) => Ok(false),
            Err(error) => Err(error),
        }
    }

    /// Whether the recovery of a switch changes the client's files.
    pub fn pending_recovery_requires_active_write(
        stored: Option<Result<RecoveryRecord, DocumentError>>,
    ) -> (required: Result<bool, AppError>)
        ensures
            recovery::is_result(
                required,
                match recorded_switch(stored) {
                    Ok(Some(record)) => Ok(record.state == RecoveryState::Prepared),
                    Ok(None) => Ok(false),
                    Err(error) => Err(error),
                },
            ),
    {
        match RestoreEngine::switch_record(stored) {
            Ok(Some(record)) => Ok(record.state == RecoveryState::Prepared),
            Ok(None) => Ok(false),
            Err(error) => Err(error),
        }
    }

    /// The record in the slot, which has to be that of the switch `id`.
    pub fn require_switch(
        id: &str,
        stored: Option<Result<RecoveryRecord, DocumentError>>,
    ) -> (record: Result<RecoveryRecord, AppError>)
        ensures
            recovery::is_result(record, required_switch(id@, stored)),
    {
        let record = match RecoveryStore::record(stored) {
            Ok(Some(record)) => record,
            Ok(None) => {
                return Err(AppError::Transaction("切换恢复记录不存在".to_owned()));
            },
            Err(error) => {
                return Err(error);
            },
        };
        let switch = match &record.kind {
            RecoveryKind::Switch { .. } => true,
            RecoveryKind::Login { .. } => false,
        };
        if !text::same_text(record.id.as_str(), id) || !switch {
            return Err(AppError::Transaction("切换事务标识不匹配".to_owned()));
        }
        Ok(record)
    }

    /// Begins to replace the client's files.
    pub fn replace_active_file_set(source_directory: String, files: Vec<ManifestFile>) -> (operation:
        ReplaceFiles)
        ensures
            operation == (ReplaceFiles::CheckingActive {
                job: ReplaceJob { source_directory, files },
            }),
    {
        ReplaceFiles::CheckingActive { job: ReplaceJob { source_directory, files } }
    }

    /// Begins to apply a saved account.
    pub fn apply_snapshot(
        target: ValidatedSnapshot,
        previous_account: Option<AccountKey>,
        previous_client_was_running: bool,
    ) -> (operation: ApplySnapshot)
        ensures
            operation == (ApplySnapshot::CheckingSlot {
                job: ApplyJob { target, previous_account, previous_client_was_running },
            }),
    {
        ApplySnapshot::CheckingSlot {
            job: ApplyJob { target, previous_account, previous_client_was_running },
        }
    }

    /// Begins to commit a switch.
    pub fn commit(receipt: &RestoreReceipt) -> (operation: CommitSwitch)
        ensures
            operation == (CommitSwitch::CheckingSlot { id: receipt.operation_id }),
    {
        CommitSwitch::CheckingSlot { id: receipt.operation_id.clone() }
    }

    /// Begins to undo a switch.
    pub fn rollback(receipt: &RestoreReceipt) -> (operation: RollbackSwitch)
        ensures
            operation == (RollbackSwitch::CheckingSlot { id: receipt.operation_id }),
    {
        RollbackSwitch::CheckingSlot { id: receipt.operation_id.clone() }
    }

    /// Begins to recover a switch that was interrupted.
    pub fn recover_pending() -> (operation: RecoverSwitch)
        ensures
            operation == RecoverSwitch::CheckingSlot,
    {
        RecoverSwitch::CheckingSlot
    }
}

impl RestoreReply {
    /// Whether the work was done.
    pub open spec fn is_done(self) -> bool {
        self matches RestoreReply::Done(Ok(_))
    }

    /// Why the work was not done.
    pub open spec fn failure(self) -> Option<ErrorView> {
        match self {
            RestoreReply::Done(Err(error)) => Some(error@),
            RestoreReply::Prepared(Err(error)) => Some(error@),
            RestoreReply::Committed(Err(error)) => Some(error@),
            _ => None,
        }
    }
}

impl ApplySnapshot {
    /// How the operation goes on.
    pub open spec fn steps() -> spec_fn(ApplySnapshot, RestoreReply) -> StepView<
        ApplySnapshot,
        RestoreReceipt,
    > {
        |operation: ApplySnapshot, reply: RestoreReply| operation.next(reply)
    }
}

/// Applying a saved account succeeds exactly where the slot was empty, the client's files
/// are there, those of the target and the path of the client's files were in order, the
/// free space is enough for the target's files, the switch was prepared, the client was
/// confirmed to be stopped, and the files were replaced. The receipt names the prepared
/// operation and whether the client was running before. Where the client is not stopped
/// the prepared operation is given up, and where replacing fails it is undone; both end in
/// an error.
pub proof fn law_saved_account_is_applied_after_all_checks(
    job: ApplyJob,
    run: Seq<Moment<ApplySnapshot, RestoreReply>>,
)
    requires
        step::is_run(ApplySnapshot::steps(), ApplySnapshot::CheckingSlot { job }, run),
    ensures
        step::result_of(ApplySnapshot::steps(), run) is Ok <==> {
            let id = run[5].reply->Prepared_0->Ok_0.id;
            &&& run.len() == 8
            &&& run[0].reply == RestoreReply::Slot(None)
            &&& run[1].operation == (ApplySnapshot::CheckingActive { job })
            &&& run[1].reply == RestoreReply::Flag(true)
            &&& run[2].operation == (ApplySnapshot::CheckingTarget { job })
            &&& run[2].reply.is_done()
            &&& run[3].operation == (ApplySnapshot::CheckingPath { job })
            &&& run[3].reply.is_done()
            &&& run[4].operation == (ApplySnapshot::CheckingSpace { job })
            &&& run[4].reply is Space
            &&& run[4].reply->Space_0 is Ok
            &&& required_space(job.target.files@) <= run[4].reply->Space_0->Ok_0
            &&& run[5].operation == (ApplySnapshot::Preparing { job })
            &&& run[5].reply is Prepared
            &&& run[5].reply->Prepared_0 is Ok
            &&& run[6].operation == (ApplySnapshot::ConfirmingStopped { job, id })
            &&& run[6].reply.is_done()
            &&& run[7].operation == (ApplySnapshot::Replacing { job, id })
            &&& run[7].reply.is_done()
        },
        step::result_of(ApplySnapshot::steps(), run) is Ok ==> {
            let id = run[5].reply->Prepared_0->Ok_0.id;
            step::result_of(ApplySnapshot::steps(), run) == Ok::<RestoreReceipt, ErrorView>(RestoreReceipt {
                operation_id: id,
                previous_client_was_running: job.previous_client_was_running,
            })
        },
        run.len() > 6 && run[6].reply.failure() is Some && run[6].reply is Done ==> {
            &&& run.len() == 8
            &&& run[7].operation is Discarding
            &&& run[7].operation->Discarding_id == run[5].reply->Prepared_0->Ok_0.id
            &&& run[7].reply is Done ==> step::result_of(ApplySnapshot::steps(), run) == Err::<RestoreReceipt, ErrorView>(
                run[6].reply.failure()->0,
            )
        },
        run.len() > 7 && run[7].operation is Replacing && run[7].reply.failure() is Some && run[7].reply
            is Done ==> {
            &&& run.len() == 9
            &&& run[8].operation is RollingBack
            &&& run[8].operation->RollingBack_id == run[5].reply->Prepared_0->Ok_0.id
            &&& step::result_of(ApplySnapshot::steps(), run) is Err
        },
        forall|i: int|
            2 <= i < run.len() && i <= 5 && i != 4 && (#[trigger] run[i].reply.failure()) is Some && (
            run[i].reply is Done <==> i < 5) && (run[i].reply is Prepared <==> i == 5) ==> i == run.len()
                - 1 && step::result_of(ApplySnapshot::steps(), run) == Err::<RestoreReceipt, ErrorView>(run[i].reply.failure()->0),
        run.len() <= 9,
{
    let steps = ApplySnapshot::steps();
    assert(step::follows(steps, run, 0));
    if run.len() > 1 {
        assert(step::follows(steps, run, 1));
    }
    if run.len() > 2 {
        assert(step::follows(steps, run, 2));
    }
    if run.len() > 3 {
        assert(step::follows(steps, run, 3));
    }
    if run.len() > 4 {
        assert(step::follows(steps, run, 4));
    }
    if run.len() > 5 {
        assert(step::follows(steps, run, 5));
    }
    if run.len() > 6 {
        assert(step::follows(steps, run, 6));
    }
    if run.len() > 7 {
        assert(step::follows(steps, run, 7));
    }
    if run.len() > 8 {
        assert(step::follows(steps, run, 8));
    }
}

impl CommitSwitch {
    /// How the operation goes on.
    pub open spec fn steps() -> spec_fn(CommitSwitch, RestoreReply) -> StepView<
        CommitSwitch,
        CommitOutcomeView,
    > {
        |operation: CommitSwitch, reply: RestoreReply| operation.next(reply)
    }
}

/// Committing a switch succeeds exactly where the slot holds its record, that of a switch
/// that is prepared, and the operation with this name was committed.
pub proof fn law_only_the_prepared_switch_is_committed(
    id: String,
    run: Seq<Moment<CommitSwitch, RestoreReply>>,
)
    requires
        step::is_run(CommitSwitch::steps(), CommitSwitch::CheckingSlot { id }, run),
    ensures
        step::result_of(CommitSwitch::steps(), run) is Ok <==> {
            let record = run[0].reply->Slot_0->0->Ok_0;
            &&& run.len() == 2
            &&& run[0].reply is Slot
            &&& recovery::holds_sound(run[0].reply->Slot_0)
            &&& record.id@ == id@
            &&& record.kind is Switch
            &&& record.state == RecoveryState::Prepared
            &&& run[1].operation == (CommitSwitch::Committing { id: record.id })
            &&& run[1].reply is Committed
            &&& run[1].reply->Committed_0 is Ok
        },
        step::result_of(CommitSwitch::steps(), run) is Ok ==> {
            let record = run[0].reply->Slot_0->0->Ok_0;
            step::result_of(CommitSwitch::steps(), run) == Ok::<CommitOutcomeView, ErrorView>(run[1].reply->Committed_0->Ok_0@)
        },
        run.len() == 2 && run[1].reply is Committed && run[1].reply.failure() is Some ==> step::result_of(CommitSwitch::steps(), run) == Err::<
            CommitOutcomeView,
            ErrorView,
        >(run[1].reply.failure()->0),
        run.len() <= 2,
{
    let steps = CommitSwitch::steps();
    assert(step::follows(steps, run, 0));
    if run.len() > 1 {
        assert(step::follows(steps, run, 1));
    }
}

impl RollbackSwitch {
    /// How the operation goes on.
    pub open spec fn steps() -> spec_fn(RollbackSwitch, RestoreReply) -> StepView<
        RollbackSwitch,
        (),
    > {
        |operation: RollbackSwitch, reply: RestoreReply| operation.next(reply)
    }
}

/// Undoing a switch succeeds exactly where the slot holds its record, that of a switch,
/// and the operation with this name was undone.
pub proof fn law_switch_in_the_slot_is_undone(
    id: String,
    run: Seq<Moment<RollbackSwitch, RestoreReply>>,
)
    requires
        step::is_run(RollbackSwitch::steps(), RollbackSwitch::CheckingSlot { id }, run),
    ensures
        step::result_of(RollbackSwitch::steps(), run) is Ok <==> {
            let record = run[0].reply->Slot_0->0->Ok_0;
            &&& run.len() == 2
            &&& run[0].reply is Slot
            &&& recovery::holds_sound(run[0].reply->Slot_0)
            &&& record.id@ == id@
            &&& record.kind is Switch
            &&& run[1].operation == (RollbackSwitch::RollingBack { id: record.id })
            &&& run[1].reply.is_done()
        },
        run.len() == 2 && run[1].reply is Done && run[1].reply.failure() is Some ==> step::result_of(RollbackSwitch::steps(), run) == Err::<
            (),
            ErrorView,
        >(run[1].reply.failure()->0),
        run.len() <= 2,
{
    let steps = RollbackSwitch::steps();
    assert(step::follows(steps, run, 0));
    if run.len() > 1 {
        assert(step::follows(steps, run, 1));
    }
}

impl RecoverSwitch {
    /// How the operation goes on.
    pub open spec fn steps() -> spec_fn(RecoverSwitch, RestoreReply) -> StepView<
        RecoverSwitch,
        RecoveryOutcome,
    > {
        |operation: RecoverSwitch, reply: RestoreReply| operation.next(reply)
    }
}

/// Recovering a switch finds nothing exactly where the slot holds no record, or that of
/// another kind; it undoes one that is not committed and cleans up one that is, each under
/// the name of its record.
pub proof fn law_switch_left_in_the_slot_is_recovered(
    run: Seq<Moment<RecoverSwitch, RestoreReply>>,
)
    requires
        step::is_run(RecoverSwitch::steps(), RecoverSwitch::CheckingSlot, run),
    ensures
        step::result_of(RecoverSwitch::steps(), run) == Ok::<RecoveryOutcome, ErrorView>(RecoveryOutcome::Nothing) <==> {
            &&& run.len() == 1
            &&& run[0].reply is Slot
            &&& run[0].reply->Slot_0 is None || (recovery::holds_sound(run[0].reply->Slot_0)
                && !(run[0].reply->Slot_0->0->Ok_0.kind is Switch))
        },
        step::result_of(RecoverSwitch::steps(), run) == Ok::<RecoveryOutcome, ErrorView>(RecoveryOutcome::RolledBack) <==> {
            let record = run[0].reply->Slot_0->0->Ok_0;
            &&& run.len() == 2
            &&& run[0].reply is Slot
            &&& recovery::holds_sound(run[0].reply->Slot_0)
            &&& record.kind is Switch
            &&& record.state != RecoveryState::Committed
            &&& run[1].operation == (RecoverSwitch::RollingBack { id: record.id })
            &&& run[1].reply.is_done()
        },
        step::result_of(RecoverSwitch::steps(), run) == Ok::<RecoveryOutcome, ErrorView>(RecoveryOutcome::CleanedCompleted) <==> {
            let record = run[0].reply->Slot_0->0->Ok_0;
            &&& run.len() == 2
            &&& run[0].reply is Slot
            &&& recovery::holds_sound(run[0].reply->Slot_0)
            &&& record.kind is Switch
            &&& record.state == RecoveryState::Committed
            &&& run[1].operation == (RecoverSwitch::Cleaning { id: record.id })
            &&& run[1].reply.is_done()
        },
        run.len() == 2 && run[1].reply is Done && run[1].reply.failure() is Some ==> step::result_of(RecoverSwitch::steps(), run) == Err::<
            RecoveryOutcome,
            ErrorView,
        >(run[1].reply.failure()->0),
        run[0].reply is Slot && recovery::holds_sound(run[0].reply->Slot_0)
            && run[0].reply->Slot_0->0->Ok_0.kind is Switch ==> run.len() == 2,
        run.len() <= 2,
{
    let steps = RecoverSwitch::steps();
    assert(step::follows(steps, run, 0));
    if run.len() > 1 {
        assert(step::follows(steps, run, 1));
    }
}

impl ReplaceFiles {
    /// How the operation may go on.
    pub open spec fn leads() -> spec_fn(ReplaceFiles, ReplaceReply, Step<ReplaceFiles, ()>) -> bool {
        |operation: ReplaceFiles, reply: ReplaceReply, step: Step<ReplaceFiles, ()>|
            operation.leads_to(reply, step)
    }
}

proof fn lemma_replacing(
    job: ReplaceJob,
    stale: Vec<String>,
    run: Seq<Taken<ReplaceFiles, ReplaceReply, ()>>,
    i: int,
)
    requires
        step::is_taken_run(ReplaceFiles::leads(), ReplaceFiles::CheckingActive { job }, run),
        run.len() > 3,
        run[3].operation == replacing_from(job, stale, 0),
        3 <= i < run.len(),
    ensures
        i - 3 <= job.files.len() + stale.len(),
        run[i].operation == (if i - 3 < job.files.len() {
            ReplaceFiles::Replacing { job, stale, index: (i - 3) as usize }
        } else if i - 3 < job.files.len() + stale.len() {
            ReplaceFiles::Removing { job, stale, index: (i - 3 - job.files.len()) as usize }
        } else {
            ReplaceFiles::CheckingResult { job }
        }),
        forall|j: int|
            3 <= j < i ==> (#[trigger] run[j]).reply is Io && run[j].reply->Io_0 is Ok,
    decreases i,
{
    if i > 3 {
        lemma_replacing(job, stale, run, i - 1);
        assert(step::goes_on(ReplaceFiles::leads(), run, i - 1));
    }
}

/// Replacing the client's files succeeds exactly where their path and the new files were in
/// order, the files that are there were listed, every new file was put in place, in their
/// order, then every file that was there and is not among the new ones was removed, and the
/// client's files were found to be the new ones. Nothing but that is done, and the first work
/// that fails ends it in an error.
pub proof fn law_files_are_replaced_and_others_removed(
    job: ReplaceJob,
    run: Seq<Taken<ReplaceFiles, ReplaceReply, ()>>,
) -> (stale: Vec<String>)
    requires
        step::is_taken_run(ReplaceFiles::leads(), ReplaceFiles::CheckingActive { job }, run),
    ensures
        step::taken_result(run) is Ok <==> {
            let n = job.files.len() as int;
            let m = stale.len() as int;
            &&& run.len() == 4 + n + m
            &&& run[0].reply is Checked
            &&& run[0].reply->Checked_0 is Ok
            &&& run[1].operation == (ReplaceFiles::CheckingSource { job })
            &&& run[1].reply is Checked
            &&& run[1].reply->Checked_0 is Ok
            &&& run[2].operation == (ReplaceFiles::Listing { job })
            &&& run[2].reply is Listed
            &&& run[2].reply->Listed_0 is Ok
            &&& forall|j: int|
                0 <= j < n ==> (#[trigger] run[3 + j]).operation == (ReplaceFiles::Replacing {
                    job,
                    stale,
                    index: j as usize,
                })
            &&& forall|j: int|
                0 <= j < m ==> (#[trigger] run[3 + n + j]).operation == (ReplaceFiles::Removing {
                    job,
                    stale,
                    index: j as usize,
                })
            &&& forall|j: int|
                3 <= j < 3 + n + m ==> (#[trigger] run[j]).reply is Io && run[j].reply->Io_0 is Ok
            &&& run.last().operation == (ReplaceFiles::CheckingResult { job })
            &&& run.last().reply is Checked
            &&& run.last().reply->Checked_0 is Ok
        },
        run.len() > 3 ==> exists|entries: Seq<TextEntry>|
            ordered::ascending(entries) && ordered::map_of(entries)
                == run[2].reply->Listed_0->Ok_0@ && stale@ == #[trigger] stale_names(
                entries,
                job.files@,
            ),
{
    let leads = ReplaceFiles::leads();
    assert(step::goes_on(leads, run, 0));
    if run.len() > 1 {
        assert(step::goes_on(leads, run, 1));
    }
    if run.len() > 2 {
        assert(step::goes_on(leads, run, 2));
    }
    if run.len() > 3 {
        let current = run[2].reply->Listed_0->Ok_0@;
        let (stale, entries) = choose|stale: Vec<String>, entries: Seq<TextEntry>|
            ordered::ascending(entries) && ordered::map_of(entries) == current && stale@
                == #[trigger] stale_names(entries, job.files@) && run[3].operation
                == #[trigger] replacing_from(job, stale, 0);
        let last = run.len() - 1;
        assert forall|i: int| 3 <= i < run.len() implies (#[trigger] run[i]).operation == (if i - 3
            < job.files.len() {
            ReplaceFiles::Replacing { job, stale, index: (i - 3) as usize }
        } else if i - 3 < job.files.len() + stale.len() {
            ReplaceFiles::Removing { job, stale, index: (i - 3 - job.files.len()) as usize }
        } else {
            ReplaceFiles::CheckingResult { job }
        }) by {
            lemma_replacing(job, stale, run, i);
        }
        lemma_replacing(job, stale, run, last);
        assert(step::goes_on(leads, run, last));
        stale
    } else {
        arbitrary()
    }
}

} // verus!
