//! Logging an account in on Windows. The login is prepared in the recovery slot,
//! the client's configuration is cleared so that the client asks for a login,
//! and the record waits for the user; the login is then committed or undone.

use vstd::prelude::*;

use crate::contracts::AccountKey;
use crate::contracts::LoginIntent;
use crate::contracts::LoginSessionSnapshot;
use crate::error::AppError;
use crate::error::ErrorView;
use crate::json::JsonView;
use crate::platform::windows::authentication::AuthenticationBaseline;
use crate::platform::windows::config;
use crate::platform::windows::paths;
use crate::platform::windows::recovery;
use crate::platform::windows::recovery::CommitOutcomeView;
use crate::platform::windows::recovery::RecoveryCommitOutcome;
use crate::platform::windows::recovery::RecoveryKind;
use crate::platform::windows::recovery::RecoveryRecord;
use crate::platform::windows::recovery::RecoveryState;
use crate::platform::windows::recovery::RecoveryStore;
use crate::platform::windows::restore;
use crate::platform::windows::restore::CommitOutcome;
use crate::platform::windows::snapshot::DocumentError;
use crate::step::Moment;
use crate::step;
use crate::step::Step;
use crate::step::StepView;
use crate::text;

verus! {

/// Begins, completes and undoes logins.
#[derive(Debug)]
pub struct LoginSessionManager {
    active_directory: String,
    recovery: RecoveryStore,
}

/// What the recovery of a login did.
#[derive(Clone, Copy, Debug, PartialEq, Eq, Structural)]
pub enum LoginRecoveryOutcome {
    Nothing,
    RolledBack,
    CleanedCompleted,
}

impl View for LoginRecoveryOutcome {
    type V = LoginRecoveryOutcome;

    open spec fn view(&self) -> LoginRecoveryOutcome {
        *self
    }
}

impl View for LoginSessionSnapshot {
    type V = LoginSessionSnapshot;

    open spec fn view(&self) -> LoginSessionSnapshot {
        *self
    }
}

/// The record of the login in the slot, where it is one.
pub open spec fn recorded_login(stored: Option<Result<RecoveryRecord, DocumentError>>) -> Result<
    Option<RecoveryRecord>,
    ErrorView,
> {
    match recovery::recorded(stored) {
        Ok(Some(record)) => if record.kind is Login {
            Ok(Some(record))
        } else {
            Ok(None)
        },
        other => other,
    }
}

/// The record in the slot, which has to be that of the session.
pub open spec fn required_login(
    session_id: Seq<char>,
    stored: Option<Result<RecoveryRecord, DocumentError>>,
) -> Result<RecoveryRecord, ErrorView> {
    match recorded_login(stored) {
        Err(error) => Err(error),
        Ok(None) => Err(ErrorView::Login("登录恢复记录不存在"@)),
        Ok(Some(record)) => if record.id@ != session_id {
            Err(ErrorView::Login("登录会话已失效，请刷新账号后重试"@))
        } else {
            Ok(record)
        },
    }
}

/// The login that waits for the user, where there is one; one that is committed
/// does not wait any more.
pub open spec fn waiting_login(stored: Option<Result<RecoveryRecord, DocumentError>>) -> Result<
    Option<LoginSessionSnapshot>,
    ErrorView,
> {
    match recovery::recorded(stored) {
        Err(error) => Err(error),
        Ok(None) => Ok(None),
        Ok(Some(record)) => match record.kind {
            RecoveryKind::Switch { .. } => Ok(None),
            RecoveryKind::Login { intent, created_at, .. } => if record.state
                == RecoveryState::Committed {
                Ok(None)
            } else {
                Ok(Some(LoginSessionSnapshot { id: record.id, intent, created_at }))
            },
        },
    }
}

/// What the session is meant for, where it waits for the user.
pub open spec fn awaiting(
    session_id: Seq<char>,
    stored: Option<Result<RecoveryRecord, DocumentError>>,
) -> Result<(LoginIntent, Option<AccountKey>), ErrorView> {
    match required_login(session_id, stored) {
        Err(error) => Err(error),
        Ok(record) => match record.kind {
            RecoveryKind::Login { intent, previous_account, .. } => if record.state
                == RecoveryState::AwaitingUser {
                Ok((intent, previous_account))
            } else {
                Err(ErrorView::Login("当前登录会话不能完成"@))
            },
            RecoveryKind::Switch { .. } => Err(ErrorView::StateUnavailable),
        },
    }
}

/// The login that is begun.
#[derive(Debug)]
pub struct BeginJob {
    pub intent: LoginIntent,
    pub previous_client_was_running: bool,
    pub previous_account: Option<AccountKey>,
    pub authentication_baseline: AuthenticationBaseline,
}

/// Beginning a login: the slot has to be empty; the login is prepared, the client
/// has to be stopped, its configuration is cleared and the record waits for the
/// user. A failure after the preparation gives it up or undoes it.
#[derive(Debug)]
pub enum BeginLogin {
    /// The slot is to be read.
    CheckingSlot { job: BeginJob },
    /// It is to be found out whether the client's files are there.
    CheckingActive { job: BeginJob },
    /// The path of the client's files is to be checked.
    CheckingPath { job: BeginJob },
    /// The time is to be read.
    ReadingClock { job: BeginJob },
    /// A login of this kind is to be prepared in the slot.
    Preparing {
        intent: LoginIntent,
        created_at: u64,
        kind: RecoveryKind,
        previous_client_was_running: bool,
    },
    /// It is to be made sure that the client is stopped.
    ConfirmingStopped { session: LoginSessionSnapshot },
    /// The prepared login is to be given up, for this reason.
    Discarding { id: String, error: AppError },
    /// The client's configuration is to be cleared.
    Clearing { session: LoginSessionSnapshot },
    /// The record is to be moved to waiting for the user.
    Moving { session: LoginSessionSnapshot },
    /// The login is to be undone, for this reason.
    RollingBack { id: String, error: AppError },
}

/// What came of the work for an operation of a login.
#[derive(Debug)]
pub enum SessionReply {
    Slot(Option<Result<RecoveryRecord, DocumentError>>),
    Flag(bool),
    Time(u64),
    Prepared(Result<RecoveryRecord, AppError>),
    Moved(Result<RecoveryRecord, AppError>),
    Committed(Result<RecoveryCommitOutcome, AppError>),
    Done(Result<(), AppError>),
}

/// The error after a login that failed was undone, or could not be.
pub open spec fn begin_failure(error: AppError, rollback: Result<(), AppError>) -> ErrorView {
    match rollback {
        Ok(_) => error@,
        Err(rollback) => ErrorView::Login(
            error@.nested() + "；恢复登录前配置失败："@ + rollback@.nested(),
        ),
    }
}

/// The error after a login that failed was undone, or could not be.
pub fn failed_begin(error: AppError, rollback: Result<(), AppError>) -> (failure: AppError)
    ensures
        failure@ == begin_failure(error, rollback),
{
    match rollback {
        Ok(_) => error,
        Err(rollback) => AppError::Login(
            text::joined3(
                error.nested_message().as_str(),
                "；恢复登录前配置失败：",
                rollback.nested_message().as_str(),
            ),
        ),
    }
}

impl BeginLogin {
    /// What the answer leads to.
    pub open spec fn next(self, reply: SessionReply) -> StepView<
        BeginLogin,
        LoginSessionSnapshot,
    > {
        match (self, reply) {
            (BeginLogin::CheckingSlot { job }, SessionReply::Slot(stored)) =>
                match recovery::recorded(stored) {
                    Err(error) => step::failing(error),
                    Ok(Some(_)) => step::failing(
                        ErrorView::Login("已有账号操作正在进行，请先完成或取消该流程"@),
                    ),
                    Ok(None) => step::going(BeginLogin::CheckingActive { job }),
                },
            (BeginLogin::CheckingActive { job }, SessionReply::Flag(present)) => if present {
                step::going(BeginLogin::CheckingPath { job })
            } else {
                step::failing(
                    ErrorView::Login("未找到 Battle.net 配置目录，请先启动并登录一次战网客户端"@),
                )
            },
            (BeginLogin::CheckingPath { job }, SessionReply::Done(done)) => match done {
                Err(error) => step::failing(error@),
                Ok(_) => step::going(BeginLogin::ReadingClock { job }),
            },
            (BeginLogin::ReadingClock { job }, SessionReply::Time(now)) => step::going(
                BeginLogin::Preparing {
                    intent: job.intent,
                    created_at: now,
                    kind: RecoveryKind::Login {
                        intent: job.intent,
                        previous_account: job.previous_account,
                        created_at: now,
                        authentication_baseline: job.authentication_baseline,
                    },
                    previous_client_was_running: job.previous_client_was_running,
                },
            ),
            (
                BeginLogin::Preparing { intent, created_at, .. },
                SessionReply::Prepared(prepared),
            ) => match prepared {
                Err(error) => step::failing(error@),
                Ok(record) => step::going(
                    BeginLogin::ConfirmingStopped {
                        session: LoginSessionSnapshot { id: record.id, intent, created_at },
                    },
                ),
            },
            (BeginLogin::ConfirmingStopped { session }, SessionReply::Done(done)) => match done {
                Err(error) => step::going(BeginLogin::Discarding { id: session.id, error }),
                Ok(_) => step::going(BeginLogin::Clearing { session }),
            },
            (BeginLogin::Discarding { id, error }, SessionReply::Done(_)) => step::failing(error@),
            (BeginLogin::Clearing { session }, SessionReply::Done(done)) => match done {
                Err(error) => step::going(BeginLogin::RollingBack { id: session.id, error }),
                Ok(_) => step::going(BeginLogin::Moving { session }),
            },
            (BeginLogin::Moving { session }, SessionReply::Moved(moved)) => match moved {
                Err(error) => step::going(BeginLogin::RollingBack { id: session.id, error }),
                Ok(_) => step::ending(session),
            },
            (BeginLogin::RollingBack { id, error }, SessionReply::Done(done)) => step::failing(
                begin_failure(error, done),
            ),
            _ => step::confused(),
        }
    }

    /// Takes the answer.
    pub fn resume(self, reply: SessionReply) -> (step: Step<BeginLogin, LoginSessionSnapshot>)
        ensures
            step@ == self.next(reply),
    {
        match (self, reply) {
            (BeginLogin::CheckingSlot { job }, SessionReply::Slot(stored)) =>
                match RecoveryStore::record(stored) {
                    Err(error) => step::fail(error),
                    Ok(Some(_)) => step::fail(
                        AppError::Login("已有账号操作正在进行，请先完成或取消该流程".to_owned()),
                    ),
                    Ok(None) => step::go(BeginLogin::CheckingActive { job }),
                },
            (BeginLogin::CheckingActive { job }, SessionReply::Flag(present)) => if present {
                step::go(BeginLogin::CheckingPath { job })
            } else {
                step::fail(
                    AppError::Login(
                        "未找到 Battle.net 配置目录，请先启动并登录一次战网客户端".to_owned(),
                    ),
                )
            },
            (BeginLogin::CheckingPath { job }, SessionReply::Done(done)) => match done {
                Err(error) => step::fail(error),
                Ok(_) => step::go(BeginLogin::ReadingClock { job }),
            },
            (BeginLogin::ReadingClock { job }, SessionReply::Time(now)) => {
                let intent = job.intent.clone();
                step::go(
                    BeginLogin::Preparing {
                        intent,
                        created_at: now,
                        kind: RecoveryKind::Login {
                            intent: job.intent,
                            previous_account: job.previous_account,
                            created_at: now,
                            authentication_baseline: job.authentication_baseline,
                        },
                        previous_client_was_running: job.previous_client_was_running,
                    },
                )
            },
            (
                BeginLogin::Preparing { intent, created_at, .. },
                SessionReply::Prepared(prepared),
            ) => match prepared {
                Err(error) => step::fail(error),
                Ok(record) => step::go(
                    BeginLogin::ConfirmingStopped {
                        session: LoginSessionSnapshot { id: record.id, intent, created_at },
                    },
                ),
            },
            (BeginLogin::ConfirmingStopped { session }, SessionReply::Done(done)) => match done {
                Err(error) => step::go(BeginLogin::Discarding { id: session.id, error }),
                Ok(_) => step::go(BeginLogin::Clearing { session }),
            },
            (BeginLogin::Discarding { id: _, error }, SessionReply::Done(_)) => step::fail(error),
            (BeginLogin::Clearing { session }, SessionReply::Done(done)) => match done {
                Err(error) => step::go(BeginLogin::RollingBack { id: session.id, error }),
                Ok(_) => step::go(BeginLogin::Moving { session }),
            },
            (BeginLogin::Moving { session }, SessionReply::Moved(moved)) => match moved {
                Err(error) => step::go(BeginLogin::RollingBack { id: session.id, error }),
                Ok(_) => step::end(session),
            },
            (BeginLogin::RollingBack { id: _, error }, SessionReply::Done(done)) => step::fail(
                failed_begin(error, done),
            ),
            _ => step::give_up(),
        }
    }
}

/// Committing a login: it has to wait for the user.
#[derive(Debug)]
pub enum CompleteSession {
    /// The slot is to be read.
    CheckingSlot { session_id: String },
    /// The operation in the slot is to be committed.
    Committing { id: String },
}

impl CompleteSession {
    /// What the answer leads to.
    pub open spec fn next(self, reply: SessionReply) -> StepView<
        CompleteSession,
        CommitOutcomeView,
    > {
        match (self, reply) {
            (CompleteSession::CheckingSlot { session_id }, SessionReply::Slot(stored)) =>
                match required_login(session_id@, stored) {
                    Err(error) => step::failing(error),
                    Ok(record) => if record.state == RecoveryState::AwaitingUser {
                        step::going(CompleteSession::Committing { id: record.id })
                    } else {
                        step::failing(ErrorView::Login("当前登录会话不能提交"@))
                    },
                },
            (CompleteSession::Committing { id }, SessionReply::Committed(outcome)) =>
                match outcome {
                    Err(error) => step::failing(error@),
                    Ok(outcome) => step::ending(outcome@),
                },
            _ => step::confused(),
        }
    }

    /// Takes the answer.
    pub fn resume(self, reply: SessionReply) -> (step: Step<CompleteSession, CommitOutcome>)
        ensures
            step@ == self.next(reply),
    {
        match (self, reply) {
            (CompleteSession::CheckingSlot { session_id }, SessionReply::Slot(stored)) =>
                match LoginSessionManager::require_login(session_id.as_str(), stored) {
                    Err(error) => step::fail(error),
                    Ok(record) => if record.state == RecoveryState::AwaitingUser {
                        step::go(CompleteSession::Committing { id: record.id })
                    } else {
                        step::fail(AppError::Login("当前登录会话不能提交".to_owned()))
                    },
                },
            (CompleteSession::Committing { id: _ }, SessionReply::Committed(outcome)) =>
                match outcome {
                    Err(error) => step::fail(error),
                    Ok(outcome) => step::end(restore::commit_outcome(outcome)),
                },
            _ => step::give_up(),
        }
    }
}

/// Undoing a login: the slot has to hold it.
#[derive(Debug)]
pub enum RollbackSession {
    /// The slot is to be read.
    CheckingSlot { session_id: String },
    /// The operation in the slot is to be undone.
    RollingBack { id: String },
}

impl RollbackSession {
    /// What the answer leads to.
    pub open spec fn next(self, reply: SessionReply) -> StepView<RollbackSession, ()> {
        match (self, reply) {
            (RollbackSession::CheckingSlot { session_id }, SessionReply::Slot(stored)) =>
                match required_login(session_id@, stored) {
                    Err(error) => step::failing(error),
                    Ok(record) => step::going(RollbackSession::RollingBack { id: record.id }),
                },
            (RollbackSession::RollingBack { id }, SessionReply::Done(done)) => match done {
                Err(error) => step::failing(error@),
                Ok(_) => step::ending(()),
            },
            _ => step::confused(),
        }
    }

    /// Takes the answer.
    pub fn resume(self, reply: SessionReply) -> (step: Step<RollbackSession, ()>)
        ensures
            step@ == self.next(reply),
    {
        match (self, reply) {
            (RollbackSession::CheckingSlot { session_id }, SessionReply::Slot(stored)) =>
                match LoginSessionManager::require_login(session_id.as_str(), stored) {
                    Err(error) => step::fail(error),
                    Ok(record) => step::go(RollbackSession::RollingBack { id: record.id }),
                },
            (RollbackSession::RollingBack { id: _ }, SessionReply::Done(done)) => match done {
                Err(error) => step::fail(error),
                Ok(_) => step::end(()),
            },
            _ => step::give_up(),
        }
    }
}

/// Recovering a login that was interrupted: of a committed one the rest is
/// removed, any other is undone.
#[derive(Debug)]
pub enum RecoverSession {
    /// The slot is to be read.
    CheckingSlot,
    /// The login is to be undone.
    RollingBack { id: String },
    /// The slot of the committed login is to be emptied.
    Cleaning { id: String },
}

impl RecoverSession {
    /// What the answer leads to.
    pub open spec fn next(self, reply: SessionReply) -> StepView<
        RecoverSession,
        LoginRecoveryOutcome,
    > {
        match (self, reply) {
            (RecoverSession::CheckingSlot, SessionReply::Slot(stored)) => match recorded_login(
                stored,
            ) {
                Err(error) => step::failing(error),
                Ok(None) => step::ending(LoginRecoveryOutcome::Nothing),
                Ok(Some(record)) => if record.state == RecoveryState::Committed {
                    step::going(RecoverSession::Cleaning { id: record.id })
                } else {
                    step::going(RecoverSession::RollingBack { id: record.id })
                },
            },
            (RecoverSession::RollingBack { id }, SessionReply::Done(done)) => match done {
                Err(error) => step::failing(error@),
                Ok(_) => step::ending(LoginRecoveryOutcome::RolledBack),
            },
            (RecoverSession::Cleaning { id }, SessionReply::Done(done)) => match done {
                Err(error) => step::failing(error@),
                Ok(_) => step::ending(LoginRecoveryOutcome::CleanedCompleted),
            },
            _ => step::confused(),
        }
    }

    /// Takes the answer.
    pub fn resume(self, reply: SessionReply) -> (step: Step<RecoverSession, LoginRecoveryOutcome>)
        ensures
            step@ == self.next(reply),
    {
        match (self, reply) {
            (RecoverSession::CheckingSlot, SessionReply::Slot(stored)) => match LoginSessionManager::login_record(
                stored,
            ) {
                Err(error) => step::fail(error),
                Ok(None) => step::end(LoginRecoveryOutcome::Nothing),
                Ok(Some(record)) => if record.state == RecoveryState::Committed {
                    step::go(RecoverSession::Cleaning { id: record.id })
                } else {
                    step::go(RecoverSession::RollingBack { id: record.id })
                },
            },
            (RecoverSession::RollingBack { id: _ }, SessionReply::Done(done)) => match done {
                Err(error) => step::fail(error),
                Ok(_) => step::end(LoginRecoveryOutcome::RolledBack),
            },
            (RecoverSession::Cleaning { id: _ }, SessionReply::Done(done)) => match done {
                Err(error) => step::fail(error),
                Ok(_) => step::end(LoginRecoveryOutcome::CleanedCompleted),
            },
            _ => step::give_up(),
        }
    }
}

impl LoginSessionManager {
    /// The directory of the client's files.
    pub closed spec fn active(self) -> Seq<char> {
        self.active_directory@
    }

    /// The recovery slot.
    pub closed spec fn slot(self) -> RecoveryStore {
        self.recovery
    }

    /// The manager for the client's files in the given directory.
    pub fn new(data_directory: &str, active_directory: &str) -> (manager: LoginSessionManager)
        ensures
            manager.active() == active_directory@,
            manager.slot().root() == paths::adjoined(data_directory@, "recovery"@),
    {
        LoginSessionManager {
            active_directory: active_directory.to_owned(),
            recovery: RecoveryStore::new(data_directory),
        }
    }

    /// The client's configuration.
    pub fn config_path(&self) -> (path: String)
        ensures
            path@ == paths::adjoined(self.active(), "Battle.net.config"@),
    {
        paths::join(self.active_directory.as_str(), "Battle.net.config")
    }

    /// The record of the login in the slot, where it is one.
    pub fn login_record(stored: Option<Result<RecoveryRecord, DocumentError>>) -> (record: Result<
        Option<RecoveryRecord>,
        AppError,
    >)
        ensures
            recovery::is_result(record, recorded_login(stored)),
    {
        match RecoveryStore::record(stored) {
            Ok(Some(record)) => {
                let login = match &record.kind {
                    RecoveryKind::Login { .. } => true,
                    RecoveryKind::Switch { .. } => false,
                };
                if login {
                    Ok(Some(record))
                } else {
                    Ok(None)
                }
            },
            Ok(None) => Ok(None),
            Err(error) => Err(error),
        }
    }

    /// The record in the slot, which has to be that of the session.
    pub fn require_login(
        session_id: &str,
        stored: Option<Result<RecoveryRecord, DocumentError>>,
    ) -> (record: Result<RecoveryRecord, AppError>)
        ensures
            recovery::is_result(record, required_login(session_id@, stored)),
    {
        match LoginSessionManager::login_record(stored) {
            Err(error) => Err(error),
            Ok(None) => Err(AppError::Login("登录恢复记录不存在".to_owned())),
            Ok(Some(record)) => if text::same_text(record.id.as_str(), session_id) {
                Ok(record)
            } else {
                Err(AppError::Login("登录会话已失效，请刷新账号后重试".to_owned()))
            },
        }
    }

    /// The login that waits for the user, where there is one.
    pub fn snapshot(stored: Option<Result<RecoveryRecord, DocumentError>>) -> (session: Result<
        Option<LoginSessionSnapshot>,
        AppError,
    >)
        ensures
            recovery::is_result(session, waiting_login(stored)),
    {
        let record = match RecoveryStore::record(stored) {
            Ok(Some(record)) => record,
            Ok(None) => {
                return Ok(None);
            },
            Err(error) => {
                return Err(error);
            },
        };
        match record.kind {
            RecoveryKind::Switch { .. } => Ok(None),
            RecoveryKind::Login { intent, created_at, .. } => if record.state
                == RecoveryState::Committed {
                Ok(None)
            } else {
                Ok(Some(LoginSessionSnapshot { id: record.id, intent, created_at }))
            },
        }
    }

    /// Whether the client was running before the session began.
    pub fn previous_client_was_running(
        session_id: &str,
        stored: Option<Result<RecoveryRecord, DocumentError>>,
    ) -> (running: Result<bool, AppError>)
        ensures
            recovery::is_result(
                running,
                match required_login(session_id@, stored) {
                    Ok(record) => Ok(record.previous_client_was_running),
                    Err(error) => Err(error),
                },
            ),
    {
        match LoginSessionManager::require_login(session_id, stored) {
            Ok(record) => Ok(record.previous_client_was_running),
            Err(error) => Err(error),
        }
    }

    /// What the session is meant for, and the account that was logged in before,
    /// where the session waits for the user.
    pub fn require_awaiting(
        session_id: &str,
        stored: Option<Result<RecoveryRecord, DocumentError>>,
    ) -> (waiting: Result<(LoginIntent, Option<AccountKey>), AppError>)
        ensures
            recovery::is_result(waiting, awaiting(session_id@, stored)),
    {
        let record = match LoginSessionManager::require_login(session_id, stored) {
            Ok(record) => record,
            Err(error) => {
                return Err(error);
            },
        };
        match record.kind {
            RecoveryKind::Login { intent, previous_account, .. } => if record.state
                == RecoveryState::AwaitingUser {
                Ok((intent, previous_account))
            } else {
                Err(AppError::Login("当前登录会话不能完成".to_owned()))
            },
            RecoveryKind::Switch { .. } => Err(AppError::StateUnavailable),
        }
    }

    /// Checks that the session waits for the user and that the client's
    /// configuration names an account; `present` is what the configuration says.
    pub fn require_completed_login_marker(
        session_id: &str,
        stored: Option<Result<RecoveryRecord, DocumentError>>,
        present: Result<bool, AppError>,
    ) -> (result: Result<(), AppError>)
        ensures
            match (awaiting(session_id@, stored), present) {
                (Err(error), _) => result is Err && result->Err_0@ == error,
                (Ok(_), Err(error)) => result == Err::<(), AppError>(error),
                (Ok(_), Ok(true)) => result is Ok,
                (Ok(_), Ok(false)) => result is Err && result->Err_0@ == ErrorView::Login(
                    "尚未检测到登录完成，请返回战网完成登录"@,
                ),
            },
    {
        match LoginSessionManager::require_awaiting(session_id, stored) {
            Err(error) => Err(error),
            Ok(_) => match present {
                Err(error) => Err(error),
                Ok(true) => Ok(()),
                Ok(false) => Err(
                    AppError::Login("尚未检测到登录完成，请返回战网完成登录".to_owned()),
                ),
            },
        }
    }

    /// Whether the client's configuration names an account, where the session waits
    /// for the user.
    pub fn completed_login_marker_present(
        session_id: &str,
        stored: Option<Result<RecoveryRecord, DocumentError>>,
        present: Result<bool, AppError>,
    ) -> (result: Result<bool, AppError>)
        ensures
            match awaiting(session_id@, stored) {
                Err(error) => result is Err && result->Err_0@ == error,
                Ok(_) => result == present,
            },
    {
        match LoginSessionManager::require_awaiting(session_id, stored) {
            Err(error) => Err(error),
            Ok(_) => present,
        }
    }

    /// The authentication values from before the session.
    pub fn authentication_baseline(
        session_id: &str,
        stored: Option<Result<RecoveryRecord, DocumentError>>,
    ) -> (baseline: Result<AuthenticationBaseline, AppError>)
        ensures
            recovery::is_result(
                baseline,
                match required_login(session_id@, stored) {
                    Err(error) => Err(error),
                    Ok(record) => match record.kind {
                        RecoveryKind::Login { authentication_baseline, .. } => Ok(
                            authentication_baseline,
                        ),
                        RecoveryKind::Switch { .. } => Err(ErrorView::StateUnavailable),
                    },
                },
            ),
    {
        let record = match LoginSessionManager::require_login(session_id, stored) {
            Ok(record) => record,
            Err(error) => {
                return Err(error);
            },
        };
        match record.kind {
            RecoveryKind::Login { authentication_baseline, .. } => Ok(authentication_baseline),
            RecoveryKind::Switch { .. } => Err(AppError::StateUnavailable),
        }
    }

    /// Whether a login has to be recovered.
    pub fn needs_automatic_recovery(
        stored: Option<Result<RecoveryRecord, DocumentError>>,
    ) -> (needed: Result<bool, AppError>)
        ensures
            recovery::is_result(
                needed,
                match recorded_login(stored) {
                    Ok(record) => Ok(record is Some),
                    Err(error) => Err(error),
                },
            ),
    {
        match LoginSessionManager::login_record(stored) {
            Ok(record) => Ok(record.is_some()),
            Err(error) => Err(error),
        }
    }

    /// Whether the recovery of a login changes the client's files.
    pub fn automatic_recovery_requires_active_write(
        stored: Option<Result<RecoveryRecord, DocumentError>>,
    ) -> (required: Result<bool, AppError>)
        ensures
            recovery::is_result(
                required,
                match recorded_login(stored) {
                    Ok(Some(record)) => Ok(record.state != RecoveryState::Committed),
                    Ok(None) => Ok(false),
                    Err(error) => Err(error),
                },
            ),
    {
        match LoginSessionManager::login_record(stored) {
            Ok(Some(record)) => Ok(record.state != RecoveryState::Committed),
            Ok(None) => Ok(false),
            Err(error) => Err(error),
        }
    }

    /// Begins a login.
    pub fn begin(
        intent: LoginIntent,
        previous_client_was_running: bool,
        previous_account: Option<AccountKey>,
        authentication_baseline: AuthenticationBaseline,
    ) -> (operation: BeginLogin)
        ensures
            operation == (BeginLogin::CheckingSlot {
                job: BeginJob {
                    intent,
                    previous_client_was_running,
                    previous_account,
                    authentication_baseline,
                },
            }),
    {
        BeginLogin::CheckingSlot {
            job: BeginJob {
                intent,
                previous_client_was_running,
                previous_account,
                authentication_baseline,
            },
        }
    }

    /// Commits the login of the session.
    pub fn complete(session_id: &str) -> (operation: CompleteSession)
        ensures
            operation matches CompleteSession::CheckingSlot { session_id: kept } && kept@
                == session_id@,
    {
        CompleteSession::CheckingSlot { session_id: session_id.to_owned() }
    }

    /// Undoes the login of the session.
    pub fn rollback(session_id: &str) -> (operation: RollbackSession)
        ensures
            operation matches RollbackSession::CheckingSlot { session_id: kept } && kept@
                == session_id@,
    {
        RollbackSession::CheckingSlot { session_id: session_id.to_owned() }
    }

    /// Begins to recover a login that was interrupted.
    pub fn recover_if_needed() -> (operation: RecoverSession)
        ensures
            operation == RecoverSession::CheckingSlot,
    {
        RecoverSession::CheckingSlot
    }
}

impl SessionReply {
    /// Whether the work was done.
    pub open spec fn is_done(self) -> bool {
        self matches SessionReply::Done(Ok(_))
    }

    /// Why the work was not done.
    pub open spec fn failure(self) -> Option<ErrorView> {
        match self {
            SessionReply::Done(Err(error)) => Some(error@),
            SessionReply::Prepared(Err(error)) => Some(error@),
            SessionReply::Moved(Err(error)) => Some(error@),
            SessionReply::Committed(Err(error)) => Some(error@),
            _ => None,
        }
    }
}

impl BeginLogin {
    /// How the operation goes on.
    pub open spec fn steps() -> spec_fn(BeginLogin, SessionReply) -> StepView<
        BeginLogin,
        LoginSessionSnapshot,
    > {
        |operation: BeginLogin, reply: SessionReply| operation.next(reply)
    }
}

/// Beginning a login succeeds exactly where the slot was empty, the client's files are
/// there and their path was in order, a login was prepared with the account, the values
/// and the client's state that were given and the time that was read, the client was
/// confirmed to be stopped, its configuration was cleared, and the record was moved to
/// waiting for the user. Where the client is not stopped the prepared login is given up,
/// and where a later step fails it is undone; both end in an error.
pub proof fn law_login_is_begun_after_all_checks(
    job: BeginJob,
    run: Seq<Moment<BeginLogin, SessionReply>>,
)
    requires
        step::is_run(BeginLogin::steps(), BeginLogin::CheckingSlot { job }, run),
    ensures
        step::result_of(BeginLogin::steps(), run) is Ok <==> {
            let created_at = run[3].reply->Time_0;
            let session = LoginSessionSnapshot {
                id: run[4].reply->Prepared_0->Ok_0.id,
                intent: job.intent,
                created_at,
            };
            &&& run.len() == 8
            &&& run[0].reply == SessionReply::Slot(None)
            &&& run[1].operation == (BeginLogin::CheckingActive { job })
            &&& run[1].reply == SessionReply::Flag(true)
            &&& run[2].operation == (BeginLogin::CheckingPath { job })
            &&& run[2].reply.is_done()
            &&& run[3].operation == (BeginLogin::ReadingClock { job })
            &&& run[3].reply is Time
            &&& run[4].operation == (BeginLogin::Preparing {
                intent: job.intent,
                created_at,
                kind: RecoveryKind::Login {
                    intent: job.intent,
                    previous_account: job.previous_account,
                    created_at,
                    authentication_baseline: job.authentication_baseline,
                },
                previous_client_was_running: job.previous_client_was_running,
            })
            &&& run[4].reply is Prepared
            &&& run[4].reply->Prepared_0 is Ok
            &&& run[5].operation == (BeginLogin::ConfirmingStopped { session })
            &&& run[5].reply.is_done()
            &&& run[6].operation == (BeginLogin::Clearing { session })
            &&& run[6].reply.is_done()
            &&& run[7].operation == (BeginLogin::Moving { session })
            &&& run[7].reply is Moved
            &&& run[7].reply->Moved_0 is Ok
        },
        step::result_of(BeginLogin::steps(), run) is Ok ==> {
            let created_at = run[3].reply->Time_0;
            let session = LoginSessionSnapshot {
                id: run[4].reply->Prepared_0->Ok_0.id,
                intent: job.intent,
                created_at,
            };
            step::result_of(BeginLogin::steps(), run) == Ok::<LoginSessionSnapshot, ErrorView>(session)
        },
        run.len() > 5 && run[5].reply is Done && run[5].reply.failure() is Some ==> {
            &&& run.len() == 7
            &&& run[6].operation is Discarding
            &&& run[6].operation->Discarding_id == run[4].reply->Prepared_0->Ok_0.id
            &&& run[6].reply is Done ==> step::result_of(BeginLogin::steps(), run) == Err::<LoginSessionSnapshot, ErrorView>(
                run[5].reply.failure()->0,
            )
        },
        forall|i: int|
            6 <= i < run.len() && (#[trigger] run[i].reply.failure()) is Some && ((run[i].operation
                is Clearing && run[i].reply is Done) || (run[i].operation is Moving && run[i].reply
                is Moved)) ==> {
                &&& i + 2 == run.len()
                &&& run[i + 1].operation is RollingBack
                &&& run[i + 1].operation->RollingBack_id == run[4].reply->Prepared_0->Ok_0.id
                &&& run[i + 1].reply.is_done() ==> step::result_of(BeginLogin::steps(), run) == Err::<LoginSessionSnapshot, ErrorView>(
                    run[i].reply.failure()->0,
                )
                &&& step::result_of(BeginLogin::steps(), run) is Err
            },
        run.len() <= 9,
{
    let steps = BeginLogin::steps();
    assert(step::follows(steps, run, 0));
    if run.len() > 1 {
        assert(step::follows(steps, run, 1));
    }
    if run.len() > 2 {
        assert(step::follows(steps, run, 2));
    }
    if run.len() > 3 {
        assert(step::follows(steps, run, 3));
    }
    if run.len() > 4 {
        assert(step::follows(steps, run, 4));
    }
    if run.len() > 5 {
        assert(step::follows(steps, run, 5));
    }
    if run.len() > 6 {
        assert(step::follows(steps, run, 6));
    }
    if run.len() > 7 {
        assert(step::follows(steps, run, 7));
    }
    if run.len() > 8 {
        assert(step::follows(steps, run, 8));
    }
}

impl CompleteSession {
    /// How the operation goes on.
    pub open spec fn steps() -> spec_fn(CompleteSession, SessionReply) -> StepView<
        CompleteSession,
        CommitOutcomeView,
    > {
        |operation: CompleteSession, reply: SessionReply| operation.next(reply)
    }
}

/// Committing a login succeeds exactly where the slot holds its record, that of a login
/// that waits for the user, and the operation with this name was committed.
pub proof fn law_only_the_waiting_login_is_committed(
    session_id: String,
    run: Seq<Moment<CompleteSession, SessionReply>>,
)
    requires
        step::is_run(CompleteSession::steps(), CompleteSession::CheckingSlot { session_id }, run),
    ensures
        step::result_of(CompleteSession::steps(), run) is Ok <==> {
            let record = run[0].reply->Slot_0->0->Ok_0;
            &&& run.len() == 2
            &&& run[0].reply is Slot
            &&& recovery::holds_sound(run[0].reply->Slot_0)
            &&& record.id@ == session_id@
            &&& record.kind is Login
            &&& record.state == RecoveryState::AwaitingUser
            &&& run[1].operation == (CompleteSession::Committing { id: record.id })
            &&& run[1].reply is Committed
            &&& run[1].reply->Committed_0 is Ok
        },
        step::result_of(CompleteSession::steps(), run) is Ok ==> {
            let record = run[0].reply->Slot_0->0->Ok_0;
            step::result_of(CompleteSession::steps(), run) == Ok::<CommitOutcomeView, ErrorView>(run[1].reply->Committed_0->Ok_0@)
        },
        run.len() <= 2,
{
    let steps = CompleteSession::steps();
    assert(step::follows(steps, run, 0));
    if run.len() > 1 {
        assert(step::follows(steps, run, 1));
    }
}

impl RollbackSession {
    /// How the operation goes on.
    pub open spec fn steps() -> spec_fn(RollbackSession, SessionReply) -> StepView<
        RollbackSession,
        (),
    > {
        |operation: RollbackSession, reply: SessionReply| operation.next(reply)
    }
}

/// Undoing a login succeeds exactly where the slot holds its record, that of a login, and
/// the operation with this name was undone.
pub proof fn law_login_in_the_slot_is_undone(
    session_id: String,
    run: Seq<Moment<RollbackSession, SessionReply>>,
)
    requires
        step::is_run(RollbackSession::steps(), RollbackSession::CheckingSlot { session_id }, run),
    ensures
        step::result_of(RollbackSession::steps(), run) is Ok <==> {
            let record = run[0].reply->Slot_0->0->Ok_0;
            &&& run.len() == 2
            &&& run[0].reply is Slot
            &&& recovery::holds_sound(run[0].reply->Slot_0)
            &&& record.id@ == session_id@
            &&& record.kind is Login
            &&& run[1].operation == (RollbackSession::RollingBack { id: record.id })
            &&& run[1].reply.is_done()
        },
        run.len() <= 2,
{
    let steps = RollbackSession::steps();
    assert(step::follows(steps, run, 0));
    if run.len() > 1 {
        assert(step::follows(steps, run, 1));
    }
}

impl RecoverSession {
    /// How the operation goes on.
    pub open spec fn steps() -> spec_fn(RecoverSession, SessionReply) -> StepView<
        RecoverSession,
        LoginRecoveryOutcome,
    > {
        |operation: RecoverSession, reply: SessionReply| operation.next(reply)
    }
}

/// Recovering a login finds nothing exactly where the slot holds no record, or that of
/// another kind; it undoes one that is not committed and cleans up one that is, each under
/// the name of its record.
pub proof fn law_login_left_in_the_slot_is_recovered(
    run: Seq<Moment<RecoverSession, SessionReply>>,
)
    requires
        step::is_run(RecoverSession::steps(), RecoverSession::CheckingSlot, run),
    ensures
        step::result_of(RecoverSession::steps(), run) == Ok::<LoginRecoveryOutcome, ErrorView>(LoginRecoveryOutcome::Nothing) <==> {
            &&& run.len() == 1
            &&& run[0].reply is Slot
            &&& run[0].reply->Slot_0 is None || (recovery::holds_sound(run[0].reply->Slot_0)
                && !(run[0].reply->Slot_0->0->Ok_0.kind is Login))
        },
        step::result_of(RecoverSession::steps(), run) == Ok::<LoginRecoveryOutcome, ErrorView>(LoginRecoveryOutcome::RolledBack) <==> {
            let record = run[0].reply->Slot_0->0->Ok_0;
            &&& run.len() == 2
            &&& run[0].reply is Slot
            &&& recovery::holds_sound(run[0].reply->Slot_0)
            &&& record.kind is Login
            &&& record.state != RecoveryState::Committed
            &&& run[1].operation == (RecoverSession::RollingBack { id: record.id })
            &&& run[1].reply.is_done()
        },
        step::result_of(RecoverSession::steps(), run) == Ok::<LoginRecoveryOutcome, ErrorView>(LoginRecoveryOutcome::CleanedCompleted) <==> {
            let record = run[0].reply->Slot_0->0->Ok_0;
            &&& run.len() == 2
            &&& run[0].reply is Slot
            &&& recovery::holds_sound(run[0].reply->Slot_0)
            &&& record.kind is Login
            &&& record.state == RecoveryState::Committed
            &&& run[1].operation == (RecoverSession::Cleaning { id: record.id })
            &&& run[1].reply.is_done()
        },
        run.len() == 2 && run[1].reply is Done && run[1].reply.failure() is Some ==> step::result_of(RecoverSession::steps(), run) == Err::<
            LoginRecoveryOutcome,
            ErrorView,
        >(run[1].reply.failure()->0),
        run[0].reply is Slot && recovery::holds_sound(run[0].reply->Slot_0)
            && run[0].reply->Slot_0->0->Ok_0.kind is Login ==> run.len() == 2,
        run.len() <= 2,
{
    let steps = RecoverSession::steps();
    assert(step::follows(steps, run, 0));
    if run.len() > 1 {
        assert(step::follows(steps, run, 1));
    }
}

/// Whether a configuration names an account can be told exactly where it has one field of
/// account names, which is a text or a list of texts, and it names one exactly where one of
/// these texts is not blank. It can be cleared exactly where it has one such field that is a
/// text or a list.
pub proof fn law_the_one_field_decides(document: JsonView)
    ensures
        config::present_result(document) is Ok <==> config::saved_fields(document).len() == 1 && (config::saved_fields(
            document,
        )[0] is Text || (config::saved_fields(document)[0] is Array && forall|i: int|
            0 <= i < config::saved_fields(document)[0]->Array_0.len() ==> (
            #[trigger] config::saved_fields(document)[0]->Array_0[i]) is Text)),
        config::present_result(document) is Ok ==> (config::present_result(document)->Ok_0 <==> match config::saved_fields(
            document,
        )[0] {
            JsonView::Text(name) => text::trimmed(name).len() > 0,
            JsonView::Array(values) => exists|i: int|
                0 <= i < values.len() && text::trimmed((#[trigger] values[i])->Text_0).len() > 0,
            _ => false,
        }),
        config::clear_result(document) is Ok <==> config::saved_fields(document).len() == 1 && (config::saved_fields(
            document,
        )[0] is Text || config::saved_fields(document)[0] is Array),
{
    let fields = config::saved_fields(document);
    if fields.len() == 1 {
        assert(config::all_can_read(fields) <==> config::can_read(fields[0]));
        assert(config::all_can_empty(fields) <==> config::can_empty(fields[0]));
        assert(config::any_names_account(fields) <==> config::names_account(fields[0]));
        if fields[0] is Array && config::can_read(fields[0]) {
            let values = fields[0]->Array_0;
            if exists|i: int| 0 <= i < values.len() && config::names_in(#[trigger] values[i]) {
                let i = choose|i: int| 0 <= i < values.len() && config::names_in(#[trigger] values[i]);
                assert(text::trimmed(values[i]->Text_0).len() > 0);
            }
            if exists|i: int|
                0 <= i < values.len() && text::trimmed((#[trigger] values[i])->Text_0).len() > 0 {
                let i = choose|i: int|
                    0 <= i < values.len() && text::trimmed((#[trigger] values[i])->Text_0).len()
                        > 0;
                assert(config::names_in(values[i]));
            }
        }
    }
}

} // verus!
