//! Beginning and cancelling a login on Windows.

use vstd::prelude::*;

use crate::contracts::AccountKey;
use crate::contracts::AppSnapshot;
use crate::contracts::EventView;
use crate::contracts::LoginIntent;
use crate::contracts::LoginRegion;
use crate::error::AppError;
use crate::error::ErrorView;
use crate::platform::windows::app_service;
use crate::platform::windows::app_service::ServiceReply;
use crate::platform::windows::app_service::WindowsPlatformService;
use crate::platform::windows::login_session::BeginJob;
use crate::service_common;
use crate::step::Moment;
use crate::step;
use crate::step::Step;
use crate::step::StepView;

verus! {

/// A login that is prepared.
#[derive(Debug)]
pub struct LoginJob {
    pub intent: LoginIntent,
    pub client: String,
    pub was_running: bool,
}

/// Beginning a login: the client is stopped, the login is begun in the recovery
/// slot, and the client is started for it. Each state names the work that is to
/// be done.
#[derive(Debug)]
pub enum StartLogin {
    /// The lock is to be taken.
    Locking { intent: LoginIntent },
    /// A pending recovery is to be carried out.
    Recovering { intent: LoginIntent },
    /// The waiting login is to be read.
    CheckingSession { intent: LoginIntent },
    /// The client is to be found.
    ResolvingClient { intent: LoginIntent },
    /// It is to be found out whether the client runs.
    CheckingClient { intent: LoginIntent, client: String },
    /// Nothing but the report is to be done.
    Preparing { job: LoginJob },
    /// The client is to be stopped.
    Stopping { job: LoginJob },
    /// The client's files have to settle.
    Settling { job: LoginJob },
    /// The client's database is to be read.
    ReadingCatalog { job: LoginJob },
    /// It is to be made sure that the client is stopped.
    ConfirmingStopped { job: LoginJob, previous: Option<AccountKey> },
    /// The authentication values are to be read.
    Capturing { job: LoginJob, previous: Option<AccountKey> },
    /// The login is to be begun.
    Beginning { client: String, region: Option<LoginRegion>, session: BeginJob },
    /// The client is to be started again, after this error.
    Restarting { client: String, error: AppError },
    /// The client is to be started again, whatever comes of it, after this error.
    RestartingQuietly { client: String, error: AppError },
    /// The client is to be started for a login in the region.
    Launching { client: String, region: Option<LoginRegion>, id: String },
    /// The login is to be undone, after this error.
    RollingBack { id: String, error: AppError },
    /// The application is to be shown.
    Showing,
}

/// The step after a failure before the login was begun: the client is started
/// again where it was running.
pub open spec fn restarted(was_running: bool, client: String, error: AppError) -> StepView<
    StartLogin,
    AppSnapshot,
> {
    if was_running {
        step::going(StartLogin::Restarting { client, error })
    } else {
        step::failing(error@)
    }
}

fn restart(was_running: bool, client: String, error: AppError) -> (step: Step<
    StartLogin,
    AppSnapshot,
>)
    ensures
        step@ == restarted(was_running, client, error),
{
    if was_running {
        step::go(StartLogin::Restarting { client, error })
    } else {
        step::fail(error)
    }
}

impl StartLogin {
    /// What the answer leads to.
    pub open spec fn next(self, reply: ServiceReply) -> StepView<StartLogin, AppSnapshot> {
        match (self, reply) {
            (StartLogin::Locking { intent }, ServiceReply::Done(done)) => match done {
                Err(error) => step::failing(error@),
                Ok(_) => step::going(StartLogin::Recovering { intent }),
            },
            (StartLogin::Recovering { intent }, ServiceReply::Done(done)) => match done {
                Err(error) => step::failing(error@),
                Ok(_) => step::going(StartLogin::CheckingSession { intent }),
            },
            (StartLogin::CheckingSession { intent }, ServiceReply::Session(session)) =>
                match session {
                    Err(error) => step::failing(error@),
                    Ok(Some(_)) => step::failing(
                        ErrorView::Login("请先完成或取消当前登录流程"@),
                    ),
                    Ok(None) => step::going(StartLogin::ResolvingClient { intent }),
                },
            (StartLogin::ResolvingClient { intent }, ServiceReply::Client(client)) => match client {
                None => step::failing(ErrorView::ClientExecutableMissing),
                Some(client) => step::going(StartLogin::CheckingClient { intent, client }),
            },
            (StartLogin::CheckingClient { intent, client }, ServiceReply::Flag(running)) =>
                match running {
                    Err(error) => step::failing(error@),
                    Ok(was_running) => step::saying(
                        service_common::login_event("preparing"@, "正在准备登录"@, "正在保存当前战网配置"@, 8),
                        StartLogin::Preparing { job: LoginJob { intent, client, was_running } },
                    ),
                },
            (StartLogin::Preparing { job }, ServiceReply::Reported) => if job.was_running {
                step::saying(
                    service_common::login_event("stoppingClient"@, "正在准备登录"@, "正在安全关闭战网客户端"@, 16),
                    StartLogin::Stopping { job },
                )
            } else {
                step::going(StartLogin::Settling { job })
            },
            (StartLogin::Stopping { job }, ServiceReply::Done(done)) => match done {
                Err(error) => step::failing(error@),
                Ok(_) => step::going(StartLogin::Settling { job }),
            },
            (StartLogin::Settling { job }, ServiceReply::Done(done)) => match done {
                Err(error) => restarted(job.was_running, job.client, error),
                Ok(_) => step::going(StartLogin::ReadingCatalog { job }),
            },
            (StartLogin::ReadingCatalog { job }, ServiceReply::Catalog(catalog)) => match catalog {
                Ok(catalog) => step::going(
                    StartLogin::ConfirmingStopped { job, previous: catalog.current_account_key },
                ),
                Err(AppError::AccountDatabaseMissing) => step::going(
                    StartLogin::ConfirmingStopped { job, previous: None },
                ),
                Err(error) => if job.was_running {
                    step::going(StartLogin::RestartingQuietly { client: job.client, error })
                } else {
                    step::failing(error@)
                },
            },
            (StartLogin::ConfirmingStopped { job, previous }, ServiceReply::Done(done)) =>
                match done {
                    Err(error) => restarted(job.was_running, job.client, error),
                    Ok(_) => step::going(StartLogin::Capturing { job, previous }),
                },
            (StartLogin::Capturing { job, previous }, ServiceReply::Baseline(baseline)) =>
                match baseline {
                    Err(error) => restarted(job.was_running, job.client, error),
                    Ok(baseline) => step::saying(
                        service_common::login_event("clearingPointer"@, "正在准备登录"@, "正在启动战网登录页"@, 24),
                        StartLogin::Beginning {
                            client: job.client,
                            region: crate::contracts::region_of(job.intent.account().environment@),
                            session: BeginJob {
                                intent: job.intent,
                                previous_client_was_running: job.was_running,
                                previous_account: previous,
                                authentication_baseline: baseline,
                            },
                        },
                    ),
                },
            (StartLogin::Beginning { client, region, session }, ServiceReply::Begun(begun)) =>
                match begun {
                    Err(error) => restarted(session.previous_client_was_running, client, error),
                    Ok(begun) => step::going(
                        StartLogin::Launching { client, region, id: begun.id },
                    ),
                },
            (StartLogin::Restarting { client, error }, ServiceReply::Done(done)) => match done {
                Ok(_) => step::failing(error@),
                Err(restart) => step::failing(app_service::combined(error@, restart@)),
            },
            (StartLogin::RestartingQuietly { client, error }, ServiceReply::Done(_)) =>
                step::failing(error@),
            (StartLogin::Launching { client, region, id }, ServiceReply::Done(done)) => match done {
                Err(error) => step::going(StartLogin::RollingBack { id, error }),
                Ok(_) => step::saying(
                    service_common::login_event(
                        "awaitingUser"@,
                        "请在战网中完成登录"@,
                        "正在等待登录完成并自动保存"@,
                        32,
                    ),
                    StartLogin::Showing,
                ),
            },
            (StartLogin::RollingBack { id, error }, ServiceReply::Done(done)) => match done {
                Ok(_) => step::failing(error@),
                Err(rollback) => step::failing(
                    service_common::both_failed(error@, "；恢复登录前配置失败："@, rollback@),
                ),
            },
            (StartLogin::Showing, ServiceReply::Snapshot(snapshot)) => match snapshot {
                Err(error) => step::failing(error@),
                Ok(snapshot) => step::ending(snapshot),
            },
            _ => step::confused(),
        }
    }

    /// Takes the answer.
    pub fn resume(self, reply: ServiceReply) -> (step: Step<StartLogin, AppSnapshot>)
        ensures
            step@ == self.next(reply),
    {
        match (self, reply) {
            (StartLogin::Locking { intent }, ServiceReply::Done(done)) => match done {
                Err(error) => step::fail(error),
                Ok(_) => step::go(StartLogin::Recovering { intent }),
            },
            (StartLogin::Recovering { intent }, ServiceReply::Done(done)) => match done {
                Err(error) => step::fail(error),
                Ok(_) => step::go(StartLogin::CheckingSession { intent }),
            },
            (StartLogin::CheckingSession { intent }, ServiceReply::Session(session)) =>
                match session {
                    Err(error) => step::fail(error),
                    Ok(Some(_)) => step::fail(
                        AppError::Login("请先完成或取消当前登录流程".to_owned()),
                    ),
                    Ok(None) => step::go(StartLogin::ResolvingClient { intent }),
                },
            (StartLogin::ResolvingClient { intent }, ServiceReply::Client(client)) => match client {
                None => step::fail(AppError::ClientExecutableMissing),
                Some(client) => step::go(StartLogin::CheckingClient { intent, client }),
            },
            (StartLogin::CheckingClient { intent, client }, ServiceReply::Flag(running)) =>
                match running {
                    Err(error) => step::fail(error),
                    Ok(was_running) => step::say(
                        service_common::login_report("preparing", "正在准备登录", "正在保存当前战网配置", 8),
                        StartLogin::Preparing { job: LoginJob { intent, client, was_running } },
                    ),
                },
            (StartLogin::Preparing { job }, ServiceReply::Reported) => if job.was_running {
                step::say(
                    service_common::login_report("stoppingClient", "正在准备登录", "正在安全关闭战网客户端", 16),
                    StartLogin::Stopping { job },
                )
            } else {
                step::go(StartLogin::Settling { job })
            },
            (StartLogin::Stopping { job }, ServiceReply::Done(done)) => match done {
                Err(error) => step::fail(error),
                Ok(_) => step::go(StartLogin::Settling { job }),
            },
            (StartLogin::Settling { job }, ServiceReply::Done(done)) => match done {
                Err(error) => restart(job.was_running, job.client, error),
                Ok(_) => step::go(StartLogin::ReadingCatalog { job }),
            },
            (StartLogin::ReadingCatalog { job }, ServiceReply::Catalog(catalog)) => match catalog {
                Ok(catalog) => step::go(
                    StartLogin::ConfirmingStopped { job, previous: catalog.current_account_key },
                ),
                Err(AppError::AccountDatabaseMissing) => step::go(
                    StartLogin::ConfirmingStopped { job, previous: None },
                ),
                Err(error) => if job.was_running {
                    step::go(StartLogin::RestartingQuietly { client: job.client, error })
                } else {
                    step::fail(error)
                },
            },
            (StartLogin::ConfirmingStopped { job, previous }, ServiceReply::Done(done)) =>
                match done {
                    Err(error) => restart(job.was_running, job.client, error),
                    Ok(_) => step::go(StartLogin::Capturing { job, previous }),
                },
            (StartLogin::Capturing { job, previous }, ServiceReply::Baseline(baseline)) =>
                match baseline {
                    Err(error) => restart(job.was_running, job.client, error),
                    Ok(baseline) => {
                        let region = job.intent.requested_region();
                        step::say(
                            service_common::login_report(
                                "clearingPointer",
                                "正在准备登录",
                                "正在启动战网登录页",
                                24,
                            ),
                            StartLogin::Beginning {
                                client: job.client,
                                region,
                                session: BeginJob {
                                    intent: job.intent,
                                    previous_client_was_running: job.was_running,
                                    previous_account: previous,
                                    authentication_baseline: baseline,
                                },
                            },
                        )
                    },
                },
            (StartLogin::Beginning { client, region, session }, ServiceReply::Begun(begun)) =>
                match begun {
                    Err(error) => restart(session.previous_client_was_running, client, error),
                    Ok(begun) => step::go(StartLogin::Launching { client, region, id: begun.id }),
                },
            (StartLogin::Restarting { client: _, error }, ServiceReply::Done(done)) => match done {
                Ok(_) => step::fail(error),
                Err(restart) => step::fail(app_service::combine_errors(error, restart)),
            },
            (StartLogin::RestartingQuietly { client: _, error }, ServiceReply::Done(_)) =>
                step::fail(error),
            (StartLogin::Launching { client: _, region: _, id }, ServiceReply::Done(done)) =>
                match done {
                    Err(error) => step::go(StartLogin::RollingBack { id, error }),
                    Ok(_) => step::say(
                        service_common::login_report(
                            "awaitingUser",
                            "请在战网中完成登录",
                            "正在等待登录完成并自动保存",
                            32,
                        ),
                        StartLogin::Showing,
                    ),
                },
            (StartLogin::RollingBack { id: _, error }, ServiceReply::Done(done)) => match done {
                Ok(_) => step::fail(error),
                Err(rollback) => step::fail(
                    service_common::both_failures(error, "；恢复登录前配置失败：", rollback),
                ),
            },
            (StartLogin::Showing, ServiceReply::Snapshot(snapshot)) => match snapshot {
                Err(error) => step::fail(error),
                Ok(snapshot) => step::end(snapshot),
            },
            _ => step::give_up(),
        }
    }
}

/// What the beginning of a login has come to after the answers.
pub open spec fn started(intent: LoginIntent, replies: Seq<ServiceReply>) -> StepView<
    StartLogin,
    AppSnapshot,
>
    decreases replies.len(),
{
    if replies.len() == 0 {
        step::going(StartLogin::Locking { intent })
    } else {
        match started(intent, replies.drop_last()) {
            StepView::Perform { operation, .. } => operation.next(replies.last()),
            finished => finished,
        }
    }
}

/// What the operation keeps of the login that was asked for.
pub open spec fn keeps_intent(operation: StartLogin, intent: LoginIntent) -> bool {
    match operation {
        StartLogin::Locking { intent: kept }
        | StartLogin::Recovering { intent: kept }
        | StartLogin::CheckingSession { intent: kept }
        | StartLogin::ResolvingClient { intent: kept }
        | StartLogin::CheckingClient { intent: kept, .. } => kept == intent,
        StartLogin::Preparing { job }
        | StartLogin::Stopping { job }
        | StartLogin::Settling { job }
        | StartLogin::ReadingCatalog { job }
        | StartLogin::ConfirmingStopped { job, .. }
        | StartLogin::Capturing { job, .. } => job.intent == intent,
        StartLogin::Beginning { region, session, .. } => {
            &&& session.intent == intent
            &&& region == crate::contracts::region_of(intent.account().environment@)
        },
        StartLogin::Launching { region, .. } => region == crate::contracts::region_of(
            intent.account().environment@,
        ),
        _ => true,
    }
}

/// A login is begun for the account that was asked for, and the client is started
/// for that account's region.
pub proof fn law_login_is_begun_as_asked(intent: LoginIntent, replies: Seq<ServiceReply>)
    ensures
        started(intent, replies) matches StepView::Perform { operation, .. } ==> keeps_intent(
            operation,
            intent,
        ),
    decreases replies.len(),
{
    if replies.len() > 0 {
        law_login_is_begun_as_asked(intent, replies.drop_last());
    }
}

/// The client is started for a login only after the login was begun, and where
/// that fails the same login is undone. The authentication values are read only
/// right after the client was confirmed to be stopped.
pub proof fn law_login_steps_are_guarded(operation: StartLogin, reply: ServiceReply)
    ensures
        operation.next(reply) matches StepView::Perform {
            operation: StartLogin::Launching { id, .. },
            ..
        } ==> operation is Beginning && reply is Begun && reply->Begun_0 is Ok
            && reply->Begun_0->Ok_0.id == id,
        operation matches StartLogin::Launching { id, .. } ==> (reply matches ServiceReply::Done(
            Err(error),
        ) ==> operation.next(reply) == step::going::<StartLogin, AppSnapshot>(
            StartLogin::RollingBack { id, error },
        )),
        operation.next(reply) matches StepView::Perform {
            operation: StartLogin::Capturing { .. },
            ..
        } ==> operation is ConfirmingStopped && reply is Done && reply->Done_0 is Ok,
{
}

/// Cancelling a login: the client is stopped, the login is undone, and the client
/// is started again where it was running before. Each state names the work that
/// is to be done.
#[derive(Debug)]
pub enum CancelLogin {
    /// The lock is to be taken.
    Locking { session_id: String },
    /// It is to be found out whether the client was running before the login.
    CheckingRestart { session_id: String },
    /// The client is to be found.
    ResolvingClient { session_id: String, restart: bool },
    /// It is to be found out whether the client runs.
    CheckingClient { session_id: String, restart: bool, client: String },
    /// The client is to be stopped.
    Stopping { session_id: String, restart: bool, client: String },
    /// It is to be made sure that the client is stopped.
    ConfirmingStopped { session_id: String, restart: bool, client: String },
    /// The login is to be undone.
    RollingBack { session_id: String, restart: bool, client: String },
    /// The client is to be started.
    Launching { client: String },
    /// The client has to have started.
    Starting,
    /// The application is to be shown.
    Showing,
}

/// The report that the login was cancelled.
pub open spec fn cancelled_event() -> EventView {
    service_common::login_event("completed"@, "已取消登录"@, "登录前状态已恢复"@, 100)
}

fn cancelled() -> (step: Step<CancelLogin, AppSnapshot>)
    ensures
        step@ == step::saying::<CancelLogin, AppSnapshot>(cancelled_event(), CancelLogin::Showing),
{
    step::say(
        service_common::login_report("completed", "已取消登录", "登录前状态已恢复", 100),
        CancelLogin::Showing,
    )
}

impl CancelLogin {
    /// What the answer leads to.
    pub open spec fn next(self, reply: ServiceReply) -> StepView<CancelLogin, AppSnapshot> {
        match (self, reply) {
            (CancelLogin::Locking { session_id }, ServiceReply::Done(done)) => match done {
                Err(error) => step::failing(error@),
                Ok(_) => step::going(CancelLogin::CheckingRestart { session_id }),
            },
            (CancelLogin::CheckingRestart { session_id }, ServiceReply::Flag(restart)) =>
                match restart {
                    Err(error) => step::failing(error@),
                    Ok(restart) => step::going(
                        CancelLogin::ResolvingClient { session_id, restart },
                    ),
                },
            (CancelLogin::ResolvingClient { session_id, restart }, ServiceReply::Client(client)) =>
                match client {
                    None => step::failing(ErrorView::ClientExecutableMissing),
                    Some(client) => step::saying(
                        service_common::login_event("stoppingClient"@, "正在取消登录"@, "正在关闭战网客户端"@, 72),
                        CancelLogin::CheckingClient { session_id, restart, client },
                    ),
                },
            (
                CancelLogin::CheckingClient { session_id, restart, client },
                ServiceReply::Flag(running),
            ) => match running {
                Err(error) => step::failing(error@),
                Ok(true) => step::going(CancelLogin::Stopping { session_id, restart, client }),
                Ok(false) => step::going(
                    CancelLogin::ConfirmingStopped { session_id, restart, client },
                ),
            },
            (
                CancelLogin::Stopping { session_id, restart, client },
                ServiceReply::Done(done),
            ) => match done {
                Err(error) => step::failing(error@),
                Ok(_) => step::going(
                    CancelLogin::ConfirmingStopped { session_id, restart, client },
                ),
            },
            (
                CancelLogin::ConfirmingStopped { session_id, restart, client },
                ServiceReply::Done(done),
            ) => match done {
                Err(error) => step::failing(error@),
                Ok(_) => step::saying(
                    service_common::login_event("rollingBack"@, "正在取消登录"@, "正在恢复登录前状态"@, 84),
                    CancelLogin::RollingBack { session_id, restart, client },
                ),
            },
            (
                CancelLogin::RollingBack { session_id, restart, client },
                ServiceReply::Done(done),
            ) => match done {
                Err(error) => step::failing(error@),
                Ok(_) => if restart {
                    step::saying(
                        service_common::login_event("launchingClient"@, "正在取消登录"@, "正在启动战网客户端"@, 94),
                        CancelLogin::Launching { client },
                    )
                } else {
                    step::saying(cancelled_event(), CancelLogin::Showing)
                },
            },
            (CancelLogin::Launching { client }, ServiceReply::Done(done)) => match done {
                Err(error) => step::failing(error@),
                Ok(_) => step::going(CancelLogin::Starting),
            },
            (CancelLogin::Starting, ServiceReply::Done(done)) => match done {
                Err(error) => step::failing(error@),
                Ok(_) => step::saying(cancelled_event(), CancelLogin::Showing),
            },
            (CancelLogin::Showing, ServiceReply::Snapshot(snapshot)) => match snapshot {
                Err(error) => step::failing(error@),
                Ok(snapshot) => step::ending(snapshot),
            },
            _ => step::confused(),
        }
    }

    /// Takes the answer.
    pub fn resume(self, reply: ServiceReply) -> (step: Step<CancelLogin, AppSnapshot>)
        ensures
            step@ == self.next(reply),
    {
        match (self, reply) {
            (CancelLogin::Locking { session_id }, ServiceReply::Done(done)) => match done {
                Err(error) => step::fail(error),
                Ok(_) => step::go(CancelLogin::CheckingRestart { session_id }),
            },
            (CancelLogin::CheckingRestart { session_id }, ServiceReply::Flag(restart)) =>
                match restart {
                    Err(error) => step::fail(error),
                    Ok(restart) => step::go(CancelLogin::ResolvingClient { session_id, restart }),
                },
            (CancelLogin::ResolvingClient { session_id, restart }, ServiceReply::Client(client)) =>
                match client {
                    None => step::fail(AppError::ClientExecutableMissing),
                    Some(client) => step::say(
                        service_common::login_report("stoppingClient", "正在取消登录", "正在关闭战网客户端", 72),
                        CancelLogin::CheckingClient { session_id, restart, client },
                    ),
                },
            (
                CancelLogin::CheckingClient { session_id, restart, client },
                ServiceReply::Flag(running),
            ) => match running {
                Err(error) => step::fail(error),
                Ok(true) => step::go(CancelLogin::Stopping { session_id, restart, client }),
                Ok(false) => step::go(
                    CancelLogin::ConfirmingStopped { session_id, restart, client },
                ),
            },
            (
                CancelLogin::Stopping { session_id, restart, client },
                ServiceReply::Done(done),
            ) => match done {
                Err(error) => step::fail(error),
                Ok(_) => step::go(CancelLogin::ConfirmingStopped { session_id, restart, client }),
            },
            (
                CancelLogin::ConfirmingStopped { session_id, restart, client },
                ServiceReply::Done(done),
            ) => match done {
                Err(error) => step::fail(error),
                Ok(_) => step::say(
                    service_common::login_report("rollingBack", "正在取消登录", "正在恢复登录前状态", 84),
                    CancelLogin::RollingBack { session_id, restart, client },
                ),
            },
            (
                CancelLogin::RollingBack { session_id: _, restart, client },
                ServiceReply::Done(done),
            ) => match done {
                Err(error) => step::fail(error),
                Ok(_) => if restart {
                    step::say(
                        service_common::login_report("launchingClient", "正在取消登录", "正在启动战网客户端", 94),
                        CancelLogin::Launching { client },
                    )
                } else {
                    cancelled()
                },
            },
            (CancelLogin::Launching { client: _ }, ServiceReply::Done(done)) => match done {
                Err(error) => step::fail(error),
                Ok(_) => step::go(CancelLogin::Starting),
            },
            (CancelLogin::Starting, ServiceReply::Done(done)) => match done {
                Err(error) => step::fail(error),
                Ok(_) => cancelled(),
            },
            (CancelLogin::Showing, ServiceReply::Snapshot(snapshot)) => match snapshot {
                Err(error) => step::fail(error),
                Ok(snapshot) => step::end(snapshot),
            },
            _ => step::give_up(),
        }
    }
}

/// Undoing a login that failed. Each state names the work that is to be done.
#[derive(Debug)]
pub enum RollbackFailedLogin {
    /// It is to be found out whether the client runs.
    CheckingClient { session_id: String },
    /// The client is to be stopped.
    Stopping { session_id: String },
    /// It is to be made sure that the client is stopped.
    ConfirmingStopped { session_id: String },
    /// The login is to be undone.
    RollingBack { session_id: String },
    /// Nothing but the report is to be done.
    Finishing,
}

impl RollbackFailedLogin {
    /// What the answer leads to.
    pub open spec fn next(self, reply: ServiceReply) -> StepView<RollbackFailedLogin, ()> {
        match (self, reply) {
            (RollbackFailedLogin::CheckingClient { session_id }, ServiceReply::Flag(running)) =>
                match running {
                    Err(error) => step::failing(error@),
                    Ok(true) => step::going(RollbackFailedLogin::Stopping { session_id }),
                    Ok(false) => step::going(
                        RollbackFailedLogin::ConfirmingStopped { session_id },
                    ),
                },
            (RollbackFailedLogin::Stopping { session_id }, ServiceReply::Done(done)) => match done {
                Err(error) => step::failing(error@),
                Ok(_) => step::going(RollbackFailedLogin::ConfirmingStopped { session_id }),
            },
            (RollbackFailedLogin::ConfirmingStopped { session_id }, ServiceReply::Done(done)) =>
                match done {
                    Err(error) => step::failing(error@),
                    Ok(_) => step::going(RollbackFailedLogin::RollingBack { session_id }),
                },
            (RollbackFailedLogin::RollingBack { session_id }, ServiceReply::Done(done)) =>
                match done {
                    Err(error) => step::failing(error@),
                    Ok(_) => step::saying(
                        service_common::login_event("completed"@, "登录未完成"@, "已恢复登录前的战网配置"@, 100),
                        RollbackFailedLogin::Finishing,
                    ),
                },
            (RollbackFailedLogin::Finishing, ServiceReply::Reported) => step::ending(()),
            _ => step::confused(),
        }
    }

    /// Takes the answer.
    pub fn resume(self, reply: ServiceReply) -> (step: Step<RollbackFailedLogin, ()>)
        ensures
            step@ == self.next(reply),
    {
        match (self, reply) {
            (RollbackFailedLogin::CheckingClient { session_id }, ServiceReply::Flag(running)) =>
                match running {
                    Err(error) => step::fail(error),
                    Ok(true) => step::go(RollbackFailedLogin::Stopping { session_id }),
                    Ok(false) => step::go(RollbackFailedLogin::ConfirmingStopped { session_id }),
                },
            (RollbackFailedLogin::Stopping { session_id }, ServiceReply::Done(done)) => match done {
                Err(error) => step::fail(error),
                Ok(_) => step::go(RollbackFailedLogin::ConfirmingStopped { session_id }),
            },
            (RollbackFailedLogin::ConfirmingStopped { session_id }, ServiceReply::Done(done)) =>
                match done {
                    Err(error) => step::fail(error),
                    Ok(_) => step::go(RollbackFailedLogin::RollingBack { session_id }),
                },
            (RollbackFailedLogin::RollingBack { session_id: _ }, ServiceReply::Done(done)) =>
                match done {
                    Err(error) => step::fail(error),
                    Ok(_) => step::say(
                        service_common::login_report("completed", "登录未完成", "已恢复登录前的战网配置", 100),
                        RollbackFailedLogin::Finishing,
                    ),
                },
            (RollbackFailedLogin::Finishing, ServiceReply::Reported) => step::end(()),
            _ => step::give_up(),
        }
    }
}

impl WindowsPlatformService {
    /// Begins to log an account in.
    pub fn begin_login(&self, intent: LoginIntent) -> (operation: StartLogin)
        ensures
            operation == (StartLogin::Locking { intent }),
    {
        StartLogin::Locking { intent }
    }

    /// Begins to cancel the login.
    pub fn cancel_login(&self, session_id: &str) -> (operation: CancelLogin)
        ensures
            operation matches CancelLogin::Locking { session_id: id } && id@ == session_id@,
    {
        CancelLogin::Locking { session_id: session_id.to_owned() }
    }

    /// Begins to cancel the login while the lock is held.
    pub fn cancel_login_after_lock(&self, session_id: &str) -> (operation: CancelLogin)
        ensures
            operation matches CancelLogin::CheckingRestart { session_id: id } && id@ == session_id@,
    {
        CancelLogin::CheckingRestart { session_id: session_id.to_owned() }
    }

    /// Begins to undo the login that failed, while the lock is held.
    pub fn rollback_failed_login_after_lock(&self, session_id: &str) -> (step: Step<
        RollbackFailedLogin,
        (),
    >)
        ensures
            step matches Step::Perform {
                operation: RollbackFailedLogin::CheckingClient { session_id: id },
                report: Some(event),
            } && id@ == session_id@ && event@ == service_common::login_event(
                "rollingBack"@,
                "登录未完成"@,
                "正在恢复登录前的战网配置"@,
                70,
            ),
    {
        Step::Perform {
            operation: RollbackFailedLogin::CheckingClient { session_id: session_id.to_owned() },
            report: Some(
                service_common::login_report("rollingBack", "登录未完成", "正在恢复登录前的战网配置", 70),
            ),
        }
    }
}

/// A login is undone, whether cancelled or failed, only right after the client was
/// confirmed to be stopped.
pub proof fn law_login_is_undone_only_while_stopped(
    cancel: CancelLogin,
    failed: RollbackFailedLogin,
    reply: ServiceReply,
)
    ensures
        cancel.next(reply) matches StepView::Perform {
            operation: CancelLogin::RollingBack { .. },
            ..
        } ==> cancel is ConfirmingStopped && reply is Done && reply->Done_0 is Ok,
        failed.next(reply) matches StepView::Perform {
            operation: RollbackFailedLogin::RollingBack { .. },
            ..
        } ==> failed is ConfirmingStopped && reply is Done && reply->Done_0 is Ok,
{
}

impl StartLogin {
    /// How the operation goes on.
    pub open spec fn steps() -> spec_fn(StartLogin, ServiceReply) -> StepView<
        StartLogin,
        AppSnapshot,
    > {
        |operation: StartLogin, reply: ServiceReply| operation.next(reply)
    }
}

/// Beginning a login succeeds exactly where, in this order, the lock was taken, a pending
/// recovery was carried out, no other login was waiting, the client was found, a client
/// that was running was stopped, its files settled, its database was read or was not
/// there, the client was confirmed to be stopped, the authentication values were read, the
/// login was begun in the slot with these values and this account, the client was started
/// for the region of the account, and the application was shown.
pub proof fn law_login_begins_with_all_its_work_in_order(
    intent: LoginIntent,
    run: Seq<Moment<StartLogin, ServiceReply>>,
)
    requires
        step::is_run(StartLogin::steps(), StartLogin::Locking { intent }, run),
    ensures
        step::result_of(StartLogin::steps(), run) is Ok <==> {
            let k: int = if run[4].reply.flag() == Some(true) {
                1
            } else {
                0
            };
            let job = LoginJob {
                intent,
                client: run[3].reply->Client_0->0,
                was_running: k == 1,
            };
            let previous = match run[7 + k].reply.catalog() {
                Some(catalog) => catalog.current_account_key,
                None => None,
            };
            let session = BeginJob {
                intent,
                previous_client_was_running: k == 1,
                previous_account: previous,
                authentication_baseline: run[9 + k].reply->Baseline_0->Ok_0,
            };
            let region = crate::contracts::region_of(intent.account().environment@);
            &&& run.len() == 13 + k
            &&& run[0].reply.is_done()
            &&& run[1].operation == (StartLogin::Recovering { intent })
            &&& run[1].reply.is_done()
            &&& run[2].operation == (StartLogin::CheckingSession { intent })
            &&& run[2].reply == ServiceReply::Session(Ok(None))
            &&& run[3].operation == (StartLogin::ResolvingClient { intent })
            &&& run[3].reply is Client
            &&& run[3].reply->Client_0 is Some
            &&& run[4].operation == (StartLogin::CheckingClient { intent, client: job.client })
            &&& run[4].reply.flag() is Some
            &&& run[5].operation == (StartLogin::Preparing { job })
            &&& run[5].reply is Reported
            &&& k == 1 ==> run[6].operation == (StartLogin::Stopping { job })
            &&& k == 1 ==> run[6].reply.is_done()
            &&& run[6 + k].operation == (StartLogin::Settling { job })
            &&& run[6 + k].reply.is_done()
            &&& run[7 + k].operation == (StartLogin::ReadingCatalog { job })
            &&& run[7 + k].reply.catalog() is Some || run[7 + k].reply == ServiceReply::Catalog(
                Err(AppError::AccountDatabaseMissing),
            )
            &&& run[8 + k].operation == (StartLogin::ConfirmingStopped { job, previous })
            &&& run[8 + k].reply.is_done()
            &&& run[9 + k].operation == (StartLogin::Capturing { job, previous })
            &&& run[9 + k].reply.values() is Some
            &&& run[10 + k].operation == (StartLogin::Beginning { client: job.client, region, session })
            &&& run[10 + k].reply is Begun
            &&& run[10 + k].reply->Begun_0 is Ok
            &&& run[11 + k].operation == (StartLogin::Launching {
                client: job.client,
                region,
                id: run[10 + k].reply->Begun_0->Ok_0.id,
            })
            &&& run[11 + k].reply.is_done()
            &&& run[12 + k].operation is Showing
            &&& run[12 + k].reply is Snapshot
            &&& run[12 + k].reply->Snapshot_0 is Ok
        },
        step::result_of(StartLogin::steps(), run) is Ok ==> {
            let k: int = if run[4].reply.flag() == Some(true) {
                1
            } else {
                0
            };
            let job = LoginJob {
                intent,
                client: run[3].reply->Client_0->0,
                was_running: k == 1,
            };
            let previous = match run[7 + k].reply.catalog() {
                Some(catalog) => catalog.current_account_key,
                None => None,
            };
            let session = BeginJob {
                intent,
                previous_client_was_running: k == 1,
                previous_account: previous,
                authentication_baseline: run[9 + k].reply->Baseline_0->Ok_0,
            };
            let region = crate::contracts::region_of(intent.account().environment@);
            step::result_of(StartLogin::steps(), run) == Ok::<AppSnapshot, ErrorView>(run.last().reply->Snapshot_0->Ok_0@)
        },
        run.len() <= 16,
{
    let steps = StartLogin::steps();
    assert(step::follows(steps, run, 0));
    if run.len() > 1 {
        assert(step::follows(steps, run, 1));
    }
    if run.len() > 2 {
        assert(step::follows(steps, run, 2));
    }
    if run.len() > 3 {
        assert(step::follows(steps, run, 3));
    }
    if run.len() > 4 {
        assert(step::follows(steps, run, 4));
    }
    if run.len() > 5 {
        assert(step::follows(steps, run, 5));
    }
    if run.len() > 6 {
        assert(step::follows(steps, run, 6));
    }
    if run.len() > 7 {
        assert(step::follows(steps, run, 7));
    }
    if run.len() > 8 {
        assert(step::follows(steps, run, 8));
    }
    if run.len() > 9 {
        assert(step::follows(steps, run, 9));
    }
    if run.len() > 10 {
        assert(step::follows(steps, run, 10));
    }
    if run.len() > 11 {
        assert(step::follows(steps, run, 11));
    }
    if run.len() > 12 {
        assert(step::follows(steps, run, 12));
    }
    if run.len() > 13 {
        assert(step::follows(steps, run, 13));
    }
    if run.len() > 14 {
        assert(step::follows(steps, run, 14));
    }
    if run.len() > 15 {
        assert(step::follows(steps, run, 15));
    }
}

impl StartLogin {
    /// Whether the answer is one to the work that is to be done.
    pub open spec fn takes(self, reply: ServiceReply) -> bool {
        match self {
            StartLogin::CheckingSession { .. } => reply is Session,
            StartLogin::ResolvingClient { .. } => reply is Client,
            StartLogin::CheckingClient { .. } => reply is Flag,
            StartLogin::Preparing { .. } => reply is Reported,
            StartLogin::ReadingCatalog { .. } => reply is Catalog,
            StartLogin::Capturing { .. } => reply is Baseline,
            StartLogin::Beginning { .. } => reply is Begun,
            StartLogin::Showing => reply is Snapshot,
            _ => reply is Done,
        }
    }

    /// The client that is stopped for the login.
    pub open spec fn stopped_client(self) -> Option<String> {
        match self {
            StartLogin::Settling { job } => Some(job.client),
            StartLogin::ReadingCatalog { job } => Some(job.client),
            StartLogin::ConfirmingStopped { job, .. } => Some(job.client),
            StartLogin::Capturing { job, .. } => Some(job.client),
            StartLogin::Beginning { client, .. } => Some(client),
            _ => None,
        }
    }

    /// Whether the client that is stopped was running before.
    pub open spec fn had_client(self) -> bool {
        match self {
            StartLogin::Settling { job } => job.was_running,
            StartLogin::ReadingCatalog { job } => job.was_running,
            StartLogin::ConfirmingStopped { job, .. } => job.was_running,
            StartLogin::Capturing { job, .. } => job.was_running,
            StartLogin::Beginning { session, .. } => session.previous_client_was_running,
            _ => false,
        }
    }
}

/// What a failure in beginning a login leads to. Before the client was stopped, and once it
/// was started for the login, it ends the operation with its error. After the stop, until the
/// login is begun, a client that was running is started again, and the operation ends with
/// the error; a database that is not there is no failure. Where the client cannot be started
/// for the login, the login that was begun is undone.
pub proof fn law_failed_work_of_beginning_a_login(
    intent: LoginIntent,
    run: Seq<Moment<StartLogin, ServiceReply>>,
    i: int,
)
    requires
        step::is_run(StartLogin::steps(), StartLogin::Locking { intent }, run),
        0 <= i < run.len(),
        run[i].operation.takes(run[i].reply),
        run[i].reply.failure() is Some,
        run[i].reply != ServiceReply::Catalog(Err(AppError::AccountDatabaseMissing)),
    ensures
        run[i].operation is Locking || run[i].operation is Recovering || run[i].operation
            is CheckingSession || run[i].operation is CheckingClient || run[i].operation
            is Stopping || run[i].operation is Showing || (run[i].operation.stopped_client() is Some
            && !run[i].operation.had_client()) ==> i == run.len() - 1 && step::result_of(
            StartLogin::steps(),
            run,
        ) == Err::<AppSnapshot, ErrorView>(run[i].reply.failure()->0),
        run[i].operation.stopped_client() is Some && run[i].operation.had_client() ==> {
            let client = run[i].operation.stopped_client()->0;
            &&& i + 2 == run.len()
            &&& run[i + 1].operation is Restarting || run[i + 1].operation is RestartingQuietly
            &&& run[i + 1].operation is Restarting ==> run[i + 1].operation->Restarting_client
                == client
            &&& run[i + 1].operation is RestartingQuietly
                ==> run[i + 1].operation->RestartingQuietly_client == client
            &&& run[i + 1].reply.is_done() ==> step::result_of(StartLogin::steps(), run) == Err::<
                AppSnapshot,
                ErrorView,
            >(run[i].reply.failure()->0)
            &&& step::result_of(StartLogin::steps(), run) is Err
        },
        run[i].operation is Launching ==> {
            &&& i + 2 == run.len()
            &&& run[i + 1].operation is RollingBack
            &&& run[i + 1].operation->RollingBack_id == run[i].operation->Launching_id
            &&& run[i + 1].reply.is_done() ==> step::result_of(StartLogin::steps(), run) == Err::<
                AppSnapshot,
                ErrorView,
            >(run[i].reply.failure()->0)
            &&& step::result_of(StartLogin::steps(), run) is Err
        },
{
    let steps = StartLogin::steps();
    assert(step::follows(steps, run, i));
    if i + 1 < run.len() {
        assert(step::follows(steps, run, i + 1));
    }
}

impl CancelLogin {
    /// How the operation goes on.
    pub open spec fn steps() -> spec_fn(CancelLogin, ServiceReply) -> StepView<
        CancelLogin,
        AppSnapshot,
    > {
        |operation: CancelLogin, reply: ServiceReply| operation.next(reply)
    }
}

/// Cancelling a login succeeds exactly where, in this order, the lock was taken, it was
/// found out whether the client was running before the login, the client was found, a
/// client that runs was stopped, it was confirmed to be stopped, the login with this name
/// was undone, a client that was running before was started again and came up, and the
/// application was shown. The first work that fails ends the operation with its error.
pub proof fn law_login_is_cancelled_by_undoing_it_while_stopped(
    session_id: String,
    run: Seq<Moment<CancelLogin, ServiceReply>>,
)
    requires
        step::is_run(CancelLogin::steps(), CancelLogin::Locking { session_id }, run),
    ensures
        step::result_of(CancelLogin::steps(), run) is Ok <==> {
            let k: int = if run[3].reply.flag() == Some(true) {
                1
            } else {
                0
            };
            let r: int = if run[1].reply.flag() == Some(true) {
                1
            } else {
                0
            };
            let restart = r == 1;
            let client = run[2].reply->Client_0->0;
            &&& run.len() == 7 + k + r + r
            &&& run[0].reply.is_done()
            &&& run[1].operation == (CancelLogin::CheckingRestart { session_id })
            &&& run[1].reply.flag() is Some
            &&& run[2].operation is ResolvingClient
            &&& run[2].reply is Client
            &&& run[2].reply->Client_0 is Some
            &&& run[3].operation == (CancelLogin::CheckingClient { session_id, restart, client })
            &&& run[3].reply.flag() is Some
            &&& k == 1 ==> run[4].operation == (CancelLogin::Stopping { session_id, restart, client })
            &&& k == 1 ==> run[4].reply.is_done()
            &&& run[4 + k].operation == (CancelLogin::ConfirmingStopped { session_id, restart, client })
            &&& run[4 + k].reply.is_done()
            &&& run[5 + k].operation == (CancelLogin::RollingBack { session_id, restart, client })
            &&& run[5 + k].reply.is_done()
            &&& r == 1 ==> run[6 + k].operation == (CancelLogin::Launching { client })
            &&& r == 1 ==> run[6 + k].reply.is_done()
            &&& r == 1 ==> run[6 + k + r].operation is Starting
            &&& r == 1 ==> run[6 + k + r].reply.is_done()
            &&& run[6 + k + r + r].operation is Showing
            &&& run[6 + k + r + r].reply is Snapshot
            &&& run[6 + k + r + r].reply->Snapshot_0 is Ok
        },
        step::result_of(CancelLogin::steps(), run) is Ok ==> {
            let k: int = if run[3].reply.flag() == Some(true) {
                1
            } else {
                0
            };
            let r: int = if run[1].reply.flag() == Some(true) {
                1
            } else {
                0
            };
            let restart = r == 1;
            let client = run[2].reply->Client_0->0;
            step::result_of(CancelLogin::steps(), run) == Ok::<AppSnapshot, ErrorView>(run.last().reply->Snapshot_0->Ok_0@)
        },
        forall|i: int|
            0 <= i < run.len() && #[trigger] run[i].reply.failure() is Some && (match run[i].operation {
                CancelLogin::CheckingRestart { .. } | CancelLogin::CheckingClient { .. } => run[i].reply
                    is Flag,
                CancelLogin::ResolvingClient { .. } => false,
                CancelLogin::Showing => run[i].reply is Snapshot,
                _ => run[i].reply is Done,
            }) ==> i == run.len() - 1 && step::result_of(CancelLogin::steps(), run) == Err::<AppSnapshot, ErrorView>(run[i].reply.failure()->0),
        run.len() <= 10,
{
    let steps = CancelLogin::steps();
    assert(step::follows(steps, run, 0));
    if run.len() > 1 {
        assert(step::follows(steps, run, 1));
    }
    if run.len() > 2 {
        assert(step::follows(steps, run, 2));
    }
    if run.len() > 3 {
        assert(step::follows(steps, run, 3));
    }
    if run.len() > 4 {
        assert(step::follows(steps, run, 4));
    }
    if run.len() > 5 {
        assert(step::follows(steps, run, 5));
    }
    if run.len() > 6 {
        assert(step::follows(steps, run, 6));
    }
    if run.len() > 7 {
        assert(step::follows(steps, run, 7));
    }
    if run.len() > 8 {
        assert(step::follows(steps, run, 8));
    }
    if run.len() > 9 {
        assert(step::follows(steps, run, 9));
    }
}

impl RollbackFailedLogin {
    /// How the operation goes on.
    pub open spec fn steps() -> spec_fn(RollbackFailedLogin, ServiceReply) -> StepView<
        RollbackFailedLogin,
        (),
    > {
        |operation: RollbackFailedLogin, reply: ServiceReply| operation.next(reply)
    }
}

/// Undoing a login that failed succeeds exactly where a client that runs was stopped, it
/// was confirmed to be stopped, and the login with this name was undone. The first work
/// that fails ends the operation with its error.
pub proof fn law_failed_login_is_undone_while_stopped(
    session_id: String,
    run: Seq<Moment<RollbackFailedLogin, ServiceReply>>,
)
    requires
        step::is_run(RollbackFailedLogin::steps(), RollbackFailedLogin::CheckingClient { session_id }, run),
    ensures
        step::result_of(RollbackFailedLogin::steps(), run) is Ok <==> {
            let k: int = if run[0].reply.flag() == Some(true) {
                1
            } else {
                0
            };
            &&& run.len() == 4 + k
            &&& run[0].reply.flag() is Some
            &&& k == 1 ==> run[1].operation == (RollbackFailedLogin::Stopping { session_id })
            &&& k == 1 ==> run[1].reply.is_done()
            &&& run[1 + k].operation == (RollbackFailedLogin::ConfirmingStopped { session_id })
            &&& run[1 + k].reply.is_done()
            &&& run[2 + k].operation == (RollbackFailedLogin::RollingBack { session_id })
            &&& run[2 + k].reply.is_done()
            &&& run[3 + k].operation is Finishing
            &&& run[3 + k].reply is Reported
        },
        forall|i: int|
            0 <= i < run.len() && #[trigger] run[i].reply.failure() is Some && (match run[i].operation {
                RollbackFailedLogin::CheckingClient { .. } => run[i].reply is Flag,
                RollbackFailedLogin::Finishing => false,
                _ => run[i].reply is Done,
            }) ==> i == run.len() - 1 && step::result_of(RollbackFailedLogin::steps(), run) == Err::<(), ErrorView>(run[i].reply.failure()->0),
        run.len() <= 5,
{
    let steps = RollbackFailedLogin::steps();
    assert(step::follows(steps, run, 0));
    if run.len() > 1 {
        assert(step::follows(steps, run, 1));
    }
    if run.len() > 2 {
        assert(step::follows(steps, run, 2));
    }
    if run.len() > 3 {
        assert(step::follows(steps, run, 3));
    }
    if run.len() > 4 {
        assert(step::follows(steps, run, 4));
    }
}

} // verus!
