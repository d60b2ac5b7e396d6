//! Beginning and cancelling a login on macOS.

use vstd::prelude::*;

use crate::contracts;
use crate::contracts::AppSnapshot;
use crate::contracts::LoginIntent;
use crate::contracts::LoginRegion;
use crate::error::AppError;
use crate::error::ErrorView;
use crate::platform::macos::app_service;
use crate::platform::macos::app_service::MacosPlatformService;
use crate::platform::macos::app_service::ServiceReply;
use crate::platform::macos::process::ValidatedClient;
use crate::platform::macos::recovery::RecoveryContext;
use crate::platform::macos::recovery::RecoveryEnvelope;
use crate::platform::macos::recovery::RecoveryKind;
use crate::platform::macos::secure_snapshot::SecurePayload;
use crate::service_common;
use crate::step::Moment;
use crate::step;
use crate::step::Step;
use crate::step::StepView;

verus! {

/// A login that is prepared.
#[derive(Debug)]
pub struct LoginJob {
    pub intent: LoginIntent,
    pub client: ValidatedClient,
    pub was_running: bool,
}

/// A login that is in the slot, and can be undone.
#[derive(Debug)]
pub struct PreparedLogin {
    pub id: String,
    pub client: ValidatedClient,
    pub region: Option<LoginRegion>,
}

/// Beginning a login: the client is stopped, its state is put in the slot, it is logged
/// out, and it is started for the login. Each state names the work that is to be done.
#[derive(Debug)]
pub enum StartLogin {
    /// The lock is to be taken.
    Locking { intent: LoginIntent },
    /// The slot is to be read.
    CheckingIdle { intent: LoginIntent },
    /// The client is to be found.
    ResolvingClient { intent: LoginIntent },
    /// It is to be found out whether the client's main process runs.
    CheckingMain { intent: LoginIntent, client: ValidatedClient },
    /// It is to be found out whether the client runs.
    CheckingClient { job: LoginJob },
    /// The client is to be stopped.
    Stopping { job: LoginJob },
    /// It is to be made sure that the client is stopped.
    ConfirmingStopped { job: LoginJob },
    /// The client's state is to be read.
    Capturing { job: LoginJob },
    /// The login is to be prepared in the slot, with the client's state from before it.
    Preparing { job: LoginJob, before: SecurePayload },
    /// The authentication values are to be cleared.
    Clearing { prepared: PreparedLogin },
    /// The record is to be moved to waiting for the user.
    Moving { prepared: PreparedLogin },
    /// The client is to be started for a login in the region.
    Launching { prepared: PreparedLogin },
    /// The application is to be shown.
    Showing,
    /// The login that failed is to be undone.
    Undoing { id: String, client: ValidatedClient, error: AppError },
}

/// The step after a failure once the login is in the slot: it is undone.
pub open spec fn undone(prepared: PreparedLogin, error: AppError) -> StepView<
    StartLogin,
    AppSnapshot,
> {
    step::going(StartLogin::Undoing { id: prepared.id, client: prepared.client, error })
}

fn undo(prepared: PreparedLogin, error: AppError) -> (step: Step<StartLogin, AppSnapshot>)
    ensures
        step@ == undone(prepared, error),
{
    step::go(StartLogin::Undoing { id: prepared.id, client: prepared.client, error })
}

/// What the slot holds for a login: the client's state from before it, and what was asked
/// for. Which account that state belongs to is not known.
pub fn login_envelope(job: &LoginJob, before: SecurePayload) -> (envelope: RecoveryEnvelope)
    ensures
        envelope == (RecoveryEnvelope {
            before,
            context: RecoveryContext::Login { intent: job.intent, previous_account: None },
        }),
{
    RecoveryEnvelope {
        before,
        context: RecoveryContext::Login { intent: job.intent.clone(), previous_account: None },
    }
}

impl StartLogin {
    /// What the answer leads to.
    pub open spec fn next(self, reply: ServiceReply) -> StepView<StartLogin, AppSnapshot> {
        match (self, reply) {
            (StartLogin::Locking { intent }, ServiceReply::Done(done)) => match done {
                Err(error) => step::failing(error@),
                Ok(_) => step::going(StartLogin::CheckingIdle { intent }),
            },
            (StartLogin::CheckingIdle { intent }, ServiceReply::Record(record)) =>
                match app_service::busy_error(record) {
                    Some(error) => step::failing(error),
                    None => step::going(StartLogin::ResolvingClient { intent }),
                },
            (StartLogin::ResolvingClient { intent }, ServiceReply::Client(client)) => match client {
                Err(error) => step::failing(error@),
                Ok(client) => step::going(StartLogin::CheckingMain { intent, client }),
            },
            (StartLogin::CheckingMain { intent, client }, ServiceReply::Flag(running)) =>
                match running {
                    Err(error) => step::failing(error@),
                    Ok(was_running) => step::saying(
                        service_common::login_event(
                            "preparing"@,
                            "正在准备登录"@,
                            "正在保存当前战网配置"@,
                            8,
                        ),
                        StartLogin::CheckingClient { job: LoginJob { intent, client, was_running } },
                    ),
                },
            (StartLogin::CheckingClient { job }, ServiceReply::Flag(running)) => match running {
                Err(error) => step::failing(error@),
                Ok(true) => step::saying(
                    service_common::login_event(
                        "stoppingClient"@,
                        "正在准备登录"@,
                        "正在安全关闭战网客户端"@,
                        16,
                    ),
                    StartLogin::Stopping { job },
                ),
                Ok(false) => step::going(StartLogin::ConfirmingStopped { job }),
            },
            (StartLogin::Stopping { job }, ServiceReply::Done(done)) => match done {
                Err(error) => step::failing(error@),
                Ok(_) => step::going(StartLogin::ConfirmingStopped { job }),
            },
            (StartLogin::ConfirmingStopped { job }, ServiceReply::Done(done)) => match done {
                Err(error) => step::failing(error@),
                Ok(_) => step::going(StartLogin::Capturing { job }),
            },
            (StartLogin::Capturing { job }, ServiceReply::Payload(captured)) => match captured {
                Err(error) => step::failing(error@),
                Ok(before) => step::going(StartLogin::Preparing { job, before }),
            },
            (StartLogin::Preparing { job, .. }, ServiceReply::Recorded(recorded)) => match recorded {
                Err(error) => step::failing(error@),
                Ok(record) => step::saying(
                    service_common::login_event(
                        "clearingPointer"@,
                        "正在准备登录"@,
                        "正在清除当前自动登录状态"@,
                        24,
                    ),
                    StartLogin::Clearing {
                        prepared: PreparedLogin {
                            id: record.id,
                            client: job.client,
                            region: contracts::region_of(job.intent.account().environment@),
                        },
                    },
                ),
            },
            (StartLogin::Clearing { prepared }, ServiceReply::Done(done)) => match done {
                Err(error) => undone(prepared, error),
                Ok(_) => step::going(StartLogin::Moving { prepared }),
            },
            (StartLogin::Moving { prepared }, ServiceReply::Recorded(moved)) => match moved {
                Err(error) => step::failing(error@),
                Ok(_) => step::going(StartLogin::Launching { prepared }),
            },
            (StartLogin::Launching { prepared }, ServiceReply::Done(done)) => match done {
                Err(error) => undone(prepared, error),
                Ok(_) => step::saying(
                    service_common::login_event(
                        "awaitingUser"@,
                        "请在战网客户端中完成登录"@,
                        "登录成功后将自动保存"@,
                        32,
                    ),
                    StartLogin::Showing,
                ),
            },
            (StartLogin::Showing, ServiceReply::Snapshot(snapshot)) => match snapshot {
                Err(error) => step::failing(error@),
                Ok(snapshot) => step::ending(snapshot),
            },
            (StartLogin::Undoing { .. }, ServiceReply::Snapshot(snapshot)) => match snapshot {
                Err(error) => step::failing(error@),
                Ok(snapshot) => step::ending(snapshot),
            },
            _ => step::confused(),
        }
    }

    /// Takes the answer.
    pub fn resume(self, reply: ServiceReply) -> (step: Step<StartLogin, AppSnapshot>)
        ensures
            step@ == self.next(reply),
    {
        match (self, reply) {
            (StartLogin::Locking { intent }, ServiceReply::Done(done)) => match done {
                Err(error) => step::fail(error),
                Ok(_) => step::go(StartLogin::CheckingIdle { intent }),
            },
            (StartLogin::CheckingIdle { intent }, ServiceReply::Record(record)) =>
                match app_service::ensure_idle(record) {
                    Err(error) => step::fail(error),
                    Ok(_) => step::go(StartLogin::ResolvingClient { intent }),
                },
            (StartLogin::ResolvingClient { intent }, ServiceReply::Client(client)) => match client {
                Err(error) => step::fail(error),
                Ok(client) => step::go(StartLogin::CheckingMain { intent, client }),
            },
            (StartLogin::CheckingMain { intent, client }, ServiceReply::Flag(running)) =>
                match running {
                    Err(error) => step::fail(error),
                    Ok(was_running) => step::say(
                        service_common::login_report(
                            "preparing",
                            "正在准备登录",
                            "正在保存当前战网配置",
                            8,
                        ),
                        StartLogin::CheckingClient { job: LoginJob { intent, client, was_running } },
                    ),
                },
            (StartLogin::CheckingClient { job }, ServiceReply::Flag(running)) => match running {
                Err(error) => step::fail(error),
                Ok(true) => step::say(
                    service_common::login_report(
                        "stoppingClient",
                        "正在准备登录",
                        "正在安全关闭战网客户端",
                        16,
                    ),
                    StartLogin::Stopping { job },
                ),
                Ok(false) => step::go(StartLogin::ConfirmingStopped { job }),
            },
            (StartLogin::Stopping { job }, ServiceReply::Done(done)) => match done {
                Err(error) => step::fail(error),
                Ok(_) => step::go(StartLogin::ConfirmingStopped { job }),
            },
            (StartLogin::ConfirmingStopped { job }, ServiceReply::Done(done)) => match done {
                Err(error) => step::fail(error),
                Ok(_) => step::go(StartLogin::Capturing { job }),
            },
            (StartLogin::Capturing { job }, ServiceReply::Payload(captured)) => match captured {
                Err(error) => step::fail(error),
                Ok(before) => step::go(StartLogin::Preparing { job, before }),
            },
            (StartLogin::Preparing { job, .. }, ServiceReply::Recorded(recorded)) => match recorded {
                Err(error) => step::fail(error),
                Ok(record) => {
                    let region = job.intent.requested_region();
                    step::say(
                        service_common::login_report(
                            "clearingPointer",
                            "正在准备登录",
                            "正在清除当前自动登录状态",
                            24,
                        ),
                        StartLogin::Clearing {
                            prepared: PreparedLogin { id: record.id, client: job.client, region },
                        },
                    )
                },
            },
            (StartLogin::Clearing { prepared }, ServiceReply::Done(done)) => match done {
                Err(error) => undo(prepared, error),
                Ok(_) => step::go(StartLogin::Moving { prepared }),
            },
            (StartLogin::Moving { prepared }, ServiceReply::Recorded(moved)) => match moved {
                Err(error) => step::fail(error),
                Ok(_) => step::go(StartLogin::Launching { prepared }),
            },
            (StartLogin::Launching { prepared }, ServiceReply::Done(done)) => match done {
                Err(error) => undo(prepared, error),
                Ok(_) => step::say(
                    service_common::login_report(
                        "awaitingUser",
                        "请在战网客户端中完成登录",
                        "登录成功后将自动保存",
                        32,
                    ),
                    StartLogin::Showing,
                ),
            },
            (StartLogin::Showing, ServiceReply::Snapshot(snapshot)) => match snapshot {
                Err(error) => step::fail(error),
                Ok(snapshot) => step::end(snapshot),
            },
            (StartLogin::Undoing { .. }, ServiceReply::Snapshot(snapshot)) => match snapshot {
                Err(error) => step::fail(error),
                Ok(snapshot) => step::end(snapshot),
            },
            _ => step::give_up(),
        }
    }
}

/// What the beginning of a login has come to after the answers.
pub open spec fn started(intent: LoginIntent, replies: Seq<ServiceReply>) -> StepView<
    StartLogin,
    AppSnapshot,
>
    decreases replies.len(),
{
    if replies.len() == 0 {
        step::going(StartLogin::Locking { intent })
    } else {
        match started(intent, replies.drop_last()) {
            StepView::Perform { operation, .. } => operation.next(replies.last()),
            finished => finished,
        }
    }
}

/// What the operation keeps of the login that was asked for.
pub open spec fn keeps_intent(operation: StartLogin, intent: LoginIntent) -> bool {
    match operation {
        StartLogin::Locking { intent: kept }
        | StartLogin::CheckingIdle { intent: kept }
        | StartLogin::ResolvingClient { intent: kept }
        | StartLogin::CheckingMain { intent: kept, .. } => kept == intent,
        StartLogin::CheckingClient { job }
        | StartLogin::Stopping { job }
        | StartLogin::ConfirmingStopped { job }
        | StartLogin::Capturing { job }
        | StartLogin::Preparing { job, .. } => job.intent == intent,
        StartLogin::Clearing { prepared }
        | StartLogin::Moving { prepared }
        | StartLogin::Launching { prepared } => prepared.region == contracts::region_of(
            intent.account().environment@,
        ),
        _ => true,
    }
}

/// A login is prepared for the account that was asked for, and the client is started for
/// that account's region.
pub proof fn law_login_is_begun_as_asked(intent: LoginIntent, replies: Seq<ServiceReply>)
    ensures
        started(intent, replies) matches StepView::Perform { operation, .. } ==> keeps_intent(
            operation,
            intent,
        ),
    decreases replies.len(),
{
    if replies.len() > 0 {
        law_login_is_begun_as_asked(intent, replies.drop_last());
    }
}

/// The client's state is read only right after the client was confirmed to be stopped; it
/// is logged out only once that state is in the slot, and started for the login only once
/// the record waits for the user.
pub proof fn law_login_steps_are_guarded(operation: StartLogin, reply: ServiceReply)
    ensures
        operation.next(reply) matches StepView::Perform {
            operation: StartLogin::Capturing { .. },
            ..
        } ==> operation is ConfirmingStopped && reply is Done && reply->Done_0 is Ok,
        operation.next(reply) matches StepView::Perform {
            operation: StartLogin::Clearing { prepared },
            ..
        } ==> operation is Preparing && reply is Recorded && reply->Recorded_0 is Ok && prepared.id
            == reply->Recorded_0->Ok_0.id,
        operation.next(reply) matches StepView::Perform {
            operation: StartLogin::Launching { prepared },
            ..
        } ==> operation == (StartLogin::Moving { prepared }) && reply is Recorded
            && reply->Recorded_0 is Ok,
{
}

/// Where clearing the authentication values or starting the client fails, the login is
/// undone: the same record, with the failure as the reason.
pub proof fn law_prepared_login_is_undone_on_failure(
    operation: StartLogin,
    prepared: PreparedLogin,
    error: AppError,
)
    requires
        operation == (StartLogin::Clearing { prepared }) || operation == (StartLogin::Launching {
            prepared,
        }),
    ensures
        operation.next(ServiceReply::Done(Err(error))) == step::going::<StartLogin, AppSnapshot>(
            StartLogin::Undoing { id: prepared.id, client: prepared.client, error },
        ),
{
}

/// Cancelling a login: the client is stopped, the login is undone, and the client is
/// started again where it was running before. Each state names the work that is to be
/// done.
#[derive(Debug)]
pub enum CancelLogin {
    /// The lock is to be taken.
    Locking { session_id: String },
    /// The slot is to be read.
    ReadingRecord { session_id: String },
    /// The client is to be found.
    ResolvingClient { session_id: String, restart: bool },
    /// It is to be found out whether the client runs.
    CheckingClient { session_id: String, restart: bool, client: ValidatedClient },
    /// The client is to be stopped.
    Stopping { session_id: String, restart: bool, client: ValidatedClient },
    /// It is to be made sure that the client is stopped.
    ConfirmingStopped { session_id: String, restart: bool, client: ValidatedClient },
    /// The login is to be undone.
    RollingBack { session_id: String, restart: bool, client: ValidatedClient },
    /// The client is to be started.
    Launching { client: ValidatedClient },
    /// The client has to have started.
    Starting { client: ValidatedClient },
    /// The application is to be shown.
    Showing,
}

/// The step that reports that the login was cancelled.
pub open spec fn cancelled() -> StepView<CancelLogin, AppSnapshot> {
    step::saying(
        service_common::login_event("completed"@, "已取消登录"@, "登录前状态已恢复"@, 100),
        CancelLogin::Showing,
    )
}

fn cancel() -> (step: Step<CancelLogin, AppSnapshot>)
    ensures
        step@ == cancelled(),
{
    step::say(
        service_common::login_report("completed", "已取消登录", "登录前状态已恢复", 100),
        CancelLogin::Showing,
    )
}

impl CancelLogin {
    /// What the answer leads to.
    pub open spec fn next(self, reply: ServiceReply) -> StepView<CancelLogin, AppSnapshot> {
        match (self, reply) {
            (CancelLogin::Locking { session_id }, ServiceReply::Done(done)) => match done {
                Err(error) => step::failing(error@),
                Ok(_) => step::going(CancelLogin::ReadingRecord { session_id }),
            },
            (CancelLogin::ReadingRecord { session_id }, ServiceReply::Record(record)) =>
                match app_service::session_record(session_id@, record) {
                    Err(error) => step::failing(error),
                    Ok(record) => step::going(
                        CancelLogin::ResolvingClient {
                            session_id,
                            restart: record.previous_client_was_running,
                        },
                    ),
                },
            (CancelLogin::ResolvingClient { session_id, restart }, ServiceReply::Client(client)) =>
                match client {
                    Err(error) => step::failing(error@),
                    Ok(client) => step::saying(
                        service_common::login_event(
                            "stoppingClient"@,
                            "正在取消登录"@,
                            "正在关闭战网客户端"@,
                            72,
                        ),
                        CancelLogin::CheckingClient { session_id, restart, client },
                    ),
                },
            (
                CancelLogin::CheckingClient { session_id, restart, client },
                ServiceReply::Flag(running),
            ) => match running {
                Err(error) => step::failing(error@),
                Ok(true) => step::going(CancelLogin::Stopping { session_id, restart, client }),
                Ok(false) => step::going(
                    CancelLogin::ConfirmingStopped { session_id, restart, client },
                ),
            },
            (
                CancelLogin::Stopping { session_id, restart, client },
                ServiceReply::Done(done),
            ) => match done {
                Err(error) => step::failing(error@),
                Ok(_) => step::going(
                    CancelLogin::ConfirmingStopped { session_id, restart, client },
                ),
            },
            (
                CancelLogin::ConfirmingStopped { session_id, restart, client },
                ServiceReply::Done(done),
            ) => match done {
                Err(error) => step::failing(error@),
                Ok(_) => step::saying(
                    service_common::login_event(
                        "rollingBack"@,
                        "正在取消登录"@,
                        "正在恢复登录前状态"@,
                        84,
                    ),
                    CancelLogin::RollingBack { session_id, restart, client },
                ),
            },
            (CancelLogin::RollingBack { restart, client, .. }, ServiceReply::Done(done)) =>
                match done {
                    Err(error) => step::failing(error@),
                    Ok(_) => if restart {
                        step::saying(
                            service_common::login_event(
                                "launchingClient"@,
                                "正在取消登录"@,
                                "正在启动战网客户端"@,
                                94,
                            ),
                            CancelLogin::Launching { client },
                        )
                    } else {
                        cancelled()
                    },
                },
            (CancelLogin::Launching { client }, ServiceReply::Done(done)) => match done {
                Err(error) => step::failing(error@),
                Ok(_) => step::going(CancelLogin::Starting { client }),
            },
            (CancelLogin::Starting { .. }, ServiceReply::Done(done)) => match done {
                Err(error) => step::failing(error@),
                Ok(_) => cancelled(),
            },
            (CancelLogin::Showing, ServiceReply::Snapshot(snapshot)) => match snapshot {
                Err(error) => step::failing(error@),
                Ok(snapshot) => step::ending(snapshot),
            },
            _ => step::confused(),
        }
    }

    /// Takes the answer.
    pub fn resume(self, reply: ServiceReply) -> (step: Step<CancelLogin, AppSnapshot>)
        ensures
            step@ == self.next(reply),
    {
        match (self, reply) {
            (CancelLogin::Locking { session_id }, ServiceReply::Done(done)) => match done {
                Err(error) => step::fail(error),
                Ok(_) => step::go(CancelLogin::ReadingRecord { session_id }),
            },
            (CancelLogin::ReadingRecord { session_id }, ServiceReply::Record(record)) =>
                match app_service::require_login_record(session_id.as_str(), record) {
                    Err(error) => step::fail(error),
                    Ok(record) => step::go(
                        CancelLogin::ResolvingClient {
                            session_id,
                            restart: record.previous_client_was_running,
                        },
                    ),
                },
            (CancelLogin::ResolvingClient { session_id, restart }, ServiceReply::Client(client)) =>
                match client {
                    Err(error) => step::fail(error),
                    Ok(client) => step::say(
                        service_common::login_report(
                            "stoppingClient",
                            "正在取消登录",
                            "正在关闭战网客户端",
                            72,
                        ),
                        CancelLogin::CheckingClient { session_id, restart, client },
                    ),
                },
            (
                CancelLogin::CheckingClient { session_id, restart, client },
                ServiceReply::Flag(running),
            ) => match running {
                Err(error) => step::fail(error),
                Ok(true) => step::go(CancelLogin::Stopping { session_id, restart, client }),
                Ok(false) => step::go(
                    CancelLogin::ConfirmingStopped { session_id, restart, client },
                ),
            },
            (
                CancelLogin::Stopping { session_id, restart, client },
                ServiceReply::Done(done),
            ) => match done {
                Err(error) => step::fail(error),
                Ok(_) => step::go(
                    CancelLogin::ConfirmingStopped { session_id, restart, client },
                ),
            },
            (
                CancelLogin::ConfirmingStopped { session_id, restart, client },
                ServiceReply::Done(done),
            ) => match done {
                Err(error) => step::fail(error),
                Ok(_) => step::say(
                    service_common::login_report(
                        "rollingBack",
                        "正在取消登录",
                        "正在恢复登录前状态",
                        84,
                    ),
                    CancelLogin::RollingBack { session_id, restart, client },
                ),
            },
            (CancelLogin::RollingBack { restart, client, .. }, ServiceReply::Done(done)) =>
                match done {
                    Err(error) => step::fail(error),
                    Ok(_) => if restart {
                        step::say(
                            service_common::login_report(
                                "launchingClient",
                                "正在取消登录",
                                "正在启动战网客户端",
                                94,
                            ),
                            CancelLogin::Launching { client },
                        )
                    } else {
                        cancel()
                    },
                },
            (CancelLogin::Launching { client }, ServiceReply::Done(done)) => match done {
                Err(error) => step::fail(error),
                Ok(_) => step::go(CancelLogin::Starting { client }),
            },
            (CancelLogin::Starting { .. }, ServiceReply::Done(done)) => match done {
                Err(error) => step::fail(error),
                Ok(_) => cancel(),
            },
            (CancelLogin::Showing, ServiceReply::Snapshot(snapshot)) => match snapshot {
                Err(error) => step::fail(error),
                Ok(snapshot) => step::end(snapshot),
            },
            _ => step::give_up(),
        }
    }
}

impl MacosPlatformService {
    /// Begins to log an account in.
    pub fn begin_login(&self, intent: LoginIntent) -> (operation: StartLogin)
        ensures
            operation == (StartLogin::Locking { intent }),
    {
        StartLogin::Locking { intent }
    }

    /// Begins to cancel the login.
    pub fn cancel_login(&self, session_id: &str) -> (operation: CancelLogin)
        ensures
            operation matches CancelLogin::Locking { session_id: id } && id@ == session_id@,
    {
        CancelLogin::Locking { session_id: session_id.to_owned() }
    }

    /// Begins to cancel the login while the lock is held.
    pub fn cancel_login_after_lock(&self, session_id: &str) -> (operation: CancelLogin)
        ensures
            operation matches CancelLogin::ReadingRecord { session_id: id } && id@ == session_id@,
    {
        CancelLogin::ReadingRecord { session_id: session_id.to_owned() }
    }
}

/// A login is cancelled only where the slot holds its record, and undone only right after
/// the client was confirmed to be stopped.
pub proof fn law_login_is_undone_only_while_stopped(operation: CancelLogin, reply: ServiceReply)
    ensures
        operation.next(reply) matches StepView::Perform {
            operation: CancelLogin::ResolvingClient { session_id, restart },
            ..
        } ==> operation == (CancelLogin::ReadingRecord { session_id }) && reply is Record && (
        app_service::session_record(session_id@, reply->Record_0) matches Ok(record)
            && record.previous_client_was_running == restart),
        operation.next(reply) matches StepView::Perform {
            operation: CancelLogin::RollingBack { session_id, restart, client },
            ..
        } ==> operation == (CancelLogin::ConfirmingStopped { session_id, restart, client })
            && reply is Done && reply->Done_0 is Ok,
{
}

impl StartLogin {
    /// How the operation goes on.
    pub open spec fn steps() -> spec_fn(StartLogin, ServiceReply) -> StepView<
        StartLogin,
        AppSnapshot,
    > {
        |operation: StartLogin, reply: ServiceReply| operation.next(reply)
    }
}

/// Beginning a login that is not undone succeeds exactly where, in this order, the lock
/// was taken, the slot was empty, the client was found, a client that runs was stopped, it
/// was confirmed to be stopped, its state was read, the login was prepared with that
/// state, the authentication was cleared, the record was moved to waiting for the user,
/// the client was started for the region of the account, and the application was shown.
/// Where clearing or starting fails the prepared login is undone, with the failure as the
/// reason; every other failure ends it with its error.
#[verifier::rlimit(40)]
pub proof fn law_login_begins_with_all_its_work_in_order(
    intent: LoginIntent,
    run: Seq<Moment<StartLogin, ServiceReply>>,
)
    requires
        step::is_run(StartLogin::steps(), StartLogin::Locking { intent }, run),
    ensures
        step::result_of(StartLogin::steps(), run) is Ok && !(run.last().operation
            is Undoing) <==> {
            let k: int = if run[4].reply.flag() == Some(true) {
                1
            } else {
                0
            };
            let job = LoginJob {
                intent,
                client: run[2].reply->Client_0->Ok_0,
                was_running: run[3].reply.flag() == Some(true),
            };
            let prepared = PreparedLogin {
                id: run[7 + k].reply->Recorded_0->Ok_0.id,
                client: job.client,
                region: contracts::region_of(intent.account().environment@),
            };
            &&& run.len() == 12 + k
            &&& run[0].reply.is_done()
            &&& run[1].operation == (StartLogin::CheckingIdle { intent })
            &&& run[1].reply == ServiceReply::Record(Ok(None))
            &&& run[2].operation == (StartLogin::ResolvingClient { intent })
            &&& run[2].reply is Client
            &&& run[2].reply->Client_0 is Ok
            &&& run[3].operation == (StartLogin::CheckingMain { intent, client: job.client })
            &&& run[3].reply.flag() is Some
            &&& run[4].operation == (StartLogin::CheckingClient { job })
            &&& run[4].reply.flag() is Some
            &&& k == 1 ==> run[5].operation == (StartLogin::Stopping { job })
            &&& k == 1 ==> run[5].reply.is_done()
            &&& run[5 + k].operation == (StartLogin::ConfirmingStopped { job })
            &&& run[5 + k].reply.is_done()
            &&& run[6 + k].operation == (StartLogin::Capturing { job })
            &&& run[6 + k].reply is Payload
            &&& run[6 + k].reply->Payload_0 is Ok
            &&& run[7 + k].operation == (StartLogin::Preparing { job, before: run[6 + k].reply->Payload_0->Ok_0 })
            &&& run[7 + k].reply is Recorded
            &&& run[7 + k].reply->Recorded_0 is Ok
            &&& run[8 + k].operation == (StartLogin::Clearing { prepared })
            &&& run[8 + k].reply.is_done()
            &&& run[9 + k].operation == (StartLogin::Moving { prepared })
            &&& run[9 + k].reply is Recorded
            &&& run[9 + k].reply->Recorded_0 is Ok
            &&& run[10 + k].operation == (StartLogin::Launching { prepared })
            &&& run[10 + k].reply.is_done()
            &&& run[11 + k].operation is Showing
            &&& run[11 + k].reply is Snapshot
            &&& run[11 + k].reply->Snapshot_0 is Ok
        },
        forall|i: int|
            0 <= i < run.len() && (#[trigger] run[i].reply.failure()) is Some && (match run[i].operation {
                StartLogin::CheckingIdle { .. } => run[i].reply is Record,
                StartLogin::Capturing { .. } => run[i].reply is Payload,
                StartLogin::ResolvingClient { .. } => run[i].reply is Client,
                StartLogin::CheckingMain { .. } | StartLogin::CheckingClient { .. } => run[i].reply is Flag,
                StartLogin::Preparing { .. } | StartLogin::Moving { .. } => run[i].reply is Recorded,
                StartLogin::Showing | StartLogin::Undoing { .. } => run[i].reply is Snapshot,
                StartLogin::Locking { .. }
                | StartLogin::Stopping { .. }
                | StartLogin::ConfirmingStopped { .. } => run[i].reply is Done,
                _ => false,
            }) ==> i == run.len() - 1 && step::result_of(StartLogin::steps(), run) == Err::<AppSnapshot, ErrorView>(run[i].reply.failure()->0),
        forall|i: int|
            0 <= i < run.len() && (#[trigger] run[i].reply.failure()) is Some && run[i].reply is Done && (
            run[i].operation is Clearing || run[i].operation is Launching) ==> {
                let prepared = if run[i].operation is Clearing {
                    run[i].operation->Clearing_prepared
                } else {
                    run[i].operation->Launching_prepared
                };
                &&& i + 2 == run.len()
                &&& run[i + 1].operation is Undoing
                &&& run[i + 1].operation->Undoing_id == prepared.id
                &&& run[i + 1].operation->Undoing_client == prepared.client
                &&& run[i + 1].operation->Undoing_error@ == run[i].reply.failure()->0
            },
        run.len() <= 14,
{
    let steps = StartLogin::steps();
    assert(step::follows(steps, run, 0));
    if run.len() > 1 {
        assert(step::follows(steps, run, 1));
    }
    if run.len() > 2 {
        assert(step::follows(steps, run, 2));
    }
    if run.len() > 3 {
        assert(step::follows(steps, run, 3));
    }
    if run.len() > 4 {
        assert(step::follows(steps, run, 4));
    }
    if run.len() > 5 {
        assert(step::follows(steps, run, 5));
    }
    if run.len() > 6 {
        assert(step::follows(steps, run, 6));
    }
    if run.len() > 7 {
        assert(step::follows(steps, run, 7));
    }
    if run.len() > 8 {
        assert(step::follows(steps, run, 8));
    }
    if run.len() > 9 {
        assert(step::follows(steps, run, 9));
    }
    if run.len() > 10 {
        assert(step::follows(steps, run, 10));
    }
    if run.len() > 11 {
        assert(step::follows(steps, run, 11));
    }
    if run.len() > 12 {
        assert(step::follows(steps, run, 12));
    }
    if run.len() > 13 {
        assert(step::follows(steps, run, 13));
    }
}

impl CancelLogin {
    /// How the operation goes on.
    pub open spec fn steps() -> spec_fn(CancelLogin, ServiceReply) -> StepView<
        CancelLogin,
        AppSnapshot,
    > {
        |operation: CancelLogin, reply: ServiceReply| operation.next(reply)
    }
}

/// Cancelling a login succeeds exactly where, in this order, the lock was taken, the slot
/// holds the record of this login, the client was found, a client that runs was stopped,
/// it was confirmed to be stopped, the login was undone, a client that was running before
/// the login was started again and came up, and the application was shown. The first work
/// that fails ends it with its error.
pub proof fn law_login_is_cancelled_by_undoing_it_while_stopped(
    session_id: String,
    run: Seq<Moment<CancelLogin, ServiceReply>>,
)
    requires
        step::is_run(CancelLogin::steps(), CancelLogin::Locking { session_id }, run),
    ensures
        step::result_of(CancelLogin::steps(), run) is Ok <==> {
            let k: int = if run[3].reply.flag() == Some(true) {
                1
            } else {
                0
            };
            let r: int = if run[1].reply->Record_0->Ok_0->0.previous_client_was_running {
                1
            } else {
                0
            };
            let record = run[1].reply->Record_0->Ok_0->0;
            let restart = record.previous_client_was_running;
            let client = run[2].reply->Client_0->Ok_0;
            &&& run.len() == 7 + k + r + r
            &&& run[0].reply.is_done()
            &&& run[1].operation == (CancelLogin::ReadingRecord { session_id })
            &&& run[1].reply is Record
            &&& run[1].reply->Record_0 is Ok
            &&& run[1].reply->Record_0->Ok_0 is Some
            &&& record.id@ == session_id@
            &&& record.kind == RecoveryKind::Login
            &&& run[2].operation == (CancelLogin::ResolvingClient { session_id, restart })
            &&& run[2].reply is Client
            &&& run[2].reply->Client_0 is Ok
            &&& run[3].operation == (CancelLogin::CheckingClient { session_id, restart, client })
            &&& run[3].reply.flag() is Some
            &&& k == 1 ==> run[4].operation == (CancelLogin::Stopping { session_id, restart, client })
            &&& k == 1 ==> run[4].reply.is_done()
            &&& run[4 + k].operation == (CancelLogin::ConfirmingStopped { session_id, restart, client })
            &&& run[4 + k].reply.is_done()
            &&& run[5 + k].operation == (CancelLogin::RollingBack { session_id, restart, client })
            &&& run[5 + k].reply.is_done()
            &&& r == 1 ==> run[6 + k].operation == (CancelLogin::Launching { client })
            &&& r == 1 ==> run[6 + k].reply.is_done()
            &&& r == 1 ==> run[6 + k + r].operation == (CancelLogin::Starting { client })
            &&& r == 1 ==> run[6 + k + r].reply.is_done()
            &&& run[6 + k + r + r].operation is Showing
            &&& run[6 + k + r + r].reply is Snapshot
            &&& run[6 + k + r + r].reply->Snapshot_0 is Ok
        },
        step::result_of(CancelLogin::steps(), run) is Ok ==> {
            let k: int = if run[3].reply.flag() == Some(true) {
                1
            } else {
                0
            };
            let r: int = if run[1].reply->Record_0->Ok_0->0.previous_client_was_running {
                1
            } else {
                0
            };
            let record = run[1].reply->Record_0->Ok_0->0;
            let restart = record.previous_client_was_running;
            let client = run[2].reply->Client_0->Ok_0;
            step::result_of(CancelLogin::steps(), run) == Ok::<AppSnapshot, ErrorView>(run.last().reply->Snapshot_0->Ok_0@)
        },
        forall|i: int|
            0 <= i < run.len() && (#[trigger] run[i].reply.failure()) is Some && (match run[i].operation {
                CancelLogin::ReadingRecord { .. } => run[i].reply is Record,
                CancelLogin::ResolvingClient { .. } => run[i].reply is Client,
                CancelLogin::CheckingClient { .. } => run[i].reply is Flag,
                CancelLogin::Showing => run[i].reply is Snapshot,
                _ => run[i].reply is Done,
            }) ==> i == run.len() - 1 && step::result_of(CancelLogin::steps(), run) == Err::<AppSnapshot, ErrorView>(run[i].reply.failure()->0),
        run.len() <= 10,
{
    let steps = CancelLogin::steps();
    assert(step::follows(steps, run, 0));
    if run.len() > 1 {
        assert(step::follows(steps, run, 1));
    }
    if run.len() > 2 {
        assert(step::follows(steps, run, 2));
    }
    if run.len() > 3 {
        assert(step::follows(steps, run, 3));
    }
    if run.len() > 4 {
        assert(step::follows(steps, run, 4));
    }
    if run.len() > 5 {
        assert(step::follows(steps, run, 5));
    }
    if run.len() > 6 {
        assert(step::follows(steps, run, 6));
    }
    if run.len() > 7 {
        assert(step::follows(steps, run, 7));
    }
    if run.len() > 8 {
        assert(step::follows(steps, run, 8));
    }
    if run.len() > 9 {
        assert(step::follows(steps, run, 9));
    }
}

} // verus!
