//! Completing a login on Windows: waiting until the account that was asked for is
//! logged in, and saving it.

use vstd::prelude::*;

use crate::contracts::AccountKey;
use crate::contracts::AccountKeyView;
use crate::contracts::AppSnapshot;
use crate::contracts::LoginIntent;
use crate::data_store;
use crate::data_store::DataStore;
use crate::data_store::HiddenAccountKey;
use crate::data_store::HiddenAccountsDocument;
use crate::data_store::WrittenDocument;
use crate::error::AppError;
use crate::error::ErrorView;
use crate::platform::windows::app_service;
use crate::platform::windows::app_service::LoginEvidence;
use crate::platform::windows::app_service::ServiceReply;
use crate::platform::windows::app_service::WindowsPlatformService;
use crate::platform::windows::authentication;
use crate::platform::windows::authentication::AuthenticationBaseline;
use crate::platform::windows::restore::CommitOutcome;
use crate::service_common;
use crate::step::Moment;
use crate::step;
use crate::step::Step;
use crate::step::StepView;
use crate::text;

verus! {

/// A login that is waited for.
#[derive(Debug)]
pub struct CompletionJob {
    pub session_id: String,
    pub intent: LoginIntent,
    pub client: String,
    pub baseline: AuthenticationBaseline,
}

/// Completing a login while the lock is held. Each state names the work that is to
/// be done.
#[derive(Debug)]
pub enum CompleteAfterLock {
    /// The waiting login is to be read.
    RequiringAwaiting { session_id: String },
    /// The client is to be found.
    ResolvingClient { session_id: String, intent: LoginIntent },
    /// The authentication values from before the login are to be read.
    ReadingBaseline { session_id: String, intent: LoginIntent, client: String },
    /// A cancellation is to be taken up, where one was asked for.
    CheckingFirst { job: CompletionJob },
    /// A cancellation is to be taken up, where one was asked for. Looking at the
    /// login has failed since the given time.
    CheckingCancel { job: CompletionJob, failing_since: Option<u64> },
    /// The login is to be looked at.
    Probing { job: CompletionJob, failing_since: Option<u64> },
    /// It is to be found out whether the client runs.
    CheckingMain { job: CompletionJob },
    /// A pause is to be made.
    Sleeping { job: CompletionJob, failing_since: Option<u64> },
    /// It is to be found out whether any part of the client runs.
    CheckingClient { job: CompletionJob, current: AccountKey },
    /// The client is to be stopped.
    Stopping { job: CompletionJob, current: AccountKey },
    /// A cancellation is to be taken up, where one was asked for.
    CheckingStopped { job: CompletionJob, current: AccountKey },
    /// The client's files have to settle.
    Settling { job: CompletionJob, current: AccountKey },
    /// The client's configuration has to name an account.
    RequiringMarker { job: CompletionJob, current: AccountKey },
    /// The authentication values are to be read.
    ReadingAuthentication { job: CompletionJob, current: AccountKey },
    /// The client's database is to be read.
    ReadingCatalog { job: CompletionJob, current: AccountKey },
    /// It is to be found out whether a cancellation was asked for.
    CheckingRequest { job: CompletionJob, verified: AccountKey },
    /// The login is to be marked as being committed, unless it was cancelled.
    BeginningCommit { job: CompletionJob, verified: AccountKey },
    /// A cancellation has to be taken up.
    Abandoning { job: CompletionJob },
    /// The account is to be saved.
    Saving { job: CompletionJob, verified: AccountKey },
    /// The hidden accounts are to be read.
    LoadingHidden { job: CompletionJob, verified: AccountKey },
    /// The hidden accounts but this one are to be written.
    WritingHidden { job: CompletionJob, verified: AccountKey },
    /// The login is to be committed.
    Committing { job: CompletionJob, verified: AccountKey },
    /// The client is to be started.
    Launching { client: String },
    /// The client has to have started.
    Starting,
    /// The application is to be shown.
    Showing,
    /// The login is to be cancelled.
    Cancelling { session_id: String },
}

/// What looking at the login leads to.
pub open spec fn probed(
    job: CompletionJob,
    failing_since: Option<u64>,
    evidence: Result<LoginEvidence, AppError>,
    now_ms: u64,
) -> StepView<CompleteAfterLock, AppSnapshot> {
    match evidence {
        Ok(LoginEvidence::Ready(current)) => step::saying(
            service_common::login_event("stoppingClient"@, "正在保存登录结果"@, "正在关闭战网客户端"@, 48),
            CompleteAfterLock::CheckingClient { job, current },
        ),
        Ok(_) => step::going(CompleteAfterLock::CheckingMain { job }),
        Err(AppError::AccountDatabaseIncompatible(error)) => step::failing(
            ErrorView::AccountDatabaseIncompatible(error@),
        ),
        Err(error) => if service_common::failed_too_long(
            failing_since,
            now_ms,
            app_service::LOGIN_PROBE_ERROR_TIMEOUT_MS,
        ) {
            step::failing(error@)
        } else {
            step::going(
                CompleteAfterLock::Sleeping {
                    job,
                    failing_since: Some(service_common::failing_from(failing_since, now_ms)),
                },
            )
        },
    }
}

fn probe(
    job: CompletionJob,
    failing_since: Option<u64>,
    evidence: Result<LoginEvidence, AppError>,
    now_ms: u64,
) -> (step: Step<CompleteAfterLock, AppSnapshot>)
    ensures
        step@ == probed(job, failing_since, evidence, now_ms),
{
    match evidence {
        Ok(LoginEvidence::Ready(current)) => step::say(
            service_common::login_report("stoppingClient", "正在保存登录结果", "正在关闭战网客户端", 48),
            CompleteAfterLock::CheckingClient { job, current },
        ),
        Ok(_) => step::go(CompleteAfterLock::CheckingMain { job }),
        Err(AppError::AccountDatabaseIncompatible(error)) => step::fail(
            AppError::AccountDatabaseIncompatible(error),
        ),
        Err(error) => {
            let since: u64 = match failing_since {
                Some(since) => since,
                None => now_ms,
            };
            let timeout: u64 = app_service::LOGIN_PROBE_ERROR_TIMEOUT_MS;
            if now_ms >= since && now_ms - since >= timeout {
                step::fail(error)
            } else {
                step::go(CompleteAfterLock::Sleeping { job, failing_since: Some(since) })
            }
        },
    }
}

/// The step once the client was stopped and its database was read again.
pub open spec fn reread(
    job: CompletionJob,
    current: AccountKey,
    logged_in: Option<AccountKey>,
) -> StepView<CompleteAfterLock, AppSnapshot> {
    match app_service::resolved_login(job.intent, logged_in) {
        Err(error) => step::failing(error),
        Ok(verified) => if verified@ != current@ {
            step::failing(
                ErrorView::Login("登录结果与目标账号不一致，请确认登录的是所选账号。"@),
            )
        } else {
            step::going(CompleteAfterLock::CheckingRequest { job, verified })
        },
    }
}

fn read_again(job: CompletionJob, current: AccountKey, logged_in: Option<AccountKey>) -> (step: Step<
    CompleteAfterLock,
    AppSnapshot,
>)
    ensures
        step@ == reread(job, current, logged_in),
{
    match app_service::resolve_login_account(&job.intent, logged_in) {
        Err(error) => step::fail(error),
        Ok(verified) => if verified != current {
            step::fail(
                AppError::Login("登录结果与目标账号不一致，请确认登录的是所选账号。".to_owned()),
            )
        } else {
            step::go(CompleteAfterLock::CheckingRequest { job, verified })
        },
    }
}

/// The step once the login is committed.
pub open spec fn launching(client: String) -> StepView<CompleteAfterLock, AppSnapshot> {
    step::saying(
        service_common::login_event("launchingClient"@, "账号已保存"@, "正在启动战网客户端"@, 88),
        CompleteAfterLock::Launching { client },
    )
}

/// The step where a cancellation that was asked for is taken up: `otherwise` where
/// none was.
pub open spec fn unless_cancelled(
    cancelled: bool,
    session_id: String,
    otherwise: CompleteAfterLock,
) -> StepView<CompleteAfterLock, AppSnapshot> {
    if cancelled {
        step::going(CompleteAfterLock::Cancelling { session_id })
    } else {
        step::going(otherwise)
    }
}

impl CompleteAfterLock {
    /// What the answer leads to.
    pub open spec fn next(self, store: DataStore, reply: ServiceReply) -> StepView<
        CompleteAfterLock,
        AppSnapshot,
    > {
        match (self, reply) {
            (
                CompleteAfterLock::RequiringAwaiting { session_id },
                ServiceReply::Awaiting(awaiting),
            ) => match awaiting {
                Err(error) => step::failing(error@),
                Ok(awaiting) => step::going(
                    CompleteAfterLock::ResolvingClient { session_id, intent: awaiting.0 },
                ),
            },
            (
                CompleteAfterLock::ResolvingClient { session_id, intent },
                ServiceReply::Client(client),
            ) => match client {
                None => step::failing(ErrorView::ClientExecutableMissing),
                Some(client) => step::going(
                    CompleteAfterLock::ReadingBaseline { session_id, intent, client },
                ),
            },
            (
                CompleteAfterLock::ReadingBaseline { session_id, intent, client },
                ServiceReply::Baseline(baseline),
            ) => match baseline {
                Err(error) => step::failing(error@),
                Ok(baseline) => step::going(
                    CompleteAfterLock::CheckingFirst {
                        job: CompletionJob { session_id, intent, client, baseline },
                    },
                ),
            },
            (CompleteAfterLock::CheckingFirst { job }, ServiceReply::Answer(cancelled)) =>
                if cancelled {
                    step::going(CompleteAfterLock::Cancelling { session_id: job.session_id })
                } else {
                    step::saying(
                        service_common::login_event(
                            "awaitingLogin"@,
                            "正在等待登录"@,
                            "正在等待战网登录"@,
                            32,
                        ),
                        CompleteAfterLock::CheckingCancel { job, failing_since: None },
                    )
                },
            (
                CompleteAfterLock::CheckingCancel { job, failing_since },
                ServiceReply::Answer(cancelled),
            ) => unless_cancelled(
                cancelled,
                job.session_id,
                CompleteAfterLock::Probing { job, failing_since },
            ),
            (
                CompleteAfterLock::Probing { job, failing_since },
                ServiceReply::Evidence { evidence, now_ms },
            ) => probed(job, failing_since, evidence, now_ms),
            (CompleteAfterLock::CheckingMain { job }, ServiceReply::Flag(running)) =>
                match running {
                    Err(error) => step::failing(error@),
                    Ok(false) => step::failing(
                        ErrorView::Login("Battle.net 已退出，登录未完成"@),
                    ),
                    Ok(true) => step::going(
                        CompleteAfterLock::Sleeping { job, failing_since: None },
                    ),
                },
            (CompleteAfterLock::Sleeping { job, failing_since }, ServiceReply::Slept) => step::going(
                CompleteAfterLock::CheckingCancel { job, failing_since },
            ),
            (CompleteAfterLock::CheckingClient { job, current }, ServiceReply::Flag(running)) =>
                match running {
                    Err(error) => step::failing(error@),
                    Ok(true) => step::going(CompleteAfterLock::Stopping { job, current }),
                    Ok(false) => step::going(CompleteAfterLock::CheckingStopped { job, current }),
                },
            (CompleteAfterLock::Stopping { job, current }, ServiceReply::Done(done)) => match done {
                Err(error) => step::failing(error@),
                Ok(_) => step::going(CompleteAfterLock::CheckingStopped { job, current }),
            },
            (
                CompleteAfterLock::CheckingStopped { job, current },
                ServiceReply::Answer(cancelled),
            ) => unless_cancelled(
                cancelled,
                job.session_id,
                CompleteAfterLock::Settling { job, current },
            ),
            (CompleteAfterLock::Settling { job, current }, ServiceReply::Done(done)) => match done {
                Err(error) => step::failing(error@),
                Ok(_) => step::going(CompleteAfterLock::RequiringMarker { job, current }),
            },
            (CompleteAfterLock::RequiringMarker { job, current }, ServiceReply::Done(done)) =>
                match done {
                    Err(error) => step::failing(error@),
                    Ok(_) => step::going(CompleteAfterLock::ReadingAuthentication { job, current }),
                },
            (
                CompleteAfterLock::ReadingAuthentication { job, current },
                ServiceReply::Baseline(captured),
            ) => match captured {
                Err(error) => step::failing(error@),
                Ok(captured) => if authentication::is_fresh(job.baseline@, captured@) {
                    step::going(CompleteAfterLock::ReadingCatalog { job, current })
                } else {
                    step::failing(ErrorView::Login("尚未检测到本次登录产生的新认证状态"@))
                },
            },
            (CompleteAfterLock::ReadingCatalog { job, current }, ServiceReply::Catalog(catalog)) =>
                match catalog {
                    Err(error) => step::failing(error@),
                    Ok(catalog) => reread(job, current, catalog.current_account_key),
                },
            (
                CompleteAfterLock::CheckingRequest { job, verified },
                ServiceReply::Answer(requested),
            ) => if requested {
                step::going(CompleteAfterLock::Abandoning { job })
            } else {
                step::saying(
                    service_common::login_event("capturing"@, "正在保存登录结果"@, "正在保存登录状态"@, 68),
                    CompleteAfterLock::BeginningCommit { job, verified },
                )
            },
            (
                CompleteAfterLock::BeginningCommit { job, verified },
                ServiceReply::Answer(committing),
            ) => if committing {
                step::going(CompleteAfterLock::Saving { job, verified })
            } else {
                step::going(CompleteAfterLock::Abandoning { job })
            },
            (CompleteAfterLock::Abandoning { job }, ServiceReply::Answer(cancelled)) =>
                if cancelled {
                    step::going(CompleteAfterLock::Cancelling { session_id: job.session_id })
                } else {
                    step::failing(ErrorView::StateUnavailable)
                },
            (CompleteAfterLock::Saving { job, verified }, ServiceReply::Done(done)) => match done {
                Err(error) => step::failing(error@),
                Ok(_) => step::going(CompleteAfterLock::LoadingHidden { job, verified }),
            },
            (CompleteAfterLock::LoadingHidden { job, verified }, ServiceReply::Hidden(stored)) =>
                match data_store::loaded_hidden_accounts(store.hidden_accounts_file(), stored) {
                    Err(error) => step::failing(ErrorView::DataStorage(error)),
                    Ok(hidden) => if hidden.contains(verified@) {
                        step::going(CompleteAfterLock::WritingHidden { job, verified })
                    } else {
                        step::going(CompleteAfterLock::Committing { job, verified })
                    },
                },
            (CompleteAfterLock::WritingHidden { job, verified }, ServiceReply::Written(written)) =>
                match data_store::hidden_accounts_error(written) {
                    Some(error) => step::failing(ErrorView::DataStorage(error)),
                    None => step::going(CompleteAfterLock::Committing { job, verified }),
                },
            (
                CompleteAfterLock::Committing { job, verified },
                ServiceReply::Committed(committed),
            ) => match committed {
                Err(error) => step::failing(error@),
                Ok(_) => launching(job.client),
            },
            (CompleteAfterLock::Launching { client }, ServiceReply::Done(done)) => match done {
                Err(error) => step::failing(error@),
                Ok(_) => step::going(CompleteAfterLock::Starting),
            },
            (CompleteAfterLock::Starting, ServiceReply::Done(done)) => match done {
                Err(error) => step::failing(error@),
                Ok(_) => step::saying(
                    service_common::login_event("completed"@, "账号登录状态已保存"@, "登录状态已保存"@, 100),
                    CompleteAfterLock::Showing,
                ),
            },
            (CompleteAfterLock::Showing, ServiceReply::Snapshot(snapshot)) => match snapshot {
                Err(error) => step::failing(error@),
                Ok(snapshot) => step::ending(snapshot),
            },
            (CompleteAfterLock::Cancelling { session_id }, ServiceReply::Snapshot(snapshot)) =>
                match snapshot {
                    Err(error) => step::failing(error@),
                    Ok(snapshot) => step::ending(snapshot),
                },
            _ => step::confused(),
        }
    }

    /// The hidden accounts after the answer: those that are read, and then without
    /// the account that was logged in.
    pub open spec fn hidden(
        self,
        store: DataStore,
        reply: ServiceReply,
        hidden: Set<AccountKeyView>,
    ) -> Set<AccountKeyView> {
        match (self, reply) {
            (CompleteAfterLock::LoadingHidden { .. }, ServiceReply::Hidden(stored)) =>
                match data_store::loaded_hidden_accounts(store.hidden_accounts_file(), stored) {
                    Err(_) => hidden,
                    Ok(loaded) => loaded,
                },
            (
                CompleteAfterLock::WritingHidden { verified, .. },
                ServiceReply::Written(WrittenDocument::Done),
            ) => hidden.remove(verified@),
            _ => hidden,
        }
    }

    /// The notice after the answer: it changes where a committed login left
    /// recovery data behind.
    pub open spec fn notice(
        self,
        reply: ServiceReply,
        notice: Option<Seq<char>>,
    ) -> Option<Seq<char>> {
        match (self, reply) {
            (
                CompleteAfterLock::Committing { .. },
                ServiceReply::Committed(Ok(CommitOutcome::CleanupPending(error))),
            ) => Some("账号已保存，临时恢复文件将在下次启动时继续清理："@ + error@),
            _ => notice,
        }
    }

    /// Takes the answer.
    pub fn resume(self, service: &mut WindowsPlatformService, reply: ServiceReply) -> (step: Step<
        CompleteAfterLock,
        AppSnapshot,
    >)
        ensures
            step@ == self.next(old(service).store, reply),
            final(service).hidden_accounts@ == self.hidden(
                old(service).store,
                reply,
                old(service).hidden_accounts@,
            ),
            app_service::notice_view(final(service).startup_notice) == self.notice(
                reply,
                app_service::notice_view(old(service).startup_notice),
            ),
            *final(service) == (WindowsPlatformService {
                startup_notice: final(service).startup_notice,
                hidden_accounts: final(service).hidden_accounts,
                ..*old(service)
            }),
    {
        match (self, reply) {
            (
                CompleteAfterLock::RequiringAwaiting { session_id },
                ServiceReply::Awaiting(awaiting),
            ) => match awaiting {
                Err(error) => step::fail(error),
                Ok(awaiting) => step::go(
                    CompleteAfterLock::ResolvingClient { session_id, intent: awaiting.0 },
                ),
            },
            (
                CompleteAfterLock::ResolvingClient { session_id, intent },
                ServiceReply::Client(client),
            ) => match client {
                None => step::fail(AppError::ClientExecutableMissing),
                Some(client) => step::go(
                    CompleteAfterLock::ReadingBaseline { session_id, intent, client },
                ),
            },
            (
                CompleteAfterLock::ReadingBaseline { session_id, intent, client },
                ServiceReply::Baseline(baseline),
            ) => match baseline {
                Err(error) => step::fail(error),
                Ok(baseline) => step::go(
                    CompleteAfterLock::CheckingFirst {
                        job: CompletionJob { session_id, intent, client, baseline },
                    },
                ),
            },
            (CompleteAfterLock::CheckingFirst { job }, ServiceReply::Answer(cancelled)) =>
                if cancelled {
                    step::go(CompleteAfterLock::Cancelling { session_id: job.session_id })
                } else {
                    step::say(
                        service_common::login_report("awaitingLogin", "正在等待登录", "正在等待战网登录", 32),
                        CompleteAfterLock::CheckingCancel { job, failing_since: None },
                    )
                },
            (
                CompleteAfterLock::CheckingCancel { job, failing_since },
                ServiceReply::Answer(cancelled),
            ) => if cancelled {
                step::go(CompleteAfterLock::Cancelling { session_id: job.session_id })
            } else {
                step::go(CompleteAfterLock::Probing { job, failing_since })
            },
            (
                CompleteAfterLock::Probing { job, failing_since },
                ServiceReply::Evidence { evidence, now_ms },
            ) => probe(job, failing_since, evidence, now_ms),
            (CompleteAfterLock::CheckingMain { job }, ServiceReply::Flag(running)) =>
                match running {
                    Err(error) => step::fail(error),
                    Ok(false) => step::fail(
                        AppError::Login("Battle.net 已退出，登录未完成".to_owned()),
                    ),
                    Ok(true) => step::go(CompleteAfterLock::Sleeping { job, failing_since: None }),
                },
            (CompleteAfterLock::Sleeping { job, failing_since }, ServiceReply::Slept) => step::go(
                CompleteAfterLock::CheckingCancel { job, failing_since },
            ),
            (CompleteAfterLock::CheckingClient { job, current }, ServiceReply::Flag(running)) =>
                match running {
                    Err(error) => step::fail(error),
                    Ok(true) => step::go(CompleteAfterLock::Stopping { job, current }),
                    Ok(false) => step::go(CompleteAfterLock::CheckingStopped { job, current }),
                },
            (CompleteAfterLock::Stopping { job, current }, ServiceReply::Done(done)) => match done {
                Err(error) => step::fail(error),
                Ok(_) => step::go(CompleteAfterLock::CheckingStopped { job, current }),
            },
            (
                CompleteAfterLock::CheckingStopped { job, current },
                ServiceReply::Answer(cancelled),
            ) => if cancelled {
                step::go(CompleteAfterLock::Cancelling { session_id: job.session_id })
            } else {
                step::go(CompleteAfterLock::Settling { job, current })
            },
            (CompleteAfterLock::Settling { job, current }, ServiceReply::Done(done)) => match done {
                Err(error) => step::fail(error),
                Ok(_) => step::go(CompleteAfterLock::RequiringMarker { job, current }),
            },
            (CompleteAfterLock::RequiringMarker { job, current }, ServiceReply::Done(done)) =>
                match done {
                    Err(error) => step::fail(error),
                    Ok(_) => step::go(CompleteAfterLock::ReadingAuthentication { job, current }),
                },
            (
                CompleteAfterLock::ReadingAuthentication { job, current },
                ServiceReply::Baseline(captured),
            ) => match captured {
                Err(error) => step::fail(error),
                Ok(captured) => if job.baseline.has_fresh_value_since(&captured) {
                    step::go(CompleteAfterLock::ReadingCatalog { job, current })
                } else {
                    step::fail(AppError::Login("尚未检测到本次登录产生的新认证状态".to_owned()))
                },
            },
            (CompleteAfterLock::ReadingCatalog { job, current }, ServiceReply::Catalog(catalog)) =>
                match catalog {
                    Err(error) => step::fail(error),
                    Ok(catalog) => read_again(job, current, catalog.current_account_key),
                },
            (
                CompleteAfterLock::CheckingRequest { job, verified },
                ServiceReply::Answer(requested),
            ) => if requested {
                step::go(CompleteAfterLock::Abandoning { job })
            } else {
                step::say(
                    service_common::login_report("capturing", "正在保存登录结果", "正在保存登录状态", 68),
                    CompleteAfterLock::BeginningCommit { job, verified },
                )
            },
            (
                CompleteAfterLock::BeginningCommit { job, verified },
                ServiceReply::Answer(committing),
            ) => if committing {
                step::go(CompleteAfterLock::Saving { job, verified })
            } else {
                step::go(CompleteAfterLock::Abandoning { job })
            },
            (CompleteAfterLock::Abandoning { job }, ServiceReply::Answer(cancelled)) =>
                if cancelled {
                    step::go(CompleteAfterLock::Cancelling { session_id: job.session_id })
                } else {
                    step::fail(AppError::StateUnavailable)
                },
            (CompleteAfterLock::Saving { job, verified }, ServiceReply::Done(done)) => match done {
                Err(error) => step::fail(error),
                Ok(_) => step::go(CompleteAfterLock::LoadingHidden { job, verified }),
            },
            (CompleteAfterLock::LoadingHidden { job, verified }, ServiceReply::Hidden(stored)) =>
                match service.store.load_hidden_accounts(&stored) {
                    Err(error) => step::fail(AppError::DataStorage(error)),
                    Ok(hidden) => {
                        let contains = hidden.contains(&HiddenAccountKey::from(&verified));
                        service.hidden_accounts = hidden;
                        if contains {
                            step::go(CompleteAfterLock::WritingHidden { job, verified })
                        } else {
                            step::go(CompleteAfterLock::Committing { job, verified })
                        }
                    },
                },
            (CompleteAfterLock::WritingHidden { job, verified }, ServiceReply::Written(written)) =>
                match service.store.saved_hidden_accounts(&written) {
                    Err(error) => step::fail(AppError::DataStorage(error)),
                    Ok(_) => {
                        service.hidden_accounts =
                        service.hidden_accounts.without(&HiddenAccountKey::from(&verified));
                        step::go(CompleteAfterLock::Committing { job, verified })
                    },
                },
            (
                CompleteAfterLock::Committing { job, verified: _ },
                ServiceReply::Committed(committed),
            ) => {
                match committed {
                    Err(error) => {
                        return step::fail(error);
                    },
                    Ok(CommitOutcome::Committed) => {},
                    Ok(CommitOutcome::CleanupPending(error)) => {
                        service.startup_notice = Some(
                            text::joined2(
                                "账号已保存，临时恢复文件将在下次启动时继续清理：",
                                error.as_str(),
                            ),
                        );
                    },
                }
                step::say(
                    service_common::login_report("launchingClient", "账号已保存", "正在启动战网客户端", 88),
                    CompleteAfterLock::Launching { client: job.client },
                )
            },
            (CompleteAfterLock::Launching { client: _ }, ServiceReply::Done(done)) => match done {
                Err(error) => step::fail(error),
                Ok(_) => step::go(CompleteAfterLock::Starting),
            },
            (CompleteAfterLock::Starting, ServiceReply::Done(done)) => match done {
                Err(error) => step::fail(error),
                Ok(_) => step::say(
                    service_common::login_report("completed", "账号登录状态已保存", "登录状态已保存", 100),
                    CompleteAfterLock::Showing,
                ),
            },
            (CompleteAfterLock::Showing, ServiceReply::Snapshot(snapshot)) => match snapshot {
                Err(error) => step::fail(error),
                Ok(snapshot) => step::end(snapshot),
            },
            (CompleteAfterLock::Cancelling { session_id: _ }, ServiceReply::Snapshot(snapshot)) =>
                match snapshot {
                    Err(error) => step::fail(error),
                    Ok(snapshot) => step::end(snapshot),
                },
            _ => step::give_up(),
        }
    }
}

/// Completing a login. Each state names the work that is to be done.
#[derive(Debug)]
pub enum CompleteLogin {
    /// The lock is to be taken.
    Locking { session_id: String },
    /// The completion is to be marked as active.
    Activating { session_id: String },
    /// The login is to be completed.
    Completing { session_id: String },
    /// The undoing of the failed login is to be claimed, unless it was cancelled or
    /// is being committed.
    ClaimingRollback { session_id: String, error: AppError },
    /// The login that failed is to be undone.
    RollingBack { session_id: String, error: AppError },
    /// The cancellation is to be claimed, where one was asked for.
    ClaimingCancel { session_id: String, error: AppError },
    /// The login is to be cancelled.
    Cancelling { session_id: String, error: AppError },
}

impl CompleteLogin {
    /// What the answer leads to.
    pub open spec fn next(self, reply: ServiceReply) -> StepView<CompleteLogin, AppSnapshot> {
        match (self, reply) {
            (CompleteLogin::Locking { session_id }, ServiceReply::Done(done)) => match done {
                Err(error) => step::failing(error@),
                Ok(_) => step::going(CompleteLogin::Activating { session_id }),
            },
            (CompleteLogin::Activating { session_id }, ServiceReply::Done(done)) => match done {
                Err(error) => step::failing(error@),
                Ok(_) => step::going(CompleteLogin::Completing { session_id }),
            },
            (CompleteLogin::Completing { session_id }, ServiceReply::Snapshot(completed)) =>
                match completed {
                    Ok(snapshot) => step::ending(snapshot),
                    Err(error) => step::going(
                        CompleteLogin::ClaimingRollback { session_id, error },
                    ),
                },
            (CompleteLogin::ClaimingRollback { session_id, error }, ServiceReply::Answer(claimed)) =>
                if claimed {
                    step::going(CompleteLogin::RollingBack { session_id, error })
                } else {
                    step::going(CompleteLogin::ClaimingCancel { session_id, error })
                },
            (CompleteLogin::RollingBack { session_id, error }, ServiceReply::Done(done)) =>
                match done {
                    Ok(_) => step::failing(error@),
                    Err(rollback) => step::failing(
                        service_common::both_failed(error@, "；失败后恢复登录前配置未完成："@, rollback@),
                    ),
                },
            (CompleteLogin::ClaimingCancel { session_id, error }, ServiceReply::Answer(claimed)) =>
                if claimed {
                    step::going(CompleteLogin::Cancelling { session_id, error })
                } else {
                    step::failing(error@)
                },
            (CompleteLogin::Cancelling { session_id, error }, ServiceReply::Snapshot(cancelled)) =>
                match cancelled {
                    Ok(snapshot) => step::ending(snapshot),
                    Err(rollback) => step::failing(
                        service_common::both_failed(error@, "；取消时恢复失败："@, rollback@),
                    ),
                },
            _ => step::confused(),
        }
    }

    /// Takes the answer.
    pub fn resume(self, reply: ServiceReply) -> (step: Step<CompleteLogin, AppSnapshot>)
        ensures
            step@ == self.next(reply),
    {
        match (self, reply) {
            (CompleteLogin::Locking { session_id }, ServiceReply::Done(done)) => match done {
                Err(error) => step::fail(error),
                Ok(_) => step::go(CompleteLogin::Activating { session_id }),
            },
            (CompleteLogin::Activating { session_id }, ServiceReply::Done(done)) => match done {
                Err(error) => step::fail(error),
                Ok(_) => step::go(CompleteLogin::Completing { session_id }),
            },
            (CompleteLogin::Completing { session_id }, ServiceReply::Snapshot(completed)) =>
                match completed {
                    Ok(snapshot) => step::end(snapshot),
                    Err(error) => step::go(CompleteLogin::ClaimingRollback { session_id, error }),
                },
            (CompleteLogin::ClaimingRollback { session_id, error }, ServiceReply::Answer(claimed)) =>
                if claimed {
                    step::go(CompleteLogin::RollingBack { session_id, error })
                } else {
                    step::go(CompleteLogin::ClaimingCancel { session_id, error })
                },
            (CompleteLogin::RollingBack { session_id: _, error }, ServiceReply::Done(done)) =>
                match done {
                    Ok(_) => step::fail(error),
                    Err(rollback) => step::fail(
                        service_common::both_failures(error, "；失败后恢复登录前配置未完成：", rollback),
                    ),
                },
            (CompleteLogin::ClaimingCancel { session_id, error }, ServiceReply::Answer(claimed)) =>
                if claimed {
                    step::go(CompleteLogin::Cancelling { session_id, error })
                } else {
                    step::fail(error)
                },
            (CompleteLogin::Cancelling { session_id: _, error }, ServiceReply::Snapshot(cancelled)) =>
                match cancelled {
                    Ok(snapshot) => step::end(snapshot),
                    Err(rollback) => step::fail(
                        service_common::both_failures(error, "；取消时恢复失败：", rollback),
                    ),
                },
            _ => step::give_up(),
        }
    }
}

impl WindowsPlatformService {
    /// Begins to complete the login.
    pub fn complete_login(&self, session_id: &str) -> (operation: CompleteLogin)
        ensures
            operation matches CompleteLogin::Locking { session_id: id } && id@ == session_id@,
    {
        CompleteLogin::Locking { session_id: session_id.to_owned() }
    }

    /// Begins to complete the login while the lock is held.
    pub fn complete_login_after_lock(&self, session_id: &str) -> (operation: CompleteAfterLock)
        ensures
            operation matches CompleteAfterLock::RequiringAwaiting { session_id: id } && id@
                == session_id@,
    {
        CompleteAfterLock::RequiringAwaiting { session_id: session_id.to_owned() }
    }

    /// The record of the hidden accounts without the account.
    pub fn document_without(&self, account: &AccountKey) -> (document: HiddenAccountsDocument)
        ensures
            data_store::is_document_of(document, self.hidden_accounts@.remove(account@)),
    {
        let rest = self.hidden_accounts.without(&HiddenAccountKey::from(account));
        self.store.save_hidden_accounts(&rest)
    }
}

/// What the completion of a login has come to after the answers.
pub open spec fn completed(
    store: DataStore,
    session_id: String,
    replies: Seq<ServiceReply>,
) -> StepView<CompleteAfterLock, AppSnapshot>
    decreases replies.len(),
{
    if replies.len() == 0 {
        step::going(CompleteAfterLock::RequiringAwaiting { session_id })
    } else {
        match completed(store, session_id, replies.drop_last()) {
            StepView::Perform { operation, .. } => operation.next(store, replies.last()),
            finished => finished,
        }
    }
}

/// The work of a completion that success depends on.
pub enum CompletionWork {
    /// The client's configuration names an account.
    Marker,
    /// The authentication is fresh.
    Fresh,
    /// The account that was asked for is logged in.
    Identified,
    /// The commit was claimed before a cancellation.
    Claim,
    /// The account was saved.
    Save,
    /// The login was committed.
    Commit,
}

/// Whether the operation's work is the given one, and the answer says that it
/// succeeded.
pub open spec fn succeeds(
    operation: CompleteAfterLock,
    reply: ServiceReply,
    work: CompletionWork,
) -> bool {
    match (operation, reply) {
        (CompleteAfterLock::RequiringMarker { .. }, ServiceReply::Done(Ok(_))) => work is Marker,
        (
            CompleteAfterLock::ReadingAuthentication { job, .. },
            ServiceReply::Baseline(Ok(captured)),
        ) => work is Fresh && authentication::is_fresh(job.baseline@, captured@),
        (CompleteAfterLock::ReadingCatalog { job, .. }, ServiceReply::Catalog(Ok(catalog))) => work
            is Identified && crate::contracts::key_view(catalog.current_account_key) == Some(
            job.intent.account()@,
        ),
        (CompleteAfterLock::BeginningCommit { .. }, ServiceReply::Answer(true)) => work is Claim,
        (CompleteAfterLock::Saving { job, verified }, ServiceReply::Done(Ok(_))) => work is Save
            && verified@ == job.intent.account()@,
        (CompleteAfterLock::Committing { .. }, ServiceReply::Committed(Ok(_))) => work is Commit,
        _ => false,
    }
}

/// Whether the work succeeded at the answer with this number.
pub open spec fn succeeded_at(
    store: DataStore,
    session_id: String,
    replies: Seq<ServiceReply>,
    work: CompletionWork,
    i: int,
) -> bool {
    &&& 0 <= i < replies.len()
    &&& completed(store, session_id, replies.take(i)) matches StepView::Perform {
        operation,
        ..
    } && succeeds(operation, replies[i], work)
}

/// Whether the work succeeded among the answers.
pub open spec fn has_succeeded(
    store: DataStore,
    session_id: String,
    replies: Seq<ServiceReply>,
    work: CompletionWork,
) -> bool {
    exists|i: int| succeeded_at(store, session_id, replies, work, i)
}

/// Whether the operation can only be reached after the work.
pub open spec fn comes_after(operation: CompleteAfterLock, work: CompletionWork) -> bool {
    match operation {
        CompleteAfterLock::ReadingAuthentication { .. } => work is Marker,
        CompleteAfterLock::ReadingCatalog { .. } => work is Marker || work is Fresh,
        CompleteAfterLock::CheckingRequest { .. } | CompleteAfterLock::BeginningCommit { .. } => work
            is Marker || work is Fresh || work is Identified,
        CompleteAfterLock::Saving { .. } => !(work is Save) && !(work is Commit),
        CompleteAfterLock::LoadingHidden { .. }
        | CompleteAfterLock::WritingHidden { .. }
        | CompleteAfterLock::Committing { .. } => !(work is Commit),
        CompleteAfterLock::Launching { .. }
        | CompleteAfterLock::Starting
        | CompleteAfterLock::Showing => true,
        _ => false,
    }
}

/// Whether the account of the operation is the one that was asked for.
pub open spec fn is_for_the_account(operation: CompleteAfterLock) -> bool {
    match operation {
        CompleteAfterLock::CheckingRequest { job, verified }
        | CompleteAfterLock::BeginningCommit { job, verified }
        | CompleteAfterLock::Saving { job, verified }
        | CompleteAfterLock::LoadingHidden { job, verified }
        | CompleteAfterLock::WritingHidden { job, verified }
        | CompleteAfterLock::Committing { job, verified } => verified@ == job.intent.account()@,
        _ => true,
    }
}

/// Whether the login was cancelled at the answer with this number.
pub open spec fn cancelled_at(
    store: DataStore,
    session_id: String,
    replies: Seq<ServiceReply>,
    i: int,
) -> bool {
    &&& 0 <= i < replies.len()
    &&& completed(store, session_id, replies.take(i)) matches StepView::Perform {
        operation,
        ..
    } && operation is Cancelling
}

/// Whether the login was cancelled among the answers.
pub open spec fn was_cancelled(
    store: DataStore,
    session_id: String,
    replies: Seq<ServiceReply>,
) -> bool {
    exists|i: int| cancelled_at(store, session_id, replies, i)
}

proof fn lemma_earlier(
    store: DataStore,
    session_id: String,
    replies: Seq<ServiceReply>,
    reply: ServiceReply,
    work: CompletionWork,
)
    ensures
        has_succeeded(store, session_id, replies, work) ==> has_succeeded(
            store,
            session_id,
            replies.push(reply),
            work,
        ),
        was_cancelled(store, session_id, replies) ==> was_cancelled(
            store,
            session_id,
            replies.push(reply),
        ),
{
    if has_succeeded(store, session_id, replies, work) {
        let i = choose|i: int| succeeded_at(store, session_id, replies, work, i);
        assert(replies.push(reply).take(i) =~= replies.take(i));
        assert(succeeded_at(store, session_id, replies.push(reply), work, i));
    }
    if was_cancelled(store, session_id, replies) {
        let i = choose|i: int| cancelled_at(store, session_id, replies, i);
        assert(replies.push(reply).take(i) =~= replies.take(i));
        assert(cancelled_at(store, session_id, replies.push(reply), i));
    }
}

proof fn lemma_reached(
    store: DataStore,
    session_id: String,
    replies: Seq<ServiceReply>,
    work: CompletionWork,
)
    ensures
        match completed(store, session_id, replies) {
            StepView::Perform { operation, .. } => {
                &&& is_for_the_account(operation)
                &&& comes_after(operation, work) ==> has_succeeded(store, session_id, replies, work)
            },
            StepView::Finished(Ok(_)) => was_cancelled(store, session_id, replies) || has_succeeded(
                store,
                session_id,
                replies,
                work,
            ),
            StepView::Finished(Err(_)) => true,
        },
    decreases replies.len(),
{
    if replies.len() > 0 {
        let earlier = replies.drop_last();
        let reply = replies.last();
        lemma_reached(store, session_id, earlier, work);
        lemma_earlier(store, session_id, earlier, reply, work);
        assert(earlier.push(reply) =~= replies);
        let at = earlier.len() as int;
        assert(replies.take(at) =~= earlier);
        match completed(store, session_id, earlier) {
            StepView::Perform { operation, .. } => {
                if succeeds(operation, reply, work) {
                    assert(succeeded_at(store, session_id, replies, work, at));
                }
                if operation is Cancelling {
                    assert(cancelled_at(store, session_id, replies, at));
                }
            },
            _ => {},
        }
    }
}

/// A login that is completed, and not cancelled, was found to be finished by the
/// client's configuration, by a fresh authentication and by the client's database,
/// which named the account that was asked for; the commit was claimed before any
/// cancellation; that account was saved, and the login was committed.
pub proof fn law_completed_login_was_verified_and_saved(
    store: DataStore,
    session_id: String,
    replies: Seq<ServiceReply>,
)
    requires
        completed(store, session_id, replies) matches StepView::Finished(Ok(_)),
        !was_cancelled(store, session_id, replies),
    ensures
        has_succeeded(store, session_id, replies, CompletionWork::Marker),
        has_succeeded(store, session_id, replies, CompletionWork::Fresh),
        has_succeeded(store, session_id, replies, CompletionWork::Identified),
        has_succeeded(store, session_id, replies, CompletionWork::Claim),
        has_succeeded(store, session_id, replies, CompletionWork::Save),
        has_succeeded(store, session_id, replies, CompletionWork::Commit),
{
    lemma_reached(store, session_id, replies, CompletionWork::Marker);
    lemma_reached(store, session_id, replies, CompletionWork::Fresh);
    lemma_reached(store, session_id, replies, CompletionWork::Identified);
    lemma_reached(store, session_id, replies, CompletionWork::Claim);
    lemma_reached(store, session_id, replies, CompletionWork::Save);
    lemma_reached(store, session_id, replies, CompletionWork::Commit);
}

/// Only the account that was asked for is ever saved, and only after the commit was
/// claimed.
pub proof fn law_only_the_requested_account_is_saved(
    store: DataStore,
    session_id: String,
    replies: Seq<ServiceReply>,
)
    ensures
        completed(store, session_id, replies) matches StepView::Perform {
            operation: CompleteAfterLock::Saving { job, verified },
            ..
        } ==> verified@ == job.intent.account()@ && has_succeeded(
            store,
            session_id,
            replies,
            CompletionWork::Claim,
        ),
{
    lemma_reached(store, session_id, replies, CompletionWork::Claim);
}

/// A cancellation that is taken up leads to the login being cancelled, and a login
/// whose commit could not be claimed is not saved.
pub proof fn law_taken_up_cancellation_cancels(
    store: DataStore,
    operation: CompleteAfterLock,
    cancelled: bool,
)
    ensures
        operation matches CompleteAfterLock::CheckingFirst { job } ==> cancelled ==> operation.next(
            store,
            ServiceReply::Answer(cancelled),
        ) == step::going::<CompleteAfterLock, AppSnapshot>(
            CompleteAfterLock::Cancelling { session_id: job.session_id },
        ),
        operation matches CompleteAfterLock::CheckingCancel { job, .. } ==> cancelled
            ==> operation.next(store, ServiceReply::Answer(cancelled)) == step::going::<
            CompleteAfterLock,
            AppSnapshot,
        >(CompleteAfterLock::Cancelling { session_id: job.session_id }),
        operation matches CompleteAfterLock::CheckingStopped { job, .. } ==> cancelled
            ==> operation.next(store, ServiceReply::Answer(cancelled)) == step::going::<
            CompleteAfterLock,
            AppSnapshot,
        >(CompleteAfterLock::Cancelling { session_id: job.session_id }),
        operation matches CompleteAfterLock::Abandoning { job } ==> cancelled ==> operation.next(
            store,
            ServiceReply::Answer(cancelled),
        ) == step::going::<CompleteAfterLock, AppSnapshot>(
            CompleteAfterLock::Cancelling { session_id: job.session_id },
        ),
        operation matches CompleteAfterLock::BeginningCommit { job, .. } ==> operation.next(
            store,
            ServiceReply::Answer(false),
        ) == step::going::<CompleteAfterLock, AppSnapshot>(CompleteAfterLock::Abandoning { job }),
{
}

impl CompleteAfterLock {
    /// How the operation goes on.
    pub open spec fn steps(store: DataStore) -> spec_fn(CompleteAfterLock, ServiceReply) -> StepView<
        CompleteAfterLock,
        AppSnapshot,
    > {
        |operation: CompleteAfterLock, reply: ServiceReply| operation.next(store, reply)
    }
}

/// Whether the record of the hidden accounts holds the account.
pub open spec fn hides(reply: ServiceReply, key: AccountKeyView) -> bool {
    reply matches ServiceReply::Hidden(data_store::StoredDocument::Present(document)) && exists|
        j: int,
    |
        0 <= j < document.accounts@.len() && (#[trigger] document.accounts@[j])@ == key
}

proof fn lemma_hides(path: Seq<char>, reply: ServiceReply, key: AccountKeyView)
    requires
        reply is Hidden,
        data_store::loaded_hidden_accounts(path, reply->Hidden_0) is Ok,
    ensures
        data_store::loaded_hidden_accounts(path, reply->Hidden_0)->Ok_0.contains(key) <==> hides(
            reply,
            key,
        ),
{
    if reply->Hidden_0 is Present {
        let accounts = reply->Hidden_0->Present_0.accounts@;
        let views = data_store::key_views(accounts);
        if hides(reply, key) {
            let j = choose|j: int| 0 <= j < accounts.len() && (#[trigger] accounts[j])@ == key;
            assert(views[j] == key);
        }
        if views.to_set().contains(key) {
            let j = choose|j: int| 0 <= j < views.len() && views[j] == key;
            assert(accounts[j]@ == key);
        }
    }
}

/// A login that was noticed is saved and committed exactly where, in this order, a client
/// that runs was stopped, no cancellation was asked for, the client's files settled, its
/// configuration names an account, some authentication value is new or not what it was
/// before the login, its database says that the account that was noticed and asked for is
/// logged in, no cancellation was asked for, the commit was claimed, this account was
/// saved, the hidden accounts were read or were not there, and were written without this
/// account where it was among them, the login was committed, the client was started and
/// came up, and the application was shown. Every other way in which the run succeeds ends
/// with the login being cancelled.
#[verifier::rlimit(60)]
pub proof fn law_noticed_login_is_checked_saved_and_committed(
    store: DataStore,
    job: CompletionJob,
    current: AccountKey,
    run: Seq<Moment<CompleteAfterLock, ServiceReply>>,
)
    requires
        step::is_run(CompleteAfterLock::steps(store), CompleteAfterLock::CheckingClient { job, current }, run),
    ensures
        step::result_of(CompleteAfterLock::steps(store), run) is Ok && !(run.last().operation
            is Cancelling) <==> {
            let k: int = if run[0].reply.flag() == Some(true) {
                1
            } else {
                0
            };
            let h: int = if hides(run[9 + k].reply, run[5 + k].reply.catalog()->0.current_account_key->0@) {
                1
            } else {
                0
            };
            let verified = run[5 + k].reply.catalog()->0.current_account_key->0;
            &&& run.len() == 14 + k + h
            &&& run[0].reply.flag() is Some
            &&& k == 1 ==> run[1].operation == (CompleteAfterLock::Stopping { job, current })
            &&& k == 1 ==> run[1].reply.is_done()
            &&& run[1 + k].operation == (CompleteAfterLock::CheckingStopped { job, current })
            &&& run[1 + k].reply == ServiceReply::Answer(false)
            &&& run[2 + k].operation == (CompleteAfterLock::Settling { job, current })
            &&& run[2 + k].reply.is_done()
            &&& run[3 + k].operation == (CompleteAfterLock::RequiringMarker { job, current })
            &&& run[3 + k].reply.is_done()
            &&& run[4 + k].operation == (CompleteAfterLock::ReadingAuthentication { job, current })
            &&& run[4 + k].reply.values() is Some
            &&& app_service::has_new_value(job.baseline@, run[4 + k].reply.values()->0)
            &&& run[5 + k].operation == (CompleteAfterLock::ReadingCatalog { job, current })
            &&& run[5 + k].reply.catalog() is Some
            &&& run[5 + k].reply.catalog()->0.current_account_key is Some
            &&& verified@ == job.intent.account()@
            &&& verified@ == current@
            &&& run[6 + k].operation == (CompleteAfterLock::CheckingRequest { job, verified })
            &&& run[6 + k].reply == ServiceReply::Answer(false)
            &&& run[7 + k].operation == (CompleteAfterLock::BeginningCommit { job, verified })
            &&& run[7 + k].reply == ServiceReply::Answer(true)
            &&& run[8 + k].operation == (CompleteAfterLock::Saving { job, verified })
            &&& run[8 + k].reply.is_done()
            &&& run[9 + k].operation == (CompleteAfterLock::LoadingHidden { job, verified })
            &&& run[9 + k].reply is Hidden
            &&& run[9 + k].reply->Hidden_0 is Missing || (run[9 + k].reply->Hidden_0 is Present
                && run[9 + k].reply->Hidden_0->Present_0.version == data_store::HIDDEN_ACCOUNTS_VERSION)
            &&& h == 1 ==> run[10 + k].operation == (CompleteAfterLock::WritingHidden { job, verified })
            &&& h == 1 ==> run[10 + k].reply == ServiceReply::Written(WrittenDocument::Done)
            &&& run[10 + k + h].operation == (CompleteAfterLock::Committing { job, verified })
            &&& run[10 + k + h].reply is Committed
            &&& run[10 + k + h].reply->Committed_0 is Ok
            &&& run[11 + k + h].operation == (CompleteAfterLock::Launching { client: job.client })
            &&& run[11 + k + h].reply.is_done()
            &&& run[12 + k + h].operation is Starting
            &&& run[12 + k + h].reply.is_done()
            &&& run[13 + k + h].operation is Showing
            &&& run[13 + k + h].reply is Snapshot
            &&& run[13 + k + h].reply->Snapshot_0 is Ok
        },
        run.len() <= 18,
{
    assert forall|before: Map<Seq<char>, Seq<char>>, after: Map<Seq<char>, Seq<char>>|
        #[trigger] authentication::is_fresh(before, after) == app_service::has_new_value(before, after) by {
        app_service::lemma_new_value(before, after);
    }
    assert forall|reply: ServiceReply, key: AccountKeyView|
        reply is Hidden && data_store::loaded_hidden_accounts(
            store.hidden_accounts_file(),
            reply->Hidden_0,
        ) is Ok implies data_store::loaded_hidden_accounts(
        store.hidden_accounts_file(),
        reply->Hidden_0,
    )->Ok_0.contains(key) <==> #[trigger] hides(reply, key) by {
        lemma_hides(store.hidden_accounts_file(), reply, key);
    }
    let steps = CompleteAfterLock::steps(store);
    assert(step::follows(steps, run, 0));
    if run.len() > 1 {
        assert(step::follows(steps, run, 1));
    }
    if run.len() > 2 {
        assert(step::follows(steps, run, 2));
    }
    if run.len() > 3 {
        assert(step::follows(steps, run, 3));
    }
    if run.len() > 4 {
        assert(step::follows(steps, run, 4));
    }
    if run.len() > 5 {
        assert(step::follows(steps, run, 5));
    }
    if run.len() > 6 {
        assert(step::follows(steps, run, 6));
    }
    if run.len() > 7 {
        assert(step::follows(steps, run, 7));
    }
    if run.len() > 8 {
        assert(step::follows(steps, run, 8));
    }
    if run.len() > 9 {
        assert(step::follows(steps, run, 9));
    }
    if run.len() > 10 {
        assert(step::follows(steps, run, 10));
    }
    if run.len() > 11 {
        assert(step::follows(steps, run, 11));
    }
    if run.len() > 12 {
        assert(step::follows(steps, run, 12));
    }
    if run.len() > 13 {
        assert(step::follows(steps, run, 13));
    }
    if run.len() > 14 {
        assert(step::follows(steps, run, 14));
    }
    if run.len() > 15 {
        assert(step::follows(steps, run, 15));
    }
    if run.len() > 16 {
        assert(step::follows(steps, run, 16));
    }
    if run.len() > 17 {
        assert(step::follows(steps, run, 17));
    }
}

impl CompleteLogin {
    /// How the operation goes on.
    pub open spec fn steps() -> spec_fn(CompleteLogin, ServiceReply) -> StepView<
        CompleteLogin,
        AppSnapshot,
    > {
        |operation: CompleteLogin, reply: ServiceReply| operation.next(reply)
    }
}

/// Completing a login succeeds exactly where the lock was taken, the completion was marked
/// as active, and either the login was completed, or it failed while a cancellation was asked
/// for, its undoing was not claimed, the cancellation was claimed, and the login was
/// cancelled. Where the login failed and its undoing was claimed it is undone, and the error
/// of the login is the result, beside that of undoing it where that fails too.
pub proof fn law_failed_completion_is_undone_or_cancelled(
    session_id: String,
    run: Seq<Moment<CompleteLogin, ServiceReply>>,
)
    requires
        step::is_run(CompleteLogin::steps(), CompleteLogin::Locking { session_id }, run),
    ensures
        step::result_of(CompleteLogin::steps(), run) is Ok <==> {
            &&& run.len() == 3 || run.len() == 6
            &&& run[0].reply.is_done()
            &&& run[1].operation == (CompleteLogin::Activating { session_id })
            &&& run[1].reply.is_done()
            &&& run[2].operation == (CompleteLogin::Completing { session_id })
            &&& run[2].reply is Snapshot
            &&& run[2].reply->Snapshot_0 is Ok <==> run.len() == 3
            &&& run.len() == 6 ==> {
                let error = run[2].reply->Snapshot_0->Err_0;
                &&& run[3].operation == (CompleteLogin::ClaimingRollback { session_id, error })
                &&& run[3].reply == ServiceReply::Answer(false)
                &&& run[4].operation == (CompleteLogin::ClaimingCancel { session_id, error })
                &&& run[4].reply == ServiceReply::Answer(true)
                &&& run[5].operation == (CompleteLogin::Cancelling { session_id, error })
                &&& run[5].reply is Snapshot
                &&& run[5].reply->Snapshot_0 is Ok
            }
        },
        step::result_of(CompleteLogin::steps(), run) is Ok ==> step::result_of(
            CompleteLogin::steps(),
            run,
        ) == Ok::<AppSnapshot, ErrorView>(run.last().reply->Snapshot_0->Ok_0@),
        run.len() > 4 && run[3].reply == ServiceReply::Answer(true) ==> {
            let error = run[2].reply->Snapshot_0->Err_0;
            &&& run.len() == 5
            &&& run[4].operation == (CompleteLogin::RollingBack { session_id, error })
            &&& run[4].reply.is_done() ==> step::result_of(CompleteLogin::steps(), run) == Err::<
                AppSnapshot,
                ErrorView,
            >(error@)
        },
        run.len() > 3 ==> (run[3].reply == ServiceReply::Answer(true) ==> run.len() > 4),
        run.len() > 4 && run[3].reply == ServiceReply::Answer(false) && run[4].reply
            == ServiceReply::Answer(false) ==> run.len() == 5 && step::result_of(
            CompleteLogin::steps(),
            run,
        ) == Err::<AppSnapshot, ErrorView>(run[2].reply->Snapshot_0->Err_0@),
        run[0].reply matches ServiceReply::Done(Err(error)) ==> run.len() == 1 && step::result_of(
            CompleteLogin::steps(),
            run,
        ) == Err::<AppSnapshot, ErrorView>(error@),
        run.len() <= 6,
{
    let steps = CompleteLogin::steps();
    assert(step::follows(steps, run, 0));
    if run.len() > 1 {
        assert(step::follows(steps, run, 1));
    }
    if run.len() > 2 {
        assert(step::follows(steps, run, 2));
    }
    if run.len() > 3 {
        assert(step::follows(steps, run, 3));
    }
    if run.len() > 4 {
        assert(step::follows(steps, run, 4));
    }
    if run.len() > 5 {
        assert(step::follows(steps, run, 5));
    }
}

/// Waiting for a login begins with the login that waits for the user, the client and the
/// authentication values from before the login, unless one of them cannot be read. A login
/// that is noticed is taken up as that of the account that was noticed, one that is not is
/// looked at again as long as the client runs, and looking that fails is repeated until it
/// has failed for the whole time that is allowed, counted from its first failure in a row;
/// the same holds of a database of another form, which is not looked at again.
pub proof fn law_login_is_waited_for(
    store: DataStore,
    session_id: String,
    run: Seq<Moment<CompleteAfterLock, ServiceReply>>,
    i: int,
)
    requires
        step::is_run(
            CompleteAfterLock::steps(store),
            CompleteAfterLock::RequiringAwaiting { session_id },
            run,
        ),
        0 <= i < run.len(),
    ensures
        run.len() > 3 ==> {
            &&& run[0].reply is Awaiting
            &&& run[0].reply->Awaiting_0 is Ok
            &&& run[1].operation is ResolvingClient
            &&& run[1].reply is Client
            &&& run[1].reply->Client_0 is Some
            &&& run[2].operation is ReadingBaseline
            &&& run[2].reply.values() is Some
            &&& run[3].operation is CheckingFirst
            &&& run[3].operation->CheckingFirst_job.session_id == session_id
            &&& run[3].operation->CheckingFirst_job.intent == run[0].reply->Awaiting_0->Ok_0.0
            &&& run[3].operation->CheckingFirst_job.client == run[1].reply->Client_0->0
            &&& run[3].operation->CheckingFirst_job.baseline@ == run[2].reply.values()->0
        },
        run[0].reply is Awaiting && run[0].reply->Awaiting_0 is Ok ==> run.len() > 1,
        run.len() > 1 && run[1].reply is Client && run[1].reply->Client_0 is Some ==> run.len() > 2,
        run.len() > 2 && run[2].reply.values() is Some ==> run.len() > 3,
        run[i].operation is Probing && run[i].reply is Evidence ==> {
            let job = run[i].operation->Probing_job;
            let since = run[i].operation->Probing_failing_since;
            let now = run[i].reply->now_ms;
            match run[i].reply->evidence {
                Ok(LoginEvidence::Ready(current)) => i + 1 < run.len() && run[i + 1].operation == (
                CompleteAfterLock::CheckingClient { job, current }),
                Ok(_) => i + 1 < run.len() && run[i + 1].operation == (
                CompleteAfterLock::CheckingMain { job }),
                Err(error) => {
                    let first = if since is Some {
                        since->0
                    } else {
                        now
                    };
                    if error is AccountDatabaseIncompatible || now - first
                        >= app_service::LOGIN_PROBE_ERROR_TIMEOUT_MS {
                        i + 1 == run.len() && step::result_of(CompleteAfterLock::steps(store), run)
                            == Err::<AppSnapshot, ErrorView>(error@)
                    } else {
                        i + 1 < run.len() && run[i + 1].operation == (CompleteAfterLock::Sleeping {
                            job,
                            failing_since: Some(first),
                        })
                    }
                },
            }
        },
        run[i].operation is CheckingMain && run[i].reply is Flag ==> {
            &&& run[i].reply.flag() == Some(true) <==> i + 1 < run.len()
            &&& i + 1 < run.len() ==> run[i + 1].operation == (CompleteAfterLock::Sleeping {
                job: run[i].operation->CheckingMain_job,
                failing_since: None,
            })
        },
        run[i].operation is Sleeping && run[i].reply is Slept ==> i + 1 < run.len() && run[i
            + 1].operation == (CompleteAfterLock::CheckingCancel {
            job: run[i].operation->Sleeping_job,
            failing_since: run[i].operation->Sleeping_failing_since,
        }),
        run[i].operation is CheckingFirst && run[i].reply == ServiceReply::Answer(false) ==> i + 1
            < run.len() && run[i + 1].operation == (CompleteAfterLock::CheckingCancel {
            job: run[i].operation->CheckingFirst_job,
            failing_since: None,
        }),
        run[i].operation is CheckingCancel && run[i].reply == ServiceReply::Answer(false) ==> i + 1
            < run.len() && run[i + 1].operation == (CompleteAfterLock::Probing {
            job: run[i].operation->CheckingCancel_job,
            failing_since: run[i].operation->CheckingCancel_failing_since,
        }),
{
    let steps = CompleteAfterLock::steps(store);
    assert(step::follows(steps, run, 0));
    if run.len() > 1 {
        assert(step::follows(steps, run, 1));
    }
    if run.len() > 2 {
        assert(step::follows(steps, run, 2));
    }
    assert(step::follows(steps, run, i));
}

} // verus!
