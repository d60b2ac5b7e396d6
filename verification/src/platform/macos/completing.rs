//! Completing a login on macOS: waiting until the account that was asked for is logged
//! in, and saving it.

use vstd::prelude::*;

use crate::contracts;
use crate::contracts::AccountKey;
use crate::contracts::AccountKeyView;
use crate::contracts::AppSnapshot;
use crate::data_store;
use crate::data_store::DataStore;
use crate::data_store::HiddenAccountKey;
use crate::data_store::HiddenAccountsDocument;
use crate::data_store::WrittenDocument;
use crate::error::AppError;
use crate::error::ErrorView;
use crate::platform::macos::app_service;
use crate::platform::macos::app_service::MacosPlatformService;
use crate::platform::macos::app_service::ServiceReply;
use crate::platform::macos::process::ValidatedClient;
use crate::platform::macos::recovery::RecoveryKind;
use crate::platform::macos::recovery;
use crate::platform::macos::recovery::CleanupOutcome;
use crate::platform::macos::recovery::CleanupOutcomeView;
use crate::platform::macos::recovery::RecoveryContext;
use crate::platform::macos::recovery::RecoveryState;
use crate::platform::macos::secure_snapshot::SecurePayload;
use crate::service_common;
use crate::step::Moment;
use crate::step;
use crate::step::Step;
use crate::step::StepView;
use crate::text;

verus! {

/// Whether a login is proved: it was authenticated, and the account that is logged in is
/// the one that was asked for.
pub open spec fn is_proved(
    authenticated: bool,
    logged_in: Option<AccountKey>,
    target: AccountKey,
) -> bool {
    authenticated && contracts::key_view(logged_in) == Some(target@)
}

/// Looking at a login. Each state names the work that is to be done.
#[derive(Debug)]
pub enum ProbeEvidence {
    /// It is to be found out whether the client is authenticated.
    CheckingLogin { target: AccountKey },
    /// The client's database is to be read.
    ReadingCatalog { target: AccountKey },
}

impl ProbeEvidence {
    /// What the answer leads to.
    pub open spec fn next(self, reply: ServiceReply) -> StepView<ProbeEvidence, bool> {
        match (self, reply) {
            (ProbeEvidence::CheckingLogin { target }, ServiceReply::Flag(authenticated)) =>
                match authenticated {
                    Err(error) => step::failing(error@),
                    Ok(false) => step::ending(false),
                    Ok(true) => step::going(ProbeEvidence::ReadingCatalog { target }),
                },
            (ProbeEvidence::ReadingCatalog { target }, ServiceReply::Catalog(catalog)) =>
                match catalog {
                    Err(error) => step::failing(error@),
                    Ok(catalog) => step::ending(
                        is_proved(true, catalog.current_account_key, target),
                    ),
                },
            _ => step::confused(),
        }
    }

    /// Takes the answer.
    pub fn resume(self, reply: ServiceReply) -> (step: Step<ProbeEvidence, bool>)
        ensures
            step@ == self.next(reply),
    {
        match (self, reply) {
            (ProbeEvidence::CheckingLogin { target }, ServiceReply::Flag(authenticated)) =>
                match authenticated {
                    Err(error) => step::fail(error),
                    Ok(false) => step::end(false),
                    Ok(true) => step::go(ProbeEvidence::ReadingCatalog { target }),
                },
            (ProbeEvidence::ReadingCatalog { target }, ServiceReply::Catalog(catalog)) =>
                match catalog {
                    Err(error) => step::fail(error),
                    Ok(catalog) => step::end(
                        service_common::login_evidence_ready(
                            true,
                            catalog.current_account_key.as_ref(),
                            &target,
                        ),
                    ),
                },
            _ => step::give_up(),
        }
    }
}

/// Finishing a login that is committed: the account is saved and shown, and the slot is
/// emptied. Each state names the work that is to be done.
#[derive(Debug)]
pub enum FinalizeLogin {
    /// The slot is to be read.
    ReadingRecord { session_id: String },
    /// The client's state after the login is to be read.
    ReadingCandidate { session_id: String },
    /// That state is to be saved as the account's.
    Saving { session_id: String, account: AccountKey, payload: SecurePayload },
    /// The hidden accounts are to be read.
    LoadingHidden { session_id: String, account: AccountKey },
    /// The hidden accounts but this one are to be written.
    WritingHidden { session_id: String, account: AccountKey },
    /// The slot of the committed login is to be emptied.
    Cleaning { session_id: String },
}

impl FinalizeLogin {
    /// What the answer leads to.
    pub open spec fn next(self, store: DataStore, reply: ServiceReply) -> StepView<
        FinalizeLogin,
        CleanupOutcomeView,
    > {
        match (self, reply) {
            (FinalizeLogin::ReadingRecord { session_id }, ServiceReply::Record(record)) =>
                match app_service::session_record(session_id@, record) {
                    Err(error) => step::failing(error),
                    Ok(record) => if record.state != RecoveryState::Committed {
                        step::failing(ErrorView::Login("登录结果尚未提交"@))
                    } else {
                        step::going(FinalizeLogin::ReadingCandidate { session_id })
                    },
                },
            (FinalizeLogin::ReadingCandidate { session_id }, ServiceReply::Payload(candidate)) =>
                match candidate {
                    Err(error) => step::failing(error@),
                    Ok(payload) => match payload.account {
                        None => step::failing(ErrorView::Login("登录候选快照缺少账号身份"@)),
                        Some(account) => step::going(
                            FinalizeLogin::Saving { session_id, account, payload },
                        ),
                    },
                },
            (FinalizeLogin::Saving { session_id, account, .. }, ServiceReply::Done(done)) =>
                match done {
                    Err(error) => step::failing(error@),
                    Ok(_) => step::going(FinalizeLogin::LoadingHidden { session_id, account }),
                },
            (FinalizeLogin::LoadingHidden { session_id, account }, ServiceReply::Hidden(stored)) =>
                match data_store::loaded_hidden_accounts(store.hidden_accounts_file(), stored) {
                    Err(error) => step::failing(ErrorView::DataStorage(error)),
                    Ok(_) => step::going(FinalizeLogin::WritingHidden { session_id, account }),
                },
            (FinalizeLogin::WritingHidden { session_id, .. }, ServiceReply::Written(written)) =>
                match data_store::hidden_accounts_error(written) {
                    Some(error) => step::failing(ErrorView::DataStorage(error)),
                    None => step::going(FinalizeLogin::Cleaning { session_id }),
                },
            (FinalizeLogin::Cleaning { .. }, ServiceReply::Done(done)) => step::ending(
                recovery::outcome_of(done),
            ),
            _ => step::confused(),
        }
    }

    /// The hidden accounts after the answer: those that are read, and then without the
    /// account that was logged in.
    pub open spec fn hidden(
        self,
        store: DataStore,
        reply: ServiceReply,
        hidden: Set<AccountKeyView>,
    ) -> Set<AccountKeyView> {
        match (self, reply) {
            (FinalizeLogin::LoadingHidden { .. }, ServiceReply::Hidden(stored)) =>
                match data_store::loaded_hidden_accounts(store.hidden_accounts_file(), stored) {
                    Err(_) => hidden,
                    Ok(loaded) => loaded,
                },
            (
                FinalizeLogin::WritingHidden { account, .. },
                ServiceReply::Written(WrittenDocument::Done),
            ) => hidden.remove(account@),
            _ => hidden,
        }
    }

    /// Takes the answer.
    pub fn resume(self, service: &mut MacosPlatformService, reply: ServiceReply) -> (step: Step<
        FinalizeLogin,
        CleanupOutcome,
    >)
        ensures
            step@ == self.next(old(service).store, reply),
            final(service).hidden_accounts@ == self.hidden(
                old(service).store,
                reply,
                old(service).hidden_accounts@,
            ),
            *final(service) == (MacosPlatformService {
                hidden_accounts: final(service).hidden_accounts,
                ..*old(service)
            }),
    {
        match (self, reply) {
            (FinalizeLogin::ReadingRecord { session_id }, ServiceReply::Record(record)) =>
                match app_service::require_login_record(session_id.as_str(), record) {
                    Err(error) => step::fail(error),
                    Ok(record) => if record.state != RecoveryState::Committed {
                        step::fail(AppError::Login("登录结果尚未提交".to_owned()))
                    } else {
                        step::go(FinalizeLogin::ReadingCandidate { session_id })
                    },
                },
            (FinalizeLogin::ReadingCandidate { session_id }, ServiceReply::Payload(candidate)) =>
                match candidate {
                    Err(error) => step::fail(error),
                    Ok(payload) => {
                        let account = match &payload.account {
                            None => {
                                return step::fail(
                                    AppError::Login("登录候选快照缺少账号身份".to_owned()),
                                );
                            },
                            Some(account) => account.clone(),
                        };
                        step::go(FinalizeLogin::Saving { session_id, account, payload })
                    },
                },
            (FinalizeLogin::Saving { session_id, account, .. }, ServiceReply::Done(done)) =>
                match done {
                    Err(error) => step::fail(error),
                    Ok(_) => step::go(FinalizeLogin::LoadingHidden { session_id, account }),
                },
            (FinalizeLogin::LoadingHidden { session_id, account }, ServiceReply::Hidden(stored)) =>
                match service.store.load_hidden_accounts(&stored) {
                    Err(error) => step::fail(AppError::DataStorage(error)),
                    Ok(hidden) => {
                        service.hidden_accounts = hidden;
                        step::go(FinalizeLogin::WritingHidden { session_id, account })
                    },
                },
            (
                FinalizeLogin::WritingHidden { session_id, account },
                ServiceReply::Written(written),
            ) => match service.store.saved_hidden_accounts(&written) {
                Err(error) => step::fail(AppError::DataStorage(error)),
                Ok(_) => {
                    service.hidden_accounts =
                    service.hidden_accounts.without(&HiddenAccountKey::from(&account));
                    step::go(FinalizeLogin::Cleaning { session_id })
                },
            },
            (FinalizeLogin::Cleaning { .. }, ServiceReply::Done(done)) => step::end(
                recovery::cleanup_outcome(done),
            ),
            _ => step::give_up(),
        }
    }
}

/// A login that is waited for.
#[derive(Debug)]
pub struct CompletionJob {
    pub session_id: String,
    pub target: AccountKey,
    pub client: ValidatedClient,
}

/// Completing a login while the lock is held. Each state names the work that is to be
/// done.
#[derive(Debug)]
pub enum CompleteAfterLock {
    /// The slot is to be read.
    ReadingRecord { session_id: String },
    /// What the slot's record is for is to be read.
    ReadingContext { session_id: String },
    /// The client is to be found.
    ResolvingClient { session_id: String, target: AccountKey },
    /// A cancellation is to be taken up, where one was asked for.
    CheckingFirst { job: CompletionJob },
    /// A cancellation is to be taken up, where one was asked for. Looking at the login has
    /// failed since the given time.
    CheckingCancel { job: CompletionJob, failing_since: Option<u64> },
    /// The login is to be looked at.
    Probing { job: CompletionJob, failing_since: Option<u64> },
    /// It is to be found out whether the client's main process runs.
    CheckingMain { job: CompletionJob },
    /// A pause is to be made.
    Sleeping { job: CompletionJob, failing_since: Option<u64> },
    /// It is to be found out whether the client runs.
    CheckingClient { job: CompletionJob },
    /// The client is to be stopped.
    Stopping { job: CompletionJob },
    /// It is to be made sure that the client is stopped.
    ConfirmingStopped { job: CompletionJob },
    /// A cancellation is to be taken up, where one was asked for.
    CheckingStopped { job: CompletionJob },
    /// The client's configuration has to settle.
    Settling { job: CompletionJob },
    /// The client's database is to be read.
    ReadingCatalog { job: CompletionJob },
    /// It is to be found out whether the client is authenticated.
    CheckingLogin { job: CompletionJob, logged_in: Option<AccountKey> },
    /// A cancellation is to be taken up, where one was asked for.
    CheckingLate { job: CompletionJob },
    /// The client's state is to be read, as that of the account.
    Capturing { job: CompletionJob },
    /// That state is to be put in the slot.
    Staging { job: CompletionJob, payload: SecurePayload },
    /// The login is to be marked as being committed, unless it was cancelled.
    BeginningCommit { job: CompletionJob },
    /// A cancellation has to be taken up.
    Abandoning { session_id: String },
    /// The slot's record is to be moved to committed.
    Marking { job: CompletionJob },
    /// The committed login is to be finished.
    Finalizing { job: CompletionJob },
    /// The client is to be started.
    Launching { client: ValidatedClient },
    /// The client has to have started.
    Starting { client: ValidatedClient },
    /// The application is to be shown.
    Showing,
    /// The login is to be cancelled.
    Cancelling { session_id: String },
}

/// What looking at the login leads to.
pub open spec fn probed(
    job: CompletionJob,
    failing_since: Option<u64>,
    ready: Result<bool, AppError>,
    now_ms: u64,
) -> StepView<CompleteAfterLock, AppSnapshot> {
    match ready {
        Ok(true) => step::saying(
            service_common::login_event(
                "stoppingClient"@,
                "正在保存登录结果"@,
                "正在关闭战网客户端"@,
                48,
            ),
            CompleteAfterLock::CheckingClient { job },
        ),
        Ok(false) => step::going(CompleteAfterLock::CheckingMain { job }),
        Err(AppError::AccountDatabaseIncompatible(error)) => step::failing(
            ErrorView::AccountDatabaseIncompatible(error@),
        ),
        Err(error) => if service_common::failed_too_long(
            failing_since,
            now_ms,
            app_service::LOGIN_PROBE_ERROR_TIMEOUT_MS,
        ) {
            step::failing(error@)
        } else {
            step::going(
                CompleteAfterLock::Sleeping {
                    job,
                    failing_since: Some(service_common::failing_from(failing_since, now_ms)),
                },
            )
        },
    }
}

fn probe(
    job: CompletionJob,
    failing_since: Option<u64>,
    ready: Result<bool, AppError>,
    now_ms: u64,
) -> (step: Step<CompleteAfterLock, AppSnapshot>)
    ensures
        step@ == probed(job, failing_since, ready, now_ms),
{
    match ready {
        Ok(true) => step::say(
            service_common::login_report(
                "stoppingClient",
                "正在保存登录结果",
                "正在关闭战网客户端",
                48,
            ),
            CompleteAfterLock::CheckingClient { job },
        ),
        Ok(false) => step::go(CompleteAfterLock::CheckingMain { job }),
        Err(AppError::AccountDatabaseIncompatible(error)) => step::fail(
            AppError::AccountDatabaseIncompatible(error),
        ),
        Err(error) => {
            let since: u64 = match failing_since {
                Some(since) => since,
                None => now_ms,
            };
            let timeout: u64 = app_service::LOGIN_PROBE_ERROR_TIMEOUT_MS;
            if now_ms >= since && now_ms - since >= timeout {
                step::fail(error)
            } else {
                step::go(CompleteAfterLock::Sleeping { job, failing_since: Some(since) })
            }
        },
    }
}

impl CompleteAfterLock {
    /// What the answer leads to.
    pub open spec fn next(self, reply: ServiceReply) -> StepView<CompleteAfterLock, AppSnapshot> {
        match (self, reply) {
            (CompleteAfterLock::ReadingRecord { session_id }, ServiceReply::Record(record)) =>
                match app_service::session_record(session_id@, record) {
                    Err(error) => step::failing(error),
                    Ok(record) => if record.state != RecoveryState::AwaitingUser {
                        step::failing(ErrorView::Login("当前登录会话不能提交"@))
                    } else {
                        step::going(CompleteAfterLock::ReadingContext { session_id })
                    },
                },
            (CompleteAfterLock::ReadingContext { session_id }, ServiceReply::Context(envelope)) =>
                match envelope {
                    Err(error) => step::failing(error@),
                    Ok(envelope) => match envelope.context {
                        RecoveryContext::Switch { .. } => step::confused(),
                        RecoveryContext::Login { intent, .. } => step::going(
                            CompleteAfterLock::ResolvingClient {
                                session_id,
                                target: intent.account(),
                            },
                        ),
                    },
                },
            (
                CompleteAfterLock::ResolvingClient { session_id, target },
                ServiceReply::Client(client),
            ) => match client {
                Err(error) => step::failing(error@),
                Ok(client) => step::going(
                    CompleteAfterLock::CheckingFirst {
                        job: CompletionJob { session_id, target, client },
                    },
                ),
            },
            (CompleteAfterLock::CheckingFirst { job }, ServiceReply::Answer(cancelled)) =>
                if cancelled {
                    step::going(CompleteAfterLock::Cancelling { session_id: job.session_id })
                } else {
                    step::saying(
                        service_common::login_event(
                            "awaitingLogin"@,
                            "正在等待战网登录"@,
                            "正在等待战网登录"@,
                            32,
                        ),
                        CompleteAfterLock::CheckingCancel { job, failing_since: None },
                    )
                },
            (
                CompleteAfterLock::CheckingCancel { job, failing_since },
                ServiceReply::Answer(cancelled),
            ) => if cancelled {
                step::going(CompleteAfterLock::Cancelling { session_id: job.session_id })
            } else {
                step::going(CompleteAfterLock::Probing { job, failing_since })
            },
            (
                CompleteAfterLock::Probing { job, failing_since },
                ServiceReply::Evidence { ready, now_ms },
            ) => probed(job, failing_since, ready, now_ms),
            (CompleteAfterLock::CheckingMain { job }, ServiceReply::Flag(running)) =>
                match running {
                    Err(error) => step::failing(error@),
                    Ok(false) => step::failing(ErrorView::Login("Battle.net 已退出，登录未完成"@)),
                    Ok(true) => step::going(
                        CompleteAfterLock::Sleeping { job, failing_since: None },
                    ),
                },
            (CompleteAfterLock::Sleeping { job, failing_since }, ServiceReply::Slept) => step::going(
                CompleteAfterLock::CheckingCancel { job, failing_since },
            ),
            (CompleteAfterLock::CheckingClient { job }, ServiceReply::Flag(running)) =>
                match running {
                    Err(error) => step::failing(error@),
                    Ok(true) => step::going(CompleteAfterLock::Stopping { job }),
                    Ok(false) => step::going(CompleteAfterLock::ConfirmingStopped { job }),
                },
            (CompleteAfterLock::Stopping { job }, ServiceReply::Done(done)) => match done {
                Err(error) => step::failing(error@),
                Ok(_) => step::going(CompleteAfterLock::ConfirmingStopped { job }),
            },
            (CompleteAfterLock::ConfirmingStopped { job }, ServiceReply::Done(done)) => match done {
                Err(error) => step::failing(error@),
                Ok(_) => step::going(CompleteAfterLock::CheckingStopped { job }),
            },
            (CompleteAfterLock::CheckingStopped { job }, ServiceReply::Answer(cancelled)) =>
                if cancelled {
                    step::going(CompleteAfterLock::Cancelling { session_id: job.session_id })
                } else {
                    step::going(CompleteAfterLock::Settling { job })
                },
            (CompleteAfterLock::Settling { job }, ServiceReply::Done(done)) => match done {
                Err(error) => step::failing(error@),
                Ok(_) => step::going(CompleteAfterLock::ReadingCatalog { job }),
            },
            (CompleteAfterLock::ReadingCatalog { job }, ServiceReply::Catalog(catalog)) =>
                match catalog {
                    Err(error) => step::failing(error@),
                    Ok(catalog) => step::going(
                        CompleteAfterLock::CheckingLogin {
                            job,
                            logged_in: catalog.current_account_key,
                        },
                    ),
                },
            (
                CompleteAfterLock::CheckingLogin { job, logged_in },
                ServiceReply::Flag(authenticated),
            ) => match authenticated {
                Err(error) => step::failing(error@),
                Ok(authenticated) => if is_proved(authenticated, logged_in, job.target) {
                    step::going(CompleteAfterLock::CheckingLate { job })
                } else {
                    step::failing(ErrorView::Login("登录结果与目标账号不一致，请确认登录的是所选账号。"@))
                },
            },
            (CompleteAfterLock::CheckingLate { job }, ServiceReply::Answer(cancelled)) =>
                if cancelled {
                    step::going(CompleteAfterLock::Cancelling { session_id: job.session_id })
                } else {
                    step::saying(
                        service_common::login_event(
                            "capturing"@,
                            "正在保存登录结果"@,
                            "正在保存登录状态"@,
                            68,
                        ),
                        CompleteAfterLock::Capturing { job },
                    )
                },
            (CompleteAfterLock::Capturing { job }, ServiceReply::Payload(captured)) =>
                match captured {
                    Err(error) => step::failing(error@),
                    Ok(payload) => step::going(CompleteAfterLock::Staging { job, payload }),
                },
            (CompleteAfterLock::Staging { job, .. }, ServiceReply::Recorded(staged)) =>
                match staged {
                    Err(error) => step::failing(error@),
                    Ok(_) => step::going(CompleteAfterLock::BeginningCommit { job }),
                },
            (CompleteAfterLock::BeginningCommit { job }, ServiceReply::Answer(committing)) =>
                if committing {
                    step::going(CompleteAfterLock::Marking { job })
                } else {
                    step::going(CompleteAfterLock::Abandoning { session_id: job.session_id })
                },
            (CompleteAfterLock::Abandoning { session_id }, ServiceReply::Answer(cancelled)) =>
                if cancelled {
                    step::going(CompleteAfterLock::Cancelling { session_id })
                } else {
                    step::failing(ErrorView::StateUnavailable)
                },
            (CompleteAfterLock::Marking { job }, ServiceReply::Recorded(marked)) => match marked {
                Err(error) => step::failing(error@),
                Ok(_) => step::going(CompleteAfterLock::Finalizing { job }),
            },
            (CompleteAfterLock::Finalizing { job }, ServiceReply::Committed(finalized)) =>
                match finalized {
                    Err(error) => step::failing(error@),
                    Ok(_) => step::saying(
                        service_common::login_event(
                            "launchingClient"@,
                            "账号已保存"@,
                            "正在启动战网客户端"@,
                            88,
                        ),
                        CompleteAfterLock::Launching { client: job.client },
                    ),
                },
            (CompleteAfterLock::Launching { client }, ServiceReply::Done(done)) => match done {
                Err(error) => step::failing(error@),
                Ok(_) => step::going(CompleteAfterLock::Starting { client }),
            },
            (CompleteAfterLock::Starting { .. }, ServiceReply::Done(done)) => match done {
                Err(error) => step::failing(error@),
                Ok(_) => step::saying(
                    service_common::login_event(
                        "completed"@,
                        "账号登录状态已保存"@,
                        "登录状态已保存"@,
                        100,
                    ),
                    CompleteAfterLock::Showing,
                ),
            },
            (CompleteAfterLock::Showing, ServiceReply::Snapshot(snapshot)) => match snapshot {
                Err(error) => step::failing(error@),
                Ok(snapshot) => step::ending(snapshot),
            },
            (CompleteAfterLock::Cancelling { .. }, ServiceReply::Snapshot(snapshot)) =>
                match snapshot {
                    Err(error) => step::failing(error@),
                    Ok(snapshot) => step::ending(snapshot),
                },
            _ => step::confused(),
        }
    }

    /// The notice after the answer: it changes where a finished login left recovery data
    /// behind.
    pub open spec fn notice(
        self,
        reply: ServiceReply,
        notice: Option<Seq<char>>,
    ) -> Option<Seq<char>> {
        match (self, reply) {
            (
                CompleteAfterLock::Finalizing { .. },
                ServiceReply::Committed(Ok(CleanupOutcome::Pending(error))),
            ) => Some("账号已保存，临时恢复文件将在下次启动时继续清理："@ + error@),
            _ => notice,
        }
    }

    /// Takes the answer.
    pub fn resume(self, service: &mut MacosPlatformService, reply: ServiceReply) -> (step: Step<
        CompleteAfterLock,
        AppSnapshot,
    >)
        ensures
            step@ == self.next(reply),
            app_service::notice_view(final(service).startup_notice) == self.notice(
                reply,
                app_service::notice_view(old(service).startup_notice),
            ),
            *final(service) == (MacosPlatformService {
                startup_notice: final(service).startup_notice,
                ..*old(service)
            }),
    {
        match (self, reply) {
            (CompleteAfterLock::ReadingRecord { session_id }, ServiceReply::Record(record)) =>
                match app_service::require_login_record(session_id.as_str(), record) {
                    Err(error) => step::fail(error),
                    Ok(record) => if record.state != RecoveryState::AwaitingUser {
                        step::fail(AppError::Login("当前登录会话不能提交".to_owned()))
                    } else {
                        step::go(CompleteAfterLock::ReadingContext { session_id })
                    },
                },
            (CompleteAfterLock::ReadingContext { session_id }, ServiceReply::Context(envelope)) =>
                match envelope {
                    Err(error) => step::fail(error),
                    Ok(envelope) => match envelope.context {
                        RecoveryContext::Switch { .. } => step::give_up(),
                        RecoveryContext::Login { intent, .. } => step::go(
                            CompleteAfterLock::ResolvingClient {
                                session_id,
                                target: intent.account_key().clone(),
                            },
                        ),
                    },
                },
            (
                CompleteAfterLock::ResolvingClient { session_id, target },
                ServiceReply::Client(client),
            ) => match client {
                Err(error) => step::fail(error),
                Ok(client) => step::go(
                    CompleteAfterLock::CheckingFirst {
                        job: CompletionJob { session_id, target, client },
                    },
                ),
            },
            (CompleteAfterLock::CheckingFirst { job }, ServiceReply::Answer(cancelled)) =>
                if cancelled {
                    step::go(CompleteAfterLock::Cancelling { session_id: job.session_id })
                } else {
                    step::say(
                        service_common::login_report(
                            "awaitingLogin",
                            "正在等待战网登录",
                            "正在等待战网登录",
                            32,
                        ),
                        CompleteAfterLock::CheckingCancel { job, failing_since: None },
                    )
                },
            (
                CompleteAfterLock::CheckingCancel { job, failing_since },
                ServiceReply::Answer(cancelled),
            ) => if cancelled {
                step::go(CompleteAfterLock::Cancelling { session_id: job.session_id })
            } else {
                step::go(CompleteAfterLock::Probing { job, failing_since })
            },
            (
                CompleteAfterLock::Probing { job, failing_since },
                ServiceReply::Evidence { ready, now_ms },
            ) => probe(job, failing_since, ready, now_ms),
            (CompleteAfterLock::CheckingMain { job }, ServiceReply::Flag(running)) =>
                match running {
                    Err(error) => step::fail(error),
                    Ok(false) => step::fail(AppError::Login("Battle.net 已退出，登录未完成".to_owned())),
                    Ok(true) => step::go(
                        CompleteAfterLock::Sleeping { job, failing_since: None },
                    ),
                },
            (CompleteAfterLock::Sleeping { job, failing_since }, ServiceReply::Slept) => step::go(
                CompleteAfterLock::CheckingCancel { job, failing_since },
            ),
            (CompleteAfterLock::CheckingClient { job }, ServiceReply::Flag(running)) =>
                match running {
                    Err(error) => step::fail(error),
                    Ok(true) => step::go(CompleteAfterLock::Stopping { job }),
                    Ok(false) => step::go(CompleteAfterLock::ConfirmingStopped { job }),
                },
            (CompleteAfterLock::Stopping { job }, ServiceReply::Done(done)) => match done {
                Err(error) => step::fail(error),
                Ok(_) => step::go(CompleteAfterLock::ConfirmingStopped { job }),
            },
            (CompleteAfterLock::ConfirmingStopped { job }, ServiceReply::Done(done)) => match done {
                Err(error) => step::fail(error),
                Ok(_) => step::go(CompleteAfterLock::CheckingStopped { job }),
            },
            (CompleteAfterLock::CheckingStopped { job }, ServiceReply::Answer(cancelled)) =>
                if cancelled {
                    step::go(CompleteAfterLock::Cancelling { session_id: job.session_id })
                } else {
                    step::go(CompleteAfterLock::Settling { job })
                },
            (CompleteAfterLock::Settling { job }, ServiceReply::Done(done)) => match done {
                Err(error) => step::fail(error),
                Ok(_) => step::go(CompleteAfterLock::ReadingCatalog { job }),
            },
            (CompleteAfterLock::ReadingCatalog { job }, ServiceReply::Catalog(catalog)) =>
                match catalog {
                    Err(error) => step::fail(error),
                    Ok(catalog) => step::go(
                        CompleteAfterLock::CheckingLogin {
                            job,
                            logged_in: catalog.current_account_key,
                        },
                    ),
                },
            (
                CompleteAfterLock::CheckingLogin { job, logged_in },
                ServiceReply::Flag(authenticated),
            ) => match authenticated {
                Err(error) => step::fail(error),
                Ok(authenticated) => if service_common::login_evidence_ready(
                    authenticated,
                    logged_in.as_ref(),
                    &job.target,
                ) {
                    step::go(CompleteAfterLock::CheckingLate { job })
                } else {
                    step::fail(AppError::Login("登录结果与目标账号不一致，请确认登录的是所选账号。".to_owned()))
                },
            },
            (CompleteAfterLock::CheckingLate { job }, ServiceReply::Answer(cancelled)) =>
                if cancelled {
                    step::go(CompleteAfterLock::Cancelling { session_id: job.session_id })
                } else {
                    step::say(
                        service_common::login_report(
                            "capturing",
                            "正在保存登录结果",
                            "正在保存登录状态",
                            68,
                        ),
                        CompleteAfterLock::Capturing { job },
                    )
                },
            (CompleteAfterLock::Capturing { job }, ServiceReply::Payload(captured)) =>
                match captured {
                    Err(error) => step::fail(error),
                    Ok(payload) => step::go(CompleteAfterLock::Staging { job, payload }),
                },
            (CompleteAfterLock::Staging { job, .. }, ServiceReply::Recorded(staged)) =>
                match staged {
                    Err(error) => step::fail(error),
                    Ok(_) => step::go(CompleteAfterLock::BeginningCommit { job }),
                },
            (CompleteAfterLock::BeginningCommit { job }, ServiceReply::Answer(committing)) =>
                if committing {
                    step::go(CompleteAfterLock::Marking { job })
                } else {
                    step::go(CompleteAfterLock::Abandoning { session_id: job.session_id })
                },
            (CompleteAfterLock::Abandoning { session_id }, ServiceReply::Answer(cancelled)) =>
                if cancelled {
                    step::go(CompleteAfterLock::Cancelling { session_id })
                } else {
                    step::fail(AppError::StateUnavailable)
                },
            (CompleteAfterLock::Marking { job }, ServiceReply::Recorded(marked)) => match marked {
                Err(error) => step::fail(error),
                Ok(_) => step::go(CompleteAfterLock::Finalizing { job }),
            },
            (CompleteAfterLock::Finalizing { job }, ServiceReply::Committed(finalized)) => {
                match finalized {
                    Err(error) => {
                        return step::fail(error);
                    },
                    Ok(CleanupOutcome::Clean) => {},
                    Ok(CleanupOutcome::Pending(error)) => {
                        service.startup_notice = Some(
                            text::joined2(
                                "账号已保存，临时恢复文件将在下次启动时继续清理：",
                                error.as_str(),
                            ),
                        );
                    },
                }
                step::say(
                    service_common::login_report(
                        "launchingClient",
                        "账号已保存",
                        "正在启动战网客户端",
                        88,
                    ),
                    CompleteAfterLock::Launching { client: job.client },
                )
            },
            (CompleteAfterLock::Launching { client }, ServiceReply::Done(done)) => match done {
                Err(error) => step::fail(error),
                Ok(_) => step::go(CompleteAfterLock::Starting { client }),
            },
            (CompleteAfterLock::Starting { .. }, ServiceReply::Done(done)) => match done {
                Err(error) => step::fail(error),
                Ok(_) => step::say(
                    service_common::login_report(
                        "completed",
                        "账号登录状态已保存",
                        "登录状态已保存",
                        100,
                    ),
                    CompleteAfterLock::Showing,
                ),
            },
            (CompleteAfterLock::Showing, ServiceReply::Snapshot(snapshot)) => match snapshot {
                Err(error) => step::fail(error),
                Ok(snapshot) => step::end(snapshot),
            },
            (CompleteAfterLock::Cancelling { .. }, ServiceReply::Snapshot(snapshot)) =>
                match snapshot {
                    Err(error) => step::fail(error),
                    Ok(snapshot) => step::end(snapshot),
                },
            _ => step::give_up(),
        }
    }
}

/// Completing a login. Each state names the work that is to be done.
#[derive(Debug)]
pub enum CompleteLogin {
    /// The lock is to be taken.
    Locking { session_id: String },
    /// The completion is to be marked as active.
    Activating { session_id: String },
    /// The login is to be completed.
    Completing { session_id: String },
    /// The undoing of the failed login is to be claimed, unless it was cancelled or is
    /// being committed.
    ClaimingRollback { session_id: String, error: AppError },
    /// The client is to be found.
    ResolvingClient { session_id: String, error: AppError },
    /// The login that failed is to be undone.
    Undoing { session_id: String, client: ValidatedClient, error: AppError },
    /// The cancellation is to be claimed, where one was asked for.
    ClaimingCancel { session_id: String, error: AppError },
    /// The login is to be cancelled.
    Cancelling { session_id: String, error: AppError },
}

impl CompleteLogin {
    /// What the answer leads to.
    pub open spec fn next(self, reply: ServiceReply) -> StepView<CompleteLogin, AppSnapshot> {
        match (self, reply) {
            (CompleteLogin::Locking { session_id }, ServiceReply::Done(done)) => match done {
                Err(error) => step::failing(error@),
                Ok(_) => step::going(CompleteLogin::Activating { session_id }),
            },
            (CompleteLogin::Activating { session_id }, ServiceReply::Done(done)) => match done {
                Err(error) => step::failing(error@),
                Ok(_) => step::going(CompleteLogin::Completing { session_id }),
            },
            (CompleteLogin::Completing { session_id }, ServiceReply::Snapshot(completed)) =>
                match completed {
                    Ok(snapshot) => step::ending(snapshot),
                    Err(error) => step::going(
                        CompleteLogin::ClaimingRollback { session_id, error },
                    ),
                },
            (CompleteLogin::ClaimingRollback { session_id, error }, ServiceReply::Answer(claimed)) =>
                if claimed {
                    step::going(CompleteLogin::ResolvingClient { session_id, error })
                } else {
                    step::going(CompleteLogin::ClaimingCancel { session_id, error })
                },
            (CompleteLogin::ResolvingClient { session_id, error }, ServiceReply::Client(client)) =>
                match client {
                    Err(failure) => step::failing(failure@),
                    Ok(client) => step::going(CompleteLogin::Undoing { session_id, client, error }),
                },
            (CompleteLogin::Undoing { .. }, ServiceReply::Snapshot(snapshot)) => match snapshot {
                Err(error) => step::failing(error@),
                Ok(snapshot) => step::ending(snapshot),
            },
            (CompleteLogin::ClaimingCancel { session_id, error }, ServiceReply::Answer(claimed)) =>
                if claimed {
                    step::going(CompleteLogin::Cancelling { session_id, error })
                } else {
                    step::failing(error@)
                },
            (CompleteLogin::Cancelling { error, .. }, ServiceReply::Snapshot(cancelled)) =>
                match cancelled {
                    Ok(snapshot) => step::ending(snapshot),
                    Err(rollback) => step::failing(
                        service_common::both_failed(error@, "；取消时恢复失败："@, rollback@),
                    ),
                },
            _ => step::confused(),
        }
    }

    /// Takes the answer.
    pub fn resume(self, reply: ServiceReply) -> (step: Step<CompleteLogin, AppSnapshot>)
        ensures
            step@ == self.next(reply),
    {
        match (self, reply) {
            (CompleteLogin::Locking { session_id }, ServiceReply::Done(done)) => match done {
                Err(error) => step::fail(error),
                Ok(_) => step::go(CompleteLogin::Activating { session_id }),
            },
            (CompleteLogin::Activating { session_id }, ServiceReply::Done(done)) => match done {
                Err(error) => step::fail(error),
                Ok(_) => step::go(CompleteLogin::Completing { session_id }),
            },
            (CompleteLogin::Completing { session_id }, ServiceReply::Snapshot(completed)) =>
                match completed {
                    Ok(snapshot) => step::end(snapshot),
                    Err(error) => step::go(
                        CompleteLogin::ClaimingRollback { session_id, error },
                    ),
                },
            (CompleteLogin::ClaimingRollback { session_id, error }, ServiceReply::Answer(claimed)) =>
                if claimed {
                    step::go(CompleteLogin::ResolvingClient { session_id, error })
                } else {
                    step::go(CompleteLogin::ClaimingCancel { session_id, error })
                },
            (CompleteLogin::ResolvingClient { session_id, error }, ServiceReply::Client(client)) =>
                match client {
                    Err(failure) => step::fail(failure),
                    Ok(client) => step::go(CompleteLogin::Undoing { session_id, client, error }),
                },
            (CompleteLogin::Undoing { .. }, ServiceReply::Snapshot(snapshot)) => match snapshot {
                Err(error) => step::fail(error),
                Ok(snapshot) => step::end(snapshot),
            },
            (CompleteLogin::ClaimingCancel { session_id, error }, ServiceReply::Answer(claimed)) =>
                if claimed {
                    step::go(CompleteLogin::Cancelling { session_id, error })
                } else {
                    step::fail(error)
                },
            (CompleteLogin::Cancelling { error, .. }, ServiceReply::Snapshot(cancelled)) =>
                match cancelled {
                    Ok(snapshot) => step::end(snapshot),
                    Err(rollback) => step::fail(
                        service_common::both_failures(error, "；取消时恢复失败：", rollback),
                    ),
                },
            _ => step::give_up(),
        }
    }
}

impl MacosPlatformService {
    /// Begins to complete the login.
    pub fn complete_login(&self, session_id: &str) -> (operation: CompleteLogin)
        ensures
            operation matches CompleteLogin::Locking { session_id: id } && id@ == session_id@,
    {
        CompleteLogin::Locking { session_id: session_id.to_owned() }
    }

    /// Begins to complete the login while the lock is held.
    pub fn complete_login_after_lock(&self, session_id: &str) -> (operation: CompleteAfterLock)
        ensures
            operation matches CompleteAfterLock::ReadingRecord { session_id: id } && id@
                == session_id@,
    {
        CompleteAfterLock::ReadingRecord { session_id: session_id.to_owned() }
    }

    /// Begins to finish the committed login.
    pub fn finalize_committed_login(&self, session_id: &str) -> (operation: FinalizeLogin)
        ensures
            operation matches FinalizeLogin::ReadingRecord { session_id: id } && id@ == session_id@,
    {
        FinalizeLogin::ReadingRecord { session_id: session_id.to_owned() }
    }

    /// Begins to look at the login of the account.
    pub fn login_evidence_ready(&self, target: &AccountKey) -> (operation: ProbeEvidence)
        ensures
            operation == (ProbeEvidence::CheckingLogin { target: *target }),
    {
        ProbeEvidence::CheckingLogin { target: target.clone() }
    }

    /// The record of the hidden accounts without the account.
    pub fn unhide(&self, account: &AccountKey) -> (document: HiddenAccountsDocument)
        ensures
            data_store::is_document_of(document, self.hidden_accounts@.remove(account@)),
    {
        let rest = self.hidden_accounts.without(&HiddenAccountKey::from(account));
        self.store.save_hidden_accounts(&rest)
    }
}

/// What the completion of a login has come to after the answers.
pub open spec fn completed(session_id: String, replies: Seq<ServiceReply>) -> StepView<
    CompleteAfterLock,
    AppSnapshot,
>
    decreases replies.len(),
{
    if replies.len() == 0 {
        step::going(CompleteAfterLock::ReadingRecord { session_id })
    } else {
        match completed(session_id, replies.drop_last()) {
            StepView::Perform { operation, .. } => operation.next(replies.last()),
            finished => finished,
        }
    }
}

/// The work of a completion that success depends on.
pub enum CompletionWork {
    /// The client was confirmed to be stopped.
    Confirm,
    /// The login was proved.
    Prove,
    /// The client's state was put in the slot.
    Stage,
    /// The commit was claimed before a cancellation.
    Claim,
    /// The record was moved to committed.
    Mark,
    /// The login was finished.
    Finish,
}

/// Whether the operation's work is the given one, and the answer says that it
/// succeeded.
pub open spec fn succeeds(
    operation: CompleteAfterLock,
    reply: ServiceReply,
    work: CompletionWork,
) -> bool {
    match (operation, reply) {
        (CompleteAfterLock::ConfirmingStopped { .. }, ServiceReply::Done(Ok(_))) => work is Confirm,
        (
            CompleteAfterLock::CheckingLogin { job, logged_in },
            ServiceReply::Flag(Ok(authenticated)),
        ) => work is Prove && is_proved(authenticated, logged_in, job.target),
        (CompleteAfterLock::Staging { .. }, ServiceReply::Recorded(Ok(_))) => work is Stage,
        (CompleteAfterLock::BeginningCommit { .. }, ServiceReply::Answer(true)) => work is Claim,
        (CompleteAfterLock::Marking { .. }, ServiceReply::Recorded(Ok(_))) => work is Mark,
        (CompleteAfterLock::Finalizing { .. }, ServiceReply::Committed(Ok(_))) => work is Finish,
        _ => false,
    }
}

/// Whether the work succeeded at the answer with this number.
pub open spec fn succeeded_at(
    session_id: String,
    replies: Seq<ServiceReply>,
    work: CompletionWork,
    i: int,
) -> bool {
    &&& 0 <= i < replies.len()
    &&& completed(session_id, replies.take(i)) matches StepView::Perform {
        operation,
        ..
    } && succeeds(operation, replies[i], work)
}

/// Whether the work succeeded among the answers.
pub open spec fn has_succeeded(
    session_id: String,
    replies: Seq<ServiceReply>,
    work: CompletionWork,
) -> bool {
    exists|i: int| succeeded_at(session_id, replies, work, i)
}

/// Whether the operation can only be reached after the work.
pub open spec fn comes_after(operation: CompleteAfterLock, work: CompletionWork) -> bool {
    match operation {
        CompleteAfterLock::CheckingStopped { .. }
        | CompleteAfterLock::Settling { .. }
        | CompleteAfterLock::ReadingCatalog { .. }
        | CompleteAfterLock::CheckingLogin { .. } => work is Confirm,
        CompleteAfterLock::CheckingLate { .. }
        | CompleteAfterLock::Capturing { .. }
        | CompleteAfterLock::Staging { .. } => work is Confirm || work is Prove,
        CompleteAfterLock::BeginningCommit { .. } => work is Confirm || work is Prove || work
            is Stage,
        CompleteAfterLock::Marking { .. } => !(work is Mark) && !(work is Finish),
        CompleteAfterLock::Finalizing { .. } => !(work is Finish),
        CompleteAfterLock::Launching { .. }
        | CompleteAfterLock::Starting { .. }
        | CompleteAfterLock::Showing => true,
        _ => false,
    }
}

/// Whether the login was cancelled at the answer with this number.
pub open spec fn cancelled_at(session_id: String, replies: Seq<ServiceReply>, i: int) -> bool {
    &&& 0 <= i < replies.len()
    &&& completed(session_id, replies.take(i)) matches StepView::Perform {
        operation,
        ..
    } && operation is Cancelling
}

/// Whether the login was cancelled among the answers.
pub open spec fn was_cancelled(session_id: String, replies: Seq<ServiceReply>) -> bool {
    exists|i: int| cancelled_at(session_id, replies, i)
}

proof fn lemma_earlier(
    session_id: String,
    replies: Seq<ServiceReply>,
    reply: ServiceReply,
    work: CompletionWork,
)
    ensures
        has_succeeded(session_id, replies, work) ==> has_succeeded(
            session_id,
            replies.push(reply),
            work,
        ),
        was_cancelled(session_id, replies) ==> was_cancelled(session_id, replies.push(reply)),
{
    if has_succeeded(session_id, replies, work) {
        let i = choose|i: int| succeeded_at(session_id, replies, work, i);
        assert(replies.push(reply).take(i) =~= replies.take(i));
        assert(succeeded_at(session_id, replies.push(reply), work, i));
    }
    if was_cancelled(session_id, replies) {
        let i = choose|i: int| cancelled_at(session_id, replies, i);
        assert(replies.push(reply).take(i) =~= replies.take(i));
        assert(cancelled_at(session_id, replies.push(reply), i));
    }
}

proof fn lemma_reached(session_id: String, replies: Seq<ServiceReply>, work: CompletionWork)
    ensures
        match completed(session_id, replies) {
            StepView::Perform { operation, .. } => comes_after(operation, work) ==> has_succeeded(
                session_id,
                replies,
                work,
            ),
            StepView::Finished(Ok(_)) => was_cancelled(session_id, replies) || has_succeeded(
                session_id,
                replies,
                work,
            ),
            StepView::Finished(Err(_)) => true,
        },
    decreases replies.len(),
{
    if replies.len() > 0 {
        let earlier = replies.drop_last();
        let reply = replies.last();
        lemma_reached(session_id, earlier, work);
        lemma_earlier(session_id, earlier, reply, work);
        assert(earlier.push(reply) =~= replies);
        let at = earlier.len() as int;
        assert(replies.take(at) =~= earlier);
        match completed(session_id, earlier) {
            StepView::Perform { operation, .. } => {
                if succeeds(operation, reply, work) {
                    assert(succeeded_at(session_id, replies, work, at));
                }
                if operation is Cancelling {
                    assert(cancelled_at(session_id, replies, at));
                }
            },
            _ => {},
        }
    }
}

/// A login that is completed, and not cancelled, was proved, while the client was
/// confirmed to be stopped, to be one of the account that was asked for; its state was put
/// in the slot, the commit was claimed before any cancellation, the record was moved to
/// committed, and the login was finished.
pub proof fn law_completed_login_was_proved_and_finished(
    session_id: String,
    replies: Seq<ServiceReply>,
)
    requires
        completed(session_id, replies) matches StepView::Finished(Ok(_)),
        !was_cancelled(session_id, replies),
    ensures
        has_succeeded(session_id, replies, CompletionWork::Confirm),
        has_succeeded(session_id, replies, CompletionWork::Prove),
        has_succeeded(session_id, replies, CompletionWork::Stage),
        has_succeeded(session_id, replies, CompletionWork::Claim),
        has_succeeded(session_id, replies, CompletionWork::Mark),
        has_succeeded(session_id, replies, CompletionWork::Finish),
{
    lemma_reached(session_id, replies, CompletionWork::Confirm);
    lemma_reached(session_id, replies, CompletionWork::Prove);
    lemma_reached(session_id, replies, CompletionWork::Stage);
    lemma_reached(session_id, replies, CompletionWork::Claim);
    lemma_reached(session_id, replies, CompletionWork::Mark);
    lemma_reached(session_id, replies, CompletionWork::Finish);
}

/// The record of a login is moved to committed only after the login was proved, its state
/// was put in the slot, and the commit was claimed before any cancellation.
pub proof fn law_login_is_committed_only_when_proved_staged_and_claimed(
    session_id: String,
    replies: Seq<ServiceReply>,
)
    requires
        completed(session_id, replies) matches StepView::Perform {
            operation: CompleteAfterLock::Marking { .. },
            ..
        },
    ensures
        has_succeeded(session_id, replies, CompletionWork::Prove),
        has_succeeded(session_id, replies, CompletionWork::Stage),
        has_succeeded(session_id, replies, CompletionWork::Claim),
{
    lemma_reached(session_id, replies, CompletionWork::Prove);
    lemma_reached(session_id, replies, CompletionWork::Stage);
    lemma_reached(session_id, replies, CompletionWork::Claim);
}

/// Whether a cancellation that was asked for is taken up here, and for which login.
pub open spec fn takes_up(operation: CompleteAfterLock) -> Option<String> {
    match operation {
        CompleteAfterLock::CheckingFirst { job } => Some(job.session_id),
        CompleteAfterLock::CheckingCancel { job, .. } => Some(job.session_id),
        CompleteAfterLock::CheckingStopped { job } => Some(job.session_id),
        CompleteAfterLock::CheckingLate { job } => Some(job.session_id),
        CompleteAfterLock::Abandoning { session_id } => Some(session_id),
        _ => None,
    }
}

/// A cancellation that is taken up leads to the login being cancelled, and a login whose
/// commit could not be claimed is not committed.
pub proof fn law_taken_up_cancellation_cancels(operation: CompleteAfterLock)
    ensures
        takes_up(operation) matches Some(session_id) ==> operation.next(ServiceReply::Answer(true))
            == step::going::<CompleteAfterLock, AppSnapshot>(
            CompleteAfterLock::Cancelling { session_id },
        ),
        operation matches CompleteAfterLock::BeginningCommit { job } ==> operation.next(
            ServiceReply::Answer(false),
        ) == step::going::<CompleteAfterLock, AppSnapshot>(
            CompleteAfterLock::Abandoning { session_id: job.session_id },
        ),
{
}

/// A committed login is saved as that of the account that its state names.
pub proof fn law_login_is_saved_as_that_of_its_account(
    store: DataStore,
    operation: FinalizeLogin,
    reply: ServiceReply,
)
    ensures
        operation.next(store, reply) matches StepView::Perform {
            operation: FinalizeLogin::Saving { account, payload, .. },
            ..
        } ==> payload.account == Some(account),
{
}

impl ProbeEvidence {
    /// How the operation goes on.
    pub open spec fn steps() -> spec_fn(ProbeEvidence, ServiceReply) -> StepView<
        ProbeEvidence,
        bool,
    > {
        |operation: ProbeEvidence, reply: ServiceReply| operation.next(reply)
    }
}

/// Looking at a login finds it ready exactly where the client is authenticated and its
/// database says that the account that was asked for is logged in; it finds it not ready
/// where the client is not authenticated, or another account or none is logged in. Work
/// that fails ends it with its error.
pub proof fn law_login_is_ready_exactly_with_its_account(
    target: AccountKey,
    run: Seq<Moment<ProbeEvidence, ServiceReply>>,
)
    requires
        step::is_run(ProbeEvidence::steps(), ProbeEvidence::CheckingLogin { target }, run),
    ensures
        step::result_of(ProbeEvidence::steps(), run) == Ok::<bool, ErrorView>(true) <==> {
            &&& run.len() == 2
            &&& run[0].reply.flag() == Some(true)
            &&& run[1].operation is ReadingCatalog
            &&& run[1].reply.catalog() is Some
            &&& run[1].reply.catalog()->0.current_account_key is Some
            &&& run[1].reply.catalog()->0.current_account_key->0@ == target@
        },
        step::result_of(ProbeEvidence::steps(), run) == Ok::<bool, ErrorView>(false) <==> {
            ||| run.len() == 1 && run[0].reply.flag() == Some(false)
            ||| {
                &&& run.len() == 2
                &&& run[0].reply.flag() == Some(true)
                &&& run[1].reply.catalog() is Some
                &&& run[1].reply.catalog()->0.current_account_key is Some
                    ==> run[1].reply.catalog()->0.current_account_key->0@ != target@
            }
        },
        forall|i: int|
            0 <= i < run.len() && (#[trigger] run[i].reply.failure()) is Some && (match run[i].operation {
                ProbeEvidence::CheckingLogin { .. } => run[i].reply is Flag,
                ProbeEvidence::ReadingCatalog { .. } => run[i].reply is Catalog,
            }) ==> i == run.len() - 1 && step::result_of(ProbeEvidence::steps(), run) == Err::<bool, ErrorView>(run[i].reply.failure()->0),
        run.len() <= 2,
{
    let steps = ProbeEvidence::steps();
    assert(step::follows(steps, run, 0));
    if run.len() > 1 {
        assert(step::follows(steps, run, 1));
    }
}

impl FinalizeLogin {
    /// How the operation goes on.
    pub open spec fn steps(store: DataStore) -> spec_fn(FinalizeLogin, ServiceReply) -> StepView<
        FinalizeLogin,
        CleanupOutcomeView,
    > {
        |operation: FinalizeLogin, reply: ServiceReply| operation.next(store, reply)
    }
}

/// Finishing a login succeeds exactly where the slot holds its record as committed, the
/// state after the login was read and names its account, that state was saved as this
/// account's, the hidden accounts were read or were not there and were written, and
/// emptying the slot was tried. A slot that could not be emptied is reported with the
/// reason.
pub proof fn law_committed_login_is_saved_and_shown(
    store: DataStore,
    session_id: String,
    run: Seq<Moment<FinalizeLogin, ServiceReply>>,
)
    requires
        step::is_run(FinalizeLogin::steps(store), FinalizeLogin::ReadingRecord { session_id }, run),
    ensures
        step::result_of(FinalizeLogin::steps(store), run) is Ok <==> {
            let payload = run[1].reply->Payload_0->Ok_0;
            let account = payload.account->0;
            &&& run.len() == 6
            &&& run[0].reply is Record
            &&& run[0].reply->Record_0 is Ok
            &&& run[0].reply->Record_0->Ok_0 is Some
            &&& run[0].reply->Record_0->Ok_0->0.id@ == session_id@
            &&& run[0].reply->Record_0->Ok_0->0.kind == RecoveryKind::Login
            &&& run[0].reply->Record_0->Ok_0->0.state == RecoveryState::Committed
            &&& run[1].operation == (FinalizeLogin::ReadingCandidate { session_id })
            &&& run[1].reply is Payload
            &&& run[1].reply->Payload_0 is Ok
            &&& payload.account is Some
            &&& run[2].operation == (FinalizeLogin::Saving { session_id, account, payload })
            &&& run[2].reply.is_done()
            &&& run[3].operation == (FinalizeLogin::LoadingHidden { session_id, account })
            &&& run[3].reply is Hidden
            &&& run[3].reply->Hidden_0 is Missing || (run[3].reply->Hidden_0 is Present
                && run[3].reply->Hidden_0->Present_0.version == data_store::HIDDEN_ACCOUNTS_VERSION)
            &&& run[4].operation == (FinalizeLogin::WritingHidden { session_id, account })
            &&& run[4].reply == ServiceReply::Written(WrittenDocument::Done)
            &&& run[5].operation == (FinalizeLogin::Cleaning { session_id })
            &&& run[5].reply is Done
        },
        step::result_of(FinalizeLogin::steps(store), run) is Ok && run[5].reply.is_done() ==> step::result_of(FinalizeLogin::steps(store), run) == Ok::<CleanupOutcomeView, ErrorView>(
            CleanupOutcomeView::Clean,
        ),
        step::result_of(FinalizeLogin::steps(store), run) is Ok && run[5].reply.failure() is Some ==> step::result_of(FinalizeLogin::steps(store), run) == Ok::<CleanupOutcomeView, ErrorView>(
            CleanupOutcomeView::Pending(run[5].reply.failure()->0.message()),
        ),
        run.len() <= 6,
{
    let steps = FinalizeLogin::steps(store);
    assert(step::follows(steps, run, 0));
    if run.len() > 1 {
        assert(step::follows(steps, run, 1));
    }
    if run.len() > 2 {
        assert(step::follows(steps, run, 2));
    }
    if run.len() > 3 {
        assert(step::follows(steps, run, 3));
    }
    if run.len() > 4 {
        assert(step::follows(steps, run, 4));
    }
    if run.len() > 5 {
        assert(step::follows(steps, run, 5));
    }
}

impl CompleteAfterLock {
    /// How the operation goes on.
    pub open spec fn steps() -> spec_fn(CompleteAfterLock, ServiceReply) -> StepView<
        CompleteAfterLock,
        AppSnapshot,
    > {
        |operation: CompleteAfterLock, reply: ServiceReply| operation.next(reply)
    }
}

/// A login that was noticed is committed and finished exactly where, in this order, a
/// client that runs was stopped, it was confirmed to be stopped, no cancellation was asked
/// for, its configuration settled, its database says that the account that was asked for
/// is logged in, the client is authenticated, no cancellation was asked for, its state was
/// read and put in the slot, the commit was claimed, the record was moved to committed,
/// the login was finished, the client was started and came up, and the application was
/// shown. Every other way in which the run succeeds ends with the login being cancelled.
#[verifier::rlimit(60)]
pub proof fn law_noticed_login_is_checked_staged_and_committed(
    job: CompletionJob,
    run: Seq<Moment<CompleteAfterLock, ServiceReply>>,
)
    requires
        step::is_run(CompleteAfterLock::steps(), CompleteAfterLock::CheckingClient { job }, run),
    ensures
        step::result_of(CompleteAfterLock::steps(), run) is Ok && !(run.last().operation
            is Cancelling) <==> {
            let k: int = if run[0].reply.flag() == Some(true) {
                1
            } else {
                0
            };
            &&& run.len() == 15 + k
            &&& run[0].reply.flag() is Some
            &&& k == 1 ==> run[1].operation == (CompleteAfterLock::Stopping { job })
            &&& k == 1 ==> run[1].reply.is_done()
            &&& run[1 + k].operation == (CompleteAfterLock::ConfirmingStopped { job })
            &&& run[1 + k].reply.is_done()
            &&& run[2 + k].operation == (CompleteAfterLock::CheckingStopped { job })
            &&& run[2 + k].reply == ServiceReply::Answer(false)
            &&& run[3 + k].operation == (CompleteAfterLock::Settling { job })
            &&& run[3 + k].reply.is_done()
            &&& run[4 + k].operation == (CompleteAfterLock::ReadingCatalog { job })
            &&& run[4 + k].reply.catalog() is Some
            &&& run[4 + k].reply.catalog()->0.current_account_key is Some
            &&& run[4 + k].reply.catalog()->0.current_account_key->0@ == job.target@
            &&& run[5 + k].operation is CheckingLogin
            &&& run[5 + k].reply.flag() == Some(true)
            &&& run[6 + k].operation == (CompleteAfterLock::CheckingLate { job })
            &&& run[6 + k].reply == ServiceReply::Answer(false)
            &&& run[7 + k].operation == (CompleteAfterLock::Capturing { job })
            &&& run[7 + k].reply is Payload
            &&& run[7 + k].reply->Payload_0 is Ok
            &&& run[8 + k].operation == (CompleteAfterLock::Staging { job, payload: run[7 + k].reply->Payload_0->Ok_0 })
            &&& run[8 + k].reply is Recorded
            &&& run[8 + k].reply->Recorded_0 is Ok
            &&& run[9 + k].operation == (CompleteAfterLock::BeginningCommit { job })
            &&& run[9 + k].reply == ServiceReply::Answer(true)
            &&& run[10 + k].operation == (CompleteAfterLock::Marking { job })
            &&& run[10 + k].reply is Recorded
            &&& run[10 + k].reply->Recorded_0 is Ok
            &&& run[11 + k].operation == (CompleteAfterLock::Finalizing { job })
            &&& run[11 + k].reply is Committed
            &&& run[11 + k].reply->Committed_0 is Ok
            &&& run[12 + k].operation == (CompleteAfterLock::Launching { client: job.client })
            &&& run[12 + k].reply.is_done()
            &&& run[13 + k].operation == (CompleteAfterLock::Starting { client: job.client })
            &&& run[13 + k].reply.is_done()
            &&& run[14 + k].operation is Showing
            &&& run[14 + k].reply is Snapshot
            &&& run[14 + k].reply->Snapshot_0 is Ok
        },
        run.len() <= 17,
{
    let steps = CompleteAfterLock::steps();
    assert(step::follows(steps, run, 0));
    if run.len() > 1 {
        assert(step::follows(steps, run, 1));
    }
    if run.len() > 2 {
        assert(step::follows(steps, run, 2));
    }
    if run.len() > 3 {
        assert(step::follows(steps, run, 3));
    }
    if run.len() > 4 {
        assert(step::follows(steps, run, 4));
    }
    if run.len() > 5 {
        assert(step::follows(steps, run, 5));
    }
    if run.len() > 6 {
        assert(step::follows(steps, run, 6));
    }
    if run.len() > 7 {
        assert(step::follows(steps, run, 7));
    }
    if run.len() > 8 {
        assert(step::follows(steps, run, 8));
    }
    if run.len() > 9 {
        assert(step::follows(steps, run, 9));
    }
    if run.len() > 10 {
        assert(step::follows(steps, run, 10));
    }
    if run.len() > 11 {
        assert(step::follows(steps, run, 11));
    }
    if run.len() > 12 {
        assert(step::follows(steps, run, 12));
    }
    if run.len() > 13 {
        assert(step::follows(steps, run, 13));
    }
    if run.len() > 14 {
        assert(step::follows(steps, run, 14));
    }
    if run.len() > 15 {
        assert(step::follows(steps, run, 15));
    }
    if run.len() > 16 {
        assert(step::follows(steps, run, 16));
    }
}

/// Waiting for a login begins with the login that waits for the user in the slot, with the
/// account that it is for and the client, unless one of them cannot be read. A login that is
/// noticed is taken up, one that is not is looked at again as long as the client runs, and
/// looking that fails is repeated until it has failed for the whole time that is allowed,
/// counted from its first failure in a row; a database of another form is not looked at again.
pub proof fn law_login_is_waited_for(
    session_id: String,
    run: Seq<Moment<CompleteAfterLock, ServiceReply>>,
    i: int,
)
    requires
        step::is_run(
            CompleteAfterLock::steps(),
            CompleteAfterLock::ReadingRecord { session_id },
            run,
        ),
        0 <= i < run.len(),
    ensures
        run.len() > 1 <==> {
            &&& run[0].reply is Record
            &&& run[0].reply->Record_0 is Ok
            &&& run[0].reply->Record_0->Ok_0 is Some
            &&& run[0].reply->Record_0->Ok_0->0.id@ == session_id@
            &&& run[0].reply->Record_0->Ok_0->0.kind == RecoveryKind::Login
            &&& run[0].reply->Record_0->Ok_0->0.state == RecoveryState::AwaitingUser
        },
        run.len() > 1 ==> run[1].operation == (CompleteAfterLock::ReadingContext { session_id }),
        run.len() > 1 ==> (run.len() > 2 <==> {
            &&& run[1].reply is Context
            &&& run[1].reply->Context_0 is Ok
            &&& run[1].reply->Context_0->Ok_0.context is Login
        }),
        run.len() > 2 ==> (run.len() > 3 <==> run[2].reply is Client && run[2].reply->Client_0
            is Ok),
        run.len() > 3 ==> run[3].operation is CheckingFirst && ({
            let job = run[3].operation->CheckingFirst_job;
            &&& job.session_id == session_id
            &&& job.target == run[1].reply->Context_0->Ok_0.context->Login_intent.account()
            &&& job.client == run[2].reply->Client_0->Ok_0
        }),
        run[i].operation is Probing && run[i].reply is Evidence ==> {
            let job = run[i].operation->Probing_job;
            let since = run[i].operation->Probing_failing_since;
            let now = run[i].reply->now_ms;
            match run[i].reply->ready {
                Ok(true) => i + 1 < run.len() && run[i + 1].operation == (
                CompleteAfterLock::CheckingClient { job }),
                Ok(false) => i + 1 < run.len() && run[i + 1].operation == (
                CompleteAfterLock::CheckingMain { job }),
                Err(error) => {
                    let first = if since is Some {
                        since->0
                    } else {
                        now
                    };
                    if error is AccountDatabaseIncompatible || now - first
                        >= app_service::LOGIN_PROBE_ERROR_TIMEOUT_MS {
                        i + 1 == run.len() && step::result_of(CompleteAfterLock::steps(), run)
                            == Err::<AppSnapshot, ErrorView>(error@)
                    } else {
                        i + 1 < run.len() && run[i + 1].operation == (CompleteAfterLock::Sleeping {
                            job,
                            failing_since: Some(first),
                        })
                    }
                },
            }
        },
        run[i].operation is CheckingMain && run[i].reply is Flag ==> {
            &&& run[i].reply.flag() == Some(true) <==> i + 1 < run.len()
            &&& i + 1 < run.len() ==> run[i + 1].operation == (CompleteAfterLock::Sleeping {
                job: run[i].operation->CheckingMain_job,
                failing_since: None,
            })
        },
        run[i].operation is Sleeping && run[i].reply is Slept ==> i + 1 < run.len() && run[i
            + 1].operation == (CompleteAfterLock::CheckingCancel {
            job: run[i].operation->Sleeping_job,
            failing_since: run[i].operation->Sleeping_failing_since,
        }),
        run[i].operation is CheckingFirst && run[i].reply == ServiceReply::Answer(false) ==> i + 1
            < run.len() && run[i + 1].operation == (CompleteAfterLock::CheckingCancel {
            job: run[i].operation->CheckingFirst_job,
            failing_since: None,
        }),
        run[i].operation is CheckingCancel && run[i].reply == ServiceReply::Answer(false) ==> i + 1
            < run.len() && run[i + 1].operation == (CompleteAfterLock::Probing {
            job: run[i].operation->CheckingCancel_job,
            failing_since: run[i].operation->CheckingCancel_failing_since,
        }),
{
    let steps = CompleteAfterLock::steps();
    assert(step::follows(steps, run, 0));
    if run.len() > 1 {
        assert(step::follows(steps, run, 1));
    }
    if run.len() > 2 {
        assert(step::follows(steps, run, 2));
    }
    assert(step::follows(steps, run, i));
}

impl CompleteLogin {
    /// How the operation goes on.
    pub open spec fn steps() -> spec_fn(CompleteLogin, ServiceReply) -> StepView<
        CompleteLogin,
        AppSnapshot,
    > {
        |operation: CompleteLogin, reply: ServiceReply| operation.next(reply)
    }
}

/// Completing a login succeeds exactly where the lock was taken, the completion was marked
/// as active, and the login was completed, or it failed and was undone or cancelled with
/// success: it is undone where its undoing was claimed and the client was found, and
/// cancelled where it was not claimed and the cancellation was. The error of the login is
/// what the undoing and the cancelling are done with, and the result where neither was
/// claimed.
pub proof fn law_failed_completion_is_undone_or_cancelled(
    session_id: String,
    run: Seq<Moment<CompleteLogin, ServiceReply>>,
)
    requires
        step::is_run(CompleteLogin::steps(), CompleteLogin::Locking { session_id }, run),
    ensures
        step::result_of(CompleteLogin::steps(), run) is Ok <==> {
            let error = run[2].reply->Snapshot_0->Err_0;
            &&& run.len() == 3 || run.len() == 6
            &&& run[0].reply.is_done()
            &&& run[1].operation == (CompleteLogin::Activating { session_id })
            &&& run[1].reply.is_done()
            &&& run[2].operation == (CompleteLogin::Completing { session_id })
            &&& run[2].reply is Snapshot
            &&& run[2].reply->Snapshot_0 is Ok <==> run.len() == 3
            &&& run.len() == 6 ==> run[3].operation == (CompleteLogin::ClaimingRollback {
                session_id,
                error,
            })
            &&& run.len() == 6 ==> run[3].reply is Answer
            &&& run.len() == 6 && run[3].reply->Answer_0 ==> {
                &&& run[4].operation == (CompleteLogin::ResolvingClient { session_id, error })
                &&& run[4].reply is Client
                &&& run[4].reply->Client_0 is Ok
                &&& run[5].operation == (CompleteLogin::Undoing {
                    session_id,
                    client: run[4].reply->Client_0->Ok_0,
                    error,
                })
            }
            &&& run.len() == 6 && !run[3].reply->Answer_0 ==> {
                &&& run[4].operation == (CompleteLogin::ClaimingCancel { session_id, error })
                &&& run[4].reply == ServiceReply::Answer(true)
                &&& run[5].operation == (CompleteLogin::Cancelling { session_id, error })
            }
            &&& run.last().reply is Snapshot
            &&& run.last().reply->Snapshot_0 is Ok
        },
        step::result_of(CompleteLogin::steps(), run) is Ok ==> step::result_of(
            CompleteLogin::steps(),
            run,
        ) == Ok::<AppSnapshot, ErrorView>(run.last().reply->Snapshot_0->Ok_0@),
        run.len() > 4 && run[3].reply == ServiceReply::Answer(false) && run[4].reply
            == ServiceReply::Answer(false) ==> run.len() == 5 && step::result_of(
            CompleteLogin::steps(),
            run,
        ) == Err::<AppSnapshot, ErrorView>(run[2].reply->Snapshot_0->Err_0@),
        run.len() <= 6,
{
    let steps = CompleteLogin::steps();
    assert(step::follows(steps, run, 0));
    if run.len() > 1 {
        assert(step::follows(steps, run, 1));
    }
    if run.len() > 2 {
        assert(step::follows(steps, run, 2));
    }
    if run.len() > 3 {
        assert(step::follows(steps, run, 3));
    }
    if run.len() > 4 {
        assert(step::follows(steps, run, 4));
    }
    if run.len() > 5 {
        assert(step::follows(steps, run, 5));
    }
}

} // verus!
