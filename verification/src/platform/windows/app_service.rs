//! The service on Windows: its state, what the front end is shown of it, and the
//! rules that its operations share.

use vstd::prelude::*;

use crate::contracts;
use crate::contracts::AccountCatalog;
use crate::contracts::AccountKey;
use crate::contracts::AccountKeyView;
use crate::contracts::AppSnapshot;
use crate::contracts::ClientSnapshot;
use crate::contracts::ClientStatus;
use crate::contracts::DiscoveredAccount;
use crate::contracts::LoginIntent;
use crate::contracts::LoginSessionSnapshot;
use crate::contracts::SnapshotStatus;
use crate::data_store::DataStore;
use crate::data_store::HiddenAccounts;
use crate::data_store::HiddenAccountsDocument;
use crate::data_store::SettingsDocument;
use crate::data_store::StoredDocument;
use crate::data_store::WrittenDocument;
use crate::error::AppError;
use crate::error::ErrorView;
use crate::platform::windows::authentication::AuthenticationBaseline;
use crate::platform::windows::login_session::LoginRecoveryOutcome;
use crate::platform::windows::paths::BattleNetPaths;
use crate::platform::windows::restore::CommitOutcome;
use crate::platform::windows::restore::RecoveryOutcome;
use crate::platform::windows::restore::RestoreReceipt;
use crate::platform::windows::snapshot::SnapshotSummary;
use crate::platform::windows::snapshot::ValidatedSnapshot;
use crate::service_common;
use crate::service_common::FileStamp;
use crate::service_common::Stability;
use crate::service_common::StabilityWatch;
use crate::step;
use crate::step::Moment;
use crate::step::Step;
use crate::step::StepView;
use crate::text;

verus! {

/// How long the lock is waited for.
pub const LOCK_TIMEOUT_MS: u64 = 1000;

/// How long the client gets to stop.
pub const CLIENT_STOP_TIMEOUT_MS: u64 = 25000;

/// How long the client gets to start.
pub const CLIENT_START_TIMEOUT_MS: u64 = 10000;

/// How long the client gets to confirm an account.
pub const ACCOUNT_VERIFY_TIMEOUT_MS: u64 = 45000;

/// The pause between two looks at a login.
pub const LOGIN_POLL_INTERVAL_MS: u64 = 250;

/// How long looking at a login may fail without interruption.
pub const LOGIN_PROBE_ERROR_TIMEOUT_MS: u64 = 10000;

/// How long the client's files get to settle.
pub const SETTLE_TIMEOUT_MS: u64 = 6000;

/// The service.
#[derive(Debug)]
pub struct WindowsPlatformService {
    pub store: DataStore,
    pub paths: BattleNetPaths,
    pub hidden_accounts: HiddenAccounts,
    pub settings: SettingsDocument,
    pub startup_notice: Option<String>,
}

/// The text, where there is one, as a character sequence.
pub open spec fn notice_view(notice: Option<String>) -> Option<Seq<char>> {
    match notice {
        Some(notice) => Some(notice@),
        None => None,
    }
}

/// What was found when the service was started.
#[derive(Debug)]
pub struct StartFacts {
    pub store: Result<DataStore, AppError>,
    pub hidden_accounts: Result<HiddenAccounts, String>,
    pub settings: Result<SettingsDocument, String>,
    pub paths: Result<BattleNetPaths, AppError>,
    /// What came of opening the directories of the saved accounts, of the
    /// engine and of the logins.
    pub snapshots: Result<(), AppError>,
    pub restore: Result<(), AppError>,
    pub login_sessions: Result<(), AppError>,
    /// Whether a switch waits to be recovered.
    pub pending_switch: bool,
}

/// The first thing that keeps the service from starting.
pub open spec fn start_error(facts: StartFacts) -> Option<ErrorView> {
    match facts.store {
        Err(error) => Some(error@),
        Ok(_) => match facts.hidden_accounts {
            Err(error) => Some(ErrorView::DataStorage(error@)),
            Ok(_) => match facts.settings {
                Err(error) => Some(ErrorView::DataStorage(error@)),
                Ok(_) => match facts.paths {
                    Err(error) => Some(error@),
                    Ok(_) => match facts.snapshots {
                        Err(error) => Some(error@),
                        Ok(_) => match facts.restore {
                            Err(error) => Some(error@),
                            Ok(_) => match facts.login_sessions {
                                Err(error) => Some(error@),
                                Ok(_) => None,
                            },
                        },
                    },
                },
            },
        },
    }
}

/// What is saved of an account.
pub open spec fn saved_state(
    summary: Result<Option<SnapshotSummary>, AppError>,
    validated: Result<(), AppError>,
) -> (SnapshotStatus, Option<u64>, Option<Seq<char>>) {
    match (summary, validated) {
        (Ok(Some(summary)), Ok(_)) => (SnapshotStatus::Ready, Some(summary.last_saved_at), None),
        (Ok(Some(summary)), Err(error)) => (
            SnapshotStatus::Expired,
            Some(summary.last_saved_at),
            Some(error@.message()),
        ),
        (Ok(None), _) => (SnapshotStatus::Missing, None, None),
        (Err(error), _) => (SnapshotStatus::Expired, None, Some(error@.message())),
    }
}

/// What is saved of an account: `summary` is what its profile says, `validated`
/// what came of checking it.
pub fn saved_status(
    summary: Result<Option<SnapshotSummary>, AppError>,
    validated: Result<(), AppError>,
) -> (status: (SnapshotStatus, Option<u64>, Option<String>))
    ensures
        (status.0, status.1, notice_view(status.2)) == saved_state(summary, validated),
{
    match (summary, validated) {
        (Ok(Some(summary)), Ok(_)) => (SnapshotStatus::Ready, Some(summary.last_saved_at), None),
        (Ok(Some(summary)), Err(error)) => (
            SnapshotStatus::Expired,
            Some(summary.last_saved_at),
            Some(error.message()),
        ),
        (Ok(None), _) => (SnapshotStatus::Missing, None, None),
        (Err(error), _) => (SnapshotStatus::Expired, None, Some(error.message())),
    }
}

/// What was found for a snapshot of the whole application.
#[derive(Debug)]
pub struct SnapshotFacts {
    pub version: String,
    pub client_path: Option<String>,
    pub running: Result<bool, AppError>,
    pub login_session: Result<Option<LoginSessionSnapshot>, AppError>,
    pub now: u64,
}

/// The notice about the catalog: none where it could be read.
pub open spec fn catalog_notice(catalog: Result<AccountCatalog, AppError>) -> Option<Seq<char>> {
    match catalog {
        Ok(_) => None,
        Err(AppError::AccountDatabaseMissing) => Some("登录战网后点击刷新账号。"@),
        Err(error) => Some(error@.message()),
    }
}

/// The accounts of the catalog: none where it could not be read.
pub open spec fn catalog_accounts(catalog: Result<AccountCatalog, AppError>) -> Seq<
    DiscoveredAccount,
> {
    match catalog {
        Ok(catalog) => catalog.accounts@,
        Err(_) => Seq::empty(),
    }
}

/// Whether the snapshot shows the service with what was found.
pub open spec fn shows_service(
    service: WindowsPlatformService,
    snapshot: AppSnapshot,
    catalog: Result<AccountCatalog, AppError>,
    facts: SnapshotFacts,
) -> bool {
    &&& snapshot.app_name@ == "战网切号器"@
    &&& snapshot.version == facts.version
    &&& snapshot.mode@ == "desktop"@
    &&& snapshot.platform@ == "windows"@
    &&& snapshot.data_directory@ == service.store.directory()
    &&& snapshot.client.status == (if facts.running->Ok_0 {
        ClientStatus::Running
    } else {
        ClientStatus::Stopped
    })
    &&& snapshot.client.executable_path@ == (match facts.client_path {
        Some(path) => path@,
        None => Seq::empty(),
    })
    &&& snapshot.client.detected_automatically == (service.settings.client_executable_path is None
        && facts.client_path is Some)
    &&& snapshot.login_session == facts.login_session->Ok_0
    &&& notice_view(snapshot.notice) == (match service.startup_notice {
        Some(notice) => Some(notice@),
        None => catalog_notice(catalog),
    })
    &&& snapshot.updated_at == facts.now
}

impl WindowsPlatformService {
    /// Starts the service with what was found.
    pub fn new(facts: StartFacts) -> (service: Result<WindowsPlatformService, AppError>)
        ensures
            match service {
                Err(error) => start_error(facts) == Some(error@),
                Ok(service) => {
                    &&& start_error(facts) is None
                    &&& service.store == facts.store->Ok_0
                    &&& service.paths == facts.paths->Ok_0
                    &&& service.hidden_accounts == facts.hidden_accounts->Ok_0
                    &&& service.settings == facts.settings->Ok_0
                    &&& notice_view(service.startup_notice) == (if facts.pending_switch {
                        Some("检测到上次未完成的切换，正在安全恢复原配置。"@)
                    } else {
                        None
                    })
                },
            },
    {
        let store = match facts.store {
            Ok(store) => store,
            Err(error) => {
                return Err(error);
            },
        };
        let hidden_accounts = match facts.hidden_accounts {
            Ok(hidden_accounts) => hidden_accounts,
            Err(error) => {
                return Err(AppError::DataStorage(error));
            },
        };
        let settings = match facts.settings {
            Ok(settings) => settings,
            Err(error) => {
                return Err(AppError::DataStorage(error));
            },
        };
        let paths = match facts.paths {
            Ok(paths) => paths,
            Err(error) => {
                return Err(error);
            },
        };
        match facts.snapshots {
            Ok(_) => {},
            Err(error) => {
                return Err(error);
            },
        }
        match facts.restore {
            Ok(_) => {},
            Err(error) => {
                return Err(error);
            },
        }
        match facts.login_sessions {
            Ok(_) => {},
            Err(error) => {
                return Err(error);
            },
        }
        let startup_notice = if facts.pending_switch {
            Some("检测到上次未完成的切换，正在安全恢复原配置。".to_owned())
        } else {
            None
        };
        Ok(WindowsPlatformService { store, paths, hidden_accounts, settings, startup_notice })
    }

    /// What the front end is shown: `catalog` is what the client's database says,
    /// `snapshot_status` what is saved of an account.
    pub fn snapshot_from_catalog<
        F: Fn(&AccountKey) -> (SnapshotStatus, Option<u64>, Option<String>),
    >(
        &self,
        catalog: Result<AccountCatalog, AppError>,
        facts: SnapshotFacts,
        snapshot_status: F,
    ) -> (snapshot: Result<AppSnapshot, AppError>)
        requires
            forall|key: &AccountKey| #[trigger] call_requires(snapshot_status, (key,)),
        ensures
            match (facts.running, facts.login_session) {
                (Err(error), _) => snapshot == Err::<AppSnapshot, AppError>(error),
                (Ok(_), Err(error)) => snapshot == Err::<AppSnapshot, AppError>(error),
                (Ok(_), Ok(_)) => {
                    let shown = service_common::shown_accounts(
                        catalog_accounts(catalog),
                        self.hidden_accounts@,
                    );
                    &&& snapshot is Ok
                    &&& shows_service(*self, snapshot->Ok_0, catalog, facts)
                    &&& snapshot->Ok_0.accounts.len() == shown.len()
                    &&& forall|i: int|
                        0 <= i < shown.len() ==> service_common::shown_as(
                            snapshot_status,
                            #[trigger] snapshot->Ok_0.accounts@[i],
                            shown[i],
                        )
                },
            },
    {
        let (accounts, read_notice): (Vec<DiscoveredAccount>, Option<String>) = match catalog {
            Ok(catalog) => (catalog.accounts, None),
            Err(AppError::AccountDatabaseMissing) => {
                let none: Vec<DiscoveredAccount> = Vec::new();
                (none, Some("登录战网后点击刷新账号。".to_owned()))
            },
            Err(error) => {
                let none: Vec<DiscoveredAccount> = Vec::new();
                (none, Some(error.message()))
            },
        };
        assert(accounts@ =~= catalog_accounts(catalog));
        let running = match facts.running {
            Ok(running) => running,
            Err(error) => {
                return Err(error);
            },
        };
        let accounts = service_common::account_snapshots(
            &accounts,
            &self.hidden_accounts,
            snapshot_status,
        );
        let login_session = match facts.login_session {
            Ok(session) => session,
            Err(error) => {
                return Err(error);
            },
        };
        let detected_automatically = self.settings.client_executable_path.is_none()
            && facts.client_path.is_some();
        let executable_path = match facts.client_path {
            Some(path) => path,
            None => {
                let empty = String::new();
                assert(empty@ =~= Seq::<char>::empty());
                empty
            },
        };
        let notice = match &self.startup_notice {
            Some(notice) => Some(notice.clone()),
            None => read_notice,
        };
        Ok(
            AppSnapshot {
                app_name: "战网切号器".to_owned(),
                version: facts.version,
                mode: "desktop".to_owned(),
                platform: "windows".to_owned(),
                data_directory: self.store.data_directory().to_owned(),
                client: ClientSnapshot {
                    status: if running {
                        ClientStatus::Running
                    } else {
                        ClientStatus::Stopped
                    },
                    executable_path,
                    detected_automatically,
                },
                accounts,
                login_session,
                notice,
                updated_at: facts.now,
            },
        )
    }
}

/// The client to be used: the configured one where it is valid, else the one that
/// was detected.
pub fn resolved_client_path(
    configured: Option<Result<String, AppError>>,
    detected: Option<String>,
) -> (path: Option<String>)
    ensures
        path == (match configured {
            Some(Ok(path)) => Some(path),
            _ => detected,
        }),
{
    match configured {
        Some(Ok(path)) => Some(path),
        _ => detected,
    }
}

/// What came of the work for an operation of the service.
#[derive(Debug)]
pub enum ServiceReply {
    Done(Result<(), AppError>),
    Flag(Result<bool, AppError>),
    Answer(bool),
    Client(Option<String>),
    Session(Result<Option<LoginSessionSnapshot>, AppError>),
    Target(Result<ValidatedSnapshot, AppError>),
    Catalog(Result<AccountCatalog, AppError>),
    Applied(Result<RestoreReceipt, AppError>),
    Committed(Result<CommitOutcome, AppError>),
    Recovered(Result<RecoveryOutcome, AppError>),
    LoginRecovered(Result<LoginRecoveryOutcome, AppError>),
    Baseline(Result<AuthenticationBaseline, AppError>),
    Begun(Result<LoginSessionSnapshot, AppError>),
    Awaiting(Result<(LoginIntent, Option<AccountKey>), AppError>),
    Evidence { evidence: Result<LoginEvidence, AppError>, now_ms: u64 },
    Hidden(StoredDocument<HiddenAccountsDocument>),
    Settings(StoredDocument<SettingsDocument>),
    Written(WrittenDocument),
    Executable(Result<String, AppError>),
    Snapshot(Result<AppSnapshot, AppError>),
    Slept,
    /// There was nothing to do but the report.
    Reported,
}

impl View for AppSnapshot {
    type V = AppSnapshot;

    open spec fn view(&self) -> AppSnapshot {
        *self
    }
}

/// Two errors in one message.
pub open spec fn combined(primary: ErrorView, secondary: ErrorView) -> ErrorView {
    ErrorView::Message(primary.nested() + "；"@ + secondary.nested())
}

/// Two errors in one message.
pub fn combine_errors(primary: AppError, secondary: AppError) -> (error: AppError)
    ensures
        error@ == combined(primary@, secondary@),
{
    AppError::Message(
        text::joined3(
            primary.nested_message().as_str(),
            "；",
            secondary.nested_message().as_str(),
        ),
    )
}

/// What is known of a login that is under way.
#[derive(Debug)]
pub enum LoginEvidence {
    Pending,
    Ready(AccountKey),
    WrongAccount,
}

impl View for LoginEvidence {
    type V = LoginEvidence;

    open spec fn view(&self) -> LoginEvidence {
        *self
    }
}

/// Whether the account that is logged in is the one that was asked for.
pub open spec fn is_requested(intent: LoginIntent, current: AccountKeyView) -> bool {
    &&& contracts::region_of(intent.account().environment@) is Some ==> contracts::region_of(
        current.environment,
    ) == contracts::region_of(intent.account().environment@)
    &&& current == intent.account()@
}

/// Checks that the account that is logged in is the one that was asked for.
pub fn validate_login_identity(intent: &LoginIntent, current: &AccountKey) -> (result: Result<
    (),
    AppError,
>)
    ensures
        result is Ok == is_requested(*intent, current@),
        result is Ok == (current@ == intent.account()@),
        result is Err ==> result->Err_0@ == ErrorView::Login(
            "登录结果与目标账号不一致，请确认登录的是所选账号。"@,
        ),
{
    match intent.requested_region() {
        Some(region) => {
            if !region.matches_environment(current.environment.as_str()) {
                return Err(
                    AppError::Login("登录结果与目标账号不一致，请确认登录的是所选账号。".to_owned()),
                );
            }
        },
        None => {},
    }
    if service_common::login_evidence_ready(true, Some(current), intent.account_key()) {
        Ok(())
    } else {
        Err(AppError::Login("登录结果与目标账号不一致，请确认登录的是所选账号。".to_owned()))
    }
}

/// What the signs of a login amount to.
pub open spec fn evidence_of(
    completed_marker: bool,
    fresh_authentication: bool,
    current: Option<AccountKey>,
    intent: LoginIntent,
) -> LoginEvidence {
    if !completed_marker || !fresh_authentication {
        LoginEvidence::Pending
    } else {
        match current {
            None => LoginEvidence::Pending,
            Some(current) => if current@ == intent.account()@ {
                LoginEvidence::Ready(current)
            } else {
                LoginEvidence::WrongAccount
            },
        }
    }
}

/// What the signs of a login amount to.
pub fn classify_login_evidence(
    completed_marker: bool,
    fresh_authentication: bool,
    current: Option<AccountKey>,
    intent: &LoginIntent,
) -> (evidence: LoginEvidence)
    ensures
        evidence == evidence_of(completed_marker, fresh_authentication, current, *intent),
{
    if !completed_marker || !fresh_authentication {
        return LoginEvidence::Pending;
    }
    match current {
        None => LoginEvidence::Pending,
        Some(current) => match validate_login_identity(intent, &current) {
            Ok(_) => LoginEvidence::Ready(current),
            Err(_) => LoginEvidence::WrongAccount,
        },
    }
}

/// The account that was logged in, where it is the one that was asked for.
pub open spec fn resolved_login(intent: LoginIntent, current: Option<AccountKey>) -> Result<
    AccountKey,
    ErrorView,
> {
    match current {
        None => Err(ErrorView::Login("尚未检测到已登录账号，请返回战网完成登录"@)),
        Some(current) => if current@ == intent.account()@ {
            Ok(current)
        } else {
            Err(ErrorView::Login("登录结果与目标账号不一致，请确认登录的是所选账号。"@))
        },
    }
}

/// The account that was logged in, where it is the one that was asked for.
pub fn resolve_login_account(
    intent: &LoginIntent,
    current_account: Option<AccountKey>,
) -> (account: Result<AccountKey, AppError>)
    ensures
        crate::platform::windows::recovery::is_result(
            account,
            resolved_login(*intent, current_account),
        ),
{
    match current_account {
        None => Err(AppError::Login("尚未检测到已登录账号，请返回战网完成登录".to_owned())),
        Some(current) => match validate_login_identity(intent, &current) {
            Ok(_) => Ok(current),
            Err(error) => Err(error),
        },
    }
}

/// Looking at a login: whether the client's configuration names an account, then
/// whether the authentication is fresh, then which account is logged in.
#[derive(Debug)]
pub enum ProbeLogin {
    /// It is to be found out whether the configuration names an account.
    CheckingMarker,
    /// The authentication values are to be read.
    ReadingAuthentication,
    /// The client's database is to be read.
    ReadingCatalog { fresh: bool },
}

impl ProbeLogin {
    /// What the answer leads to.
    pub open spec fn next(
        self,
        reply: ServiceReply,
        intent: LoginIntent,
        baseline: AuthenticationBaseline,
    ) -> StepView<ProbeLogin, LoginEvidence> {
        match (self, reply) {
            (ProbeLogin::CheckingMarker, ServiceReply::Flag(flag)) => match flag {
                Err(error) => step::failing(error@),
                Ok(false) => step::ending(LoginEvidence::Pending),
                Ok(true) => step::going(ProbeLogin::ReadingAuthentication),
            },
            (ProbeLogin::ReadingAuthentication, ServiceReply::Baseline(current)) => match current {
                Err(error) => step::failing(error@),
                Ok(current) => step::going(
                    ProbeLogin::ReadingCatalog {
                        fresh: crate::platform::windows::authentication::is_fresh(
                            baseline@,
                            current@,
                        ),
                    },
                ),
            },
            (ProbeLogin::ReadingCatalog { fresh }, ServiceReply::Catalog(catalog)) =>
                match catalog {
                    Err(error) => step::failing(error@),
                    Ok(catalog) => step::ending(
                        evidence_of(true, fresh, catalog.current_account_key, intent),
                    ),
                },
            _ => step::confused(),
        }
    }

    /// Takes the answer.
    pub fn resume(
        self,
        reply: ServiceReply,
        intent: &LoginIntent,
        baseline: &AuthenticationBaseline,
    ) -> (step: Step<ProbeLogin, LoginEvidence>)
        ensures
            step@ == self.next(reply, *intent, *baseline),
    {
        match (self, reply) {
            (ProbeLogin::CheckingMarker, ServiceReply::Flag(flag)) => match flag {
                Err(error) => step::fail(error),
                Ok(false) => step::end(LoginEvidence::Pending),
                Ok(true) => step::go(ProbeLogin::ReadingAuthentication),
            },
            (ProbeLogin::ReadingAuthentication, ServiceReply::Baseline(current)) => match current {
                Err(error) => step::fail(error),
                Ok(current) => step::go(
                    ProbeLogin::ReadingCatalog { fresh: baseline.has_fresh_value_since(&current) },
                ),
            },
            (ProbeLogin::ReadingCatalog { fresh }, ServiceReply::Catalog(catalog)) =>
                match catalog {
                    Err(error) => step::fail(error),
                    Ok(catalog) => step::end(
                        classify_login_evidence(true, fresh, catalog.current_account_key, intent),
                    ),
                },
            _ => step::give_up(),
        }
    }
}

/// Waiting for the client to confirm an account: it has to be the one that is
/// logged in twice in a row.
#[derive(Debug)]
pub struct AccountWatch {
    pub expected: AccountKey,
    pub matching_samples: u8,
    /// Why the last sample could not be read.
    pub last_error: Option<AppError>,
}

/// What a sample found before the deadline, or that the deadline had passed.
#[derive(Debug)]
pub enum AccountSample {
    OutOfTime,
    /// Whether the client runs could not be found out.
    Unknown(AppError),
    NotRunning,
    Catalog(Result<AccountCatalog, AppError>),
}

/// Begins to wait for the client to confirm the account.
pub fn wait_for_account(expected: &AccountKey) -> (watch: AccountWatch)
    ensures
        watch == (AccountWatch { expected: *expected, matching_samples: 0, last_error: None }),
{
    AccountWatch { expected: expected.clone(), matching_samples: 0, last_error: None }
}

impl AccountWatch {
    /// The error when the time is over.
    pub open spec fn timeout(self) -> ErrorView {
        ErrorView::Transaction(
            "等待目标账号登录超时；"@ + (match self.last_error {
                Some(error) => "最后一次读取失败："@ + error@.message(),
                None => "战网没有确认目标账号，登录状态可能已经失效"@,
            }),
        )
    }

    /// What a sample leads to.
    pub open spec fn next(self, sample: AccountSample) -> StepView<AccountWatch, ()> {
        match sample {
            AccountSample::OutOfTime => step::failing(self.timeout()),
            AccountSample::Unknown(error) => step::failing(error@),
            AccountSample::NotRunning => step::failing(
                ErrorView::Transaction("战网客户端在确认账号前已退出，切换未完成"@),
            ),
            AccountSample::Catalog(Ok(catalog)) => if contracts::key_view(
                catalog.current_account_key,
            ) == Some(self.expected@) {
                if self.matching_samples >= 1 {
                    step::ending(())
                } else {
                    step::going(
                        AccountWatch { matching_samples: 1, last_error: None, ..self },
                    )
                }
            } else {
                step::going(AccountWatch { matching_samples: 0, last_error: None, ..self })
            },
            AccountSample::Catalog(Err(error)) => step::going(
                AccountWatch { matching_samples: 0, last_error: Some(error), ..self },
            ),
        }
    }

    /// Takes a sample.
    pub fn resume(self, sample: AccountSample) -> (step: Step<AccountWatch, ()>)
        ensures
            step@ == self.next(sample),
    {
        match sample {
            AccountSample::OutOfTime => {
                let detail = match &self.last_error {
                    Some(error) => text::joined2(
                        "最后一次读取失败：",
                        error.message().as_str(),
                    ),
                    None => "战网没有确认目标账号，登录状态可能已经失效".to_owned(),
                };
                step::fail(
                    AppError::Transaction(
                        text::joined2("等待目标账号登录超时；", detail.as_str()),
                    ),
                )
            },
            AccountSample::Unknown(error) => step::fail(error),
            AccountSample::NotRunning => step::fail(
                AppError::Transaction("战网客户端在确认账号前已退出，切换未完成".to_owned()),
            ),
            AccountSample::Catalog(Ok(catalog)) => {
                let matches = match &catalog.current_account_key {
                    Some(key) => *key == self.expected,
                    None => false,
                };
                if matches {
                    if self.matching_samples >= 1 {
                        step::end(())
                    } else {
                        step::go(
                            AccountWatch {
                                expected: self.expected,
                                matching_samples: 1,
                                last_error: None,
                            },
                        )
                    }
                } else {
                    step::go(
                        AccountWatch {
                            expected: self.expected,
                            matching_samples: 0,
                            last_error: None,
                        },
                    )
                }
            },
            AccountSample::Catalog(Err(error)) => step::go(
                AccountWatch {
                    expected: self.expected,
                    matching_samples: 0,
                    last_error: Some(error),
                },
            ),
        }
    }
}

/// Whether the sample found the expected account logged in.
pub open spec fn confirms(sample: AccountSample, expected: AccountKeyView) -> bool {
    sample matches AccountSample::Catalog(Ok(catalog)) && contracts::key_view(
        catalog.current_account_key,
    ) == Some(expected)
}

/// What the watch has come to after the samples.
pub open spec fn watched(expected: AccountKey, samples: Seq<AccountSample>) -> StepView<
    AccountWatch,
    (),
>
    decreases samples.len(),
{
    if samples.len() == 0 {
        step::going(AccountWatch { expected, matching_samples: 0, last_error: None })
    } else {
        match watched(expected, samples.drop_last()) {
            StepView::Perform { operation, .. } => operation.next(samples.last()),
            finished => finished,
        }
    }
}

/// An account is confirmed exactly at the second sample in a row that finds it
/// logged in.
pub proof fn law_account_needs_two_matching_samples(
    expected: AccountKey,
    samples: Seq<AccountSample>,
    sample: AccountSample,
)
    requires
        watched(expected, samples) is Perform,
    ensures
        watched(expected, samples.push(sample)) == step::ending::<AccountWatch, ()>(()) <==>
            confirms(sample, expected@) && samples.len() >= 1 && confirms(
            samples.last(),
            expected@,
        ),
{
    assert(samples.push(sample).drop_last() =~= samples);
    lemma_matching(expected, samples);
}

proof fn lemma_matching(expected: AccountKey, samples: Seq<AccountSample>)
    requires
        watched(expected, samples) is Perform,
    ensures
        watched(expected, samples)->operation.expected == expected,
        watched(expected, samples)->operation.matching_samples == (if samples.len() >= 1
            && confirms(samples.last(), expected@) {
            1int
        } else {
            0int
        }),
    decreases samples.len(),
{
    if samples.len() > 0 {
        lemma_matching(expected, samples.drop_last());
    }
}

/// Waiting for the client's files to settle.
#[derive(Debug)]
pub enum SettleWatch {
    /// It is to be found out whether the client's files are there.
    CheckingDirectory,
    /// A first sample is to be taken.
    Beginning,
    /// Another sample is to be taken.
    Watching { watch: StabilityWatch },
}

/// What came of the work for [`SettleWatch`].
#[derive(Debug)]
pub enum SettleReply {
    Present(bool),
    OutOfTime,
    Stamps(Result<Vec<FileStamp>, AppError>),
}

/// Begins to wait for the client's files to settle.
pub fn wait_for_stable_directory() -> (watch: SettleWatch)
    ensures
        watch == SettleWatch::CheckingDirectory,
{
    SettleWatch::CheckingDirectory
}

impl SettleWatch {
    /// What the answer leads to.
    pub open spec fn next(self, reply: SettleReply) -> StepView<SettleWatch, ()> {
        match (self, reply) {
            (SettleWatch::CheckingDirectory, SettleReply::Present(present)) => if present {
                step::going(SettleWatch::Beginning)
            } else {
                step::failing(
                    ErrorView::Snapshot("未找到 Battle.net 配置目录，请先登录一次战网客户端"@),
                )
            },
            (SettleWatch::Beginning, SettleReply::Stamps(stamps)) => match stamps {
                Err(error) => step::failing(error@),
                Ok(stamps) => step::going(
                    SettleWatch::Watching {
                        watch: StabilityWatch { previous: stamps, stable_samples: 0 },
                    },
                ),
            },
            (SettleWatch::Watching { watch }, SettleReply::OutOfTime) => step::failing(
                ErrorView::Snapshot("战网配置仍在变化，请稍后重试"@),
            ),
            (SettleWatch::Watching { watch }, SettleReply::Stamps(stamps)) => match stamps {
                Err(error) => step::failing(error@),
                Ok(stamps) => {
                    let same = service_common::stamp_views(stamps@) == service_common::stamp_views(
                        watch.previous@,
                    );
                    if same && watch.stable_samples >= 1 {
                        step::ending(())
                    } else if same {
                        step::going(
                            SettleWatch::Watching {
                                watch: StabilityWatch { stable_samples: 1, ..watch },
                            },
                        )
                    } else {
                        step::going(
                            SettleWatch::Watching {
                                watch: StabilityWatch { previous: stamps, stable_samples: 0 },
                            },
                        )
                    }
                },
            },
            _ => step::confused(),
        }
    }

    /// Takes the answer.
    pub fn resume(self, reply: SettleReply) -> (step: Step<SettleWatch, ()>)
        ensures
            step@ == self.next(reply),
    {
        match (self, reply) {
            (SettleWatch::CheckingDirectory, SettleReply::Present(present)) => if present {
                step::go(SettleWatch::Beginning)
            } else {
                step::fail(
                    AppError::Snapshot(
                        "未找到 Battle.net 配置目录，请先登录一次战网客户端".to_owned(),
                    ),
                )
            },
            (SettleWatch::Beginning, SettleReply::Stamps(stamps)) => match stamps {
                Err(error) => step::fail(error),
                Ok(stamps) => step::go(SettleWatch::Watching { watch: StabilityWatch::new(stamps) }),
            },
            (SettleWatch::Watching { watch: _ }, SettleReply::OutOfTime) => step::fail(
                AppError::Snapshot("战网配置仍在变化，请稍后重试".to_owned()),
            ),
            (SettleWatch::Watching { watch }, SettleReply::Stamps(stamps)) => match stamps {
                Err(error) => step::fail(error),
                Ok(stamps) => match watch.wait_for_stable(stamps) {
                    Stability::Stable => step::end(()),
                    Stability::Watching(watch) => step::go(SettleWatch::Watching { watch }),
                },
            },
            _ => step::give_up(),
        }
    }
}

impl ServiceReply {
    /// Why the work was not done.
    pub open spec fn failure(self) -> Option<ErrorView> {
        match self {
            ServiceReply::Done(Err(error)) => Some(error@),
            ServiceReply::Flag(Err(error)) => Some(error@),
            ServiceReply::Session(Err(error)) => Some(error@),
            ServiceReply::Target(Err(error)) => Some(error@),
            ServiceReply::Catalog(Err(error)) => Some(error@),
            ServiceReply::Applied(Err(error)) => Some(error@),
            ServiceReply::Committed(Err(error)) => Some(error@),
            ServiceReply::Recovered(Err(error)) => Some(error@),
            ServiceReply::LoginRecovered(Err(error)) => Some(error@),
            ServiceReply::Baseline(Err(error)) => Some(error@),
            ServiceReply::Begun(Err(error)) => Some(error@),
            ServiceReply::Awaiting(Err(error)) => Some(error@),
            ServiceReply::Executable(Err(error)) => Some(error@),
            ServiceReply::Snapshot(Err(error)) => Some(error@),
            _ => None,
        }
    }

    /// Whether the work was done.
    pub open spec fn is_done(self) -> bool {
        self matches ServiceReply::Done(Ok(_))
    }

    /// What was found out.
    pub open spec fn flag(self) -> Option<bool> {
        match self {
            ServiceReply::Flag(Ok(flag)) => Some(flag),
            _ => None,
        }
    }

    /// The values that were read.
    pub open spec fn values(self) -> Option<Map<Seq<char>, Seq<char>>> {
        match self {
            ServiceReply::Baseline(Ok(values)) => Some(values@),
            _ => None,
        }
    }

    /// The accounts that were read.
    pub open spec fn catalog(self) -> Option<AccountCatalog> {
        match self {
            ServiceReply::Catalog(Ok(catalog)) => Some(catalog),
            _ => None,
        }
    }
}

impl ProbeLogin {
    /// How the operation goes on.
    pub open spec fn steps(intent: LoginIntent, baseline: AuthenticationBaseline) -> spec_fn(
        ProbeLogin,
        ServiceReply,
    ) -> StepView<ProbeLogin, LoginEvidence> {
        |operation: ProbeLogin, reply: ServiceReply| operation.next(reply, intent, baseline)
    }
}

/// Whether the name has a value that it did not have before.
pub open spec fn is_new_value(
    before: Map<Seq<char>, Seq<char>>,
    after: Map<Seq<char>, Seq<char>>,
    name: Seq<char>,
) -> bool {
    after.dom().contains(name) && (!before.dom().contains(name) || before[name] != after[name])
}

/// Whether some name has a value that it did not have before.
pub open spec fn has_new_value(
    before: Map<Seq<char>, Seq<char>>,
    after: Map<Seq<char>, Seq<char>>,
) -> bool {
    exists|name: Seq<char>| #[trigger] is_new_value(before, after, name)
}

/// A run of looking at a login finds it ready for an account exactly where the configuration
/// named an account, some authentication value was new or not what it was before, and the
/// account that is logged in is this one and the one that was asked for. It finds another
/// account exactly where all of that holds but for the account not being the one that was
/// asked for. Work that fails ends the run with its error, and everything else leaves the
/// login pending.
pub proof fn law_login_is_ready_exactly_with_fresh_evidence(
    intent: LoginIntent,
    baseline: AuthenticationBaseline,
    run: Seq<Moment<ProbeLogin, ServiceReply>>,
    key: AccountKey,
)
    requires
        step::is_run(ProbeLogin::steps(intent, baseline), ProbeLogin::CheckingMarker, run),
    ensures
        run.len() <= 3,
        step::result_of(ProbeLogin::steps(intent, baseline), run) == Ok::<LoginEvidence, ErrorView>(
            LoginEvidence::Ready(key),
        ) <==> {
            &&& run.len() == 3
            &&& run[0].reply.flag() == Some(true)
            &&& run[1].operation is ReadingAuthentication
            &&& run[1].reply.values() is Some
            &&& exists|name: Seq<char>| #[trigger]
                is_new_value(baseline@, run[1].reply.values()->0, name)
            &&& run[2].operation is ReadingCatalog
            &&& run[2].reply.catalog() is Some
            &&& run[2].reply.catalog()->0.current_account_key == Some(key)
            &&& key@ == intent.account()@
        },
        step::result_of(ProbeLogin::steps(intent, baseline), run) == Ok::<LoginEvidence, ErrorView>(
            LoginEvidence::WrongAccount,
        ) <==> {
            &&& run.len() == 3
            &&& run[0].reply.flag() == Some(true)
            &&& run[1].operation is ReadingAuthentication
            &&& run[1].reply.values() is Some
            &&& exists|name: Seq<char>| #[trigger]
                is_new_value(baseline@, run[1].reply.values()->0, name)
            &&& run[2].operation is ReadingCatalog
            &&& run[2].reply.catalog() is Some
            &&& run[2].reply.catalog()->0.current_account_key is Some
            &&& run[2].reply.catalog()->0.current_account_key->0@ != intent.account()@
        },
        run.last().reply.failure() is Some && (run.last().reply is Flag <==> run.last().operation
            is CheckingMarker) && (run.last().reply is Baseline <==> run.last().operation
            is ReadingAuthentication) && (run.last().reply is Catalog <==> run.last().operation
            is ReadingCatalog) ==> step::result_of(ProbeLogin::steps(intent, baseline), run) == Err::<
            LoginEvidence,
            ErrorView,
        >(run.last().reply.failure()->0),
        run[0].reply.flag() == Some(false) ==> step::result_of(
            ProbeLogin::steps(intent, baseline),
            run,
        ) == Ok::<LoginEvidence, ErrorView>(LoginEvidence::Pending),
        run.len() == 3 && run[2].reply.catalog() is Some && (run[2].reply.catalog()->0.current_account_key
            is None || !exists|name: Seq<char>| #[trigger]
            is_new_value(baseline@, run[1].reply.values()->0, name)) ==> step::result_of(
            ProbeLogin::steps(intent, baseline),
            run,
        ) == Ok::<LoginEvidence, ErrorView>(LoginEvidence::Pending),
{
    let steps = ProbeLogin::steps(intent, baseline);
    assert(step::follows(steps, run, 0));
    if run.len() > 1 {
        assert(step::follows(steps, run, 1));
        let now = run[1].reply.values()->0;
        lemma_new_value(baseline@, now);
    }
    if run.len() > 2 {
        assert(step::follows(steps, run, 2));
    }
}

/// The authentication is fresh exactly where some name has a value that it did not have.
pub proof fn lemma_new_value(
    before: Map<Seq<char>, Seq<char>>,
    after: Map<Seq<char>, Seq<char>>,
)
    ensures
        crate::platform::windows::authentication::is_fresh(before, after) <==> exists|
            name: Seq<char>,
        | #[trigger] is_new_value(before, after, name),
{
    if crate::platform::windows::authentication::is_fresh(before, after) {
        let name = choose|name: Seq<char>| #[trigger]
            after.dom().contains(name) && !(before.dom().contains(name) && before[name]
                == after[name]);
        assert(is_new_value(before, after, name));
    }
    if exists|name: Seq<char>| #[trigger] is_new_value(before, after, name) {
        let name = choose|name: Seq<char>| #[trigger] is_new_value(before, after, name);
        assert(after.dom().contains(name));
    }
}

impl SettleWatch {
    /// How the operation goes on.
    pub open spec fn steps() -> spec_fn(SettleWatch, SettleReply) -> StepView<
        SettleWatch,
        (),
    > {
        |operation: SettleWatch, reply: SettleReply| operation.next(reply)
    }
}

/// The stamps that a sample found, where it could be taken.
pub open spec fn sampled_stamps(reply: SettleReply) -> Option<Seq<service_common::FileStampView>> {
    match reply {
        SettleReply::Stamps(Ok(stamps)) => Some(service_common::stamp_views(stamps@)),
        _ => None,
    }
}

proof fn lemma_settling(run: Seq<Moment<SettleWatch, SettleReply>>, i: int)
    requires
        step::is_run(SettleWatch::steps(), SettleWatch::CheckingDirectory, run),
        2 <= i < run.len(),
    ensures
        run[0].reply == SettleReply::Present(true),
        run[i].operation is Watching,
        sampled_stamps(run[i - 1].reply) == Some(
            service_common::stamp_views(run[i].operation->watch.previous@),
        ),
        run[i].operation->watch.stable_samples == (if i >= 3 && sampled_stamps(run[i - 1].reply)
            == sampled_stamps(run[i - 2].reply) {
            1int
        } else {
            0int
        }),
    decreases i,
{
    assert(step::follows(SettleWatch::steps(), run, 0));
    assert(step::follows(SettleWatch::steps(), run, 1));
    if i > 2 {
        lemma_settling(run, i - 1);
        assert(step::follows(SettleWatch::steps(), run, i - 1));
    }
}

/// The client's files have settled exactly where they are there and three samples in a row,
/// the last ones of the run, found the same. A sample that cannot be taken ends the waiting
/// with its error.
pub proof fn law_files_settle_with_three_equal_samples(
    run: Seq<Moment<SettleWatch, SettleReply>>,
)
    requires
        step::is_run(SettleWatch::steps(), SettleWatch::CheckingDirectory, run),
    ensures
        step::result_of(SettleWatch::steps(), run) is Ok <==> {
            let n = run.len() as int;
            &&& n >= 4
            &&& run[0].reply == SettleReply::Present(true)
            &&& sampled_stamps(run[n - 1].reply) is Some
            &&& sampled_stamps(run[n - 1].reply) == sampled_stamps(run[n - 2].reply)
            &&& sampled_stamps(run[n - 2].reply) == sampled_stamps(run[n - 3].reply)
        },
        run.len() > 1 && run.last().reply is Stamps && run.last().reply->Stamps_0 is Err
            ==> step::result_of(SettleWatch::steps(), run) == Err::<(), ErrorView>(
            run.last().reply->Stamps_0->Err_0@,
        ),
        run[0].reply == SettleReply::Present(true) ==> run.len() > 1,
{
    let steps = SettleWatch::steps();
    assert(step::follows(steps, run, 0));
    if run.len() > 1 {
        assert(step::follows(steps, run, 1));
    }
    if run.len() > 2 {
        let last = run.len() - 1;
        lemma_settling(run, last);
        assert(step::follows(steps, run, last));
    }
}

/// Waiting for an account fails exactly where the time is over, the client has ended, or it
/// is not known whether it runs; what cannot be read of the account only starts the count anew.
pub proof fn law_waiting_for_an_account_ends_with_the_client(watch: AccountWatch, sample: AccountSample)
    ensures
        watch.next(sample) matches StepView::Finished(Err(_)) <==> sample is OutOfTime || sample
            is Unknown || sample is NotRunning,
        sample matches AccountSample::Unknown(error) ==> watch.next(sample) == step::failing::<AccountWatch, ()>(
            error@,
        ),
        watch.next(sample) matches StepView::Perform { operation, .. } ==> operation.expected
            == watch.expected && (operation.matching_samples == 1 <==> (sample matches AccountSample::Catalog(
            Ok(catalog),
        ) && catalog.current_account_key is Some && catalog.current_account_key->0@
            == watch.expected@)) && operation.matching_samples <= 1,
{
}

} // verus!
