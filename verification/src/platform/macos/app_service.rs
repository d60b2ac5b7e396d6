//! The service on macOS: its state, what the front end is shown of it, and the rules
//! that its operations share.

use vstd::prelude::*;

use crate::contracts;
use crate::contracts::AccountCatalog;
use crate::contracts::AccountKey;
use crate::contracts::AccountKeyView;
use crate::contracts::AppSnapshot;
use crate::contracts::ClientSnapshot;
use crate::contracts::ClientStatus;
use crate::contracts::DiscoveredAccount;
use crate::contracts::LoginSessionSnapshot;
use crate::contracts::SnapshotStatus;
use crate::data_store::DataStore;
use crate::data_store::HiddenAccounts;
use crate::data_store::HiddenAccountsDocument;
use crate::data_store::SettingsDocument;
use crate::data_store::StoredDocument;
use crate::data_store::WrittenDocument;
use crate::error::AppError;
use crate::error::ErrorView;
use crate::platform::macos::paths::BattleNetPaths;
use crate::platform::macos::preferences::PreferenceSnapshot;
use crate::platform::macos::process::ValidatedClient;
use crate::platform::macos::recovery::CleanupOutcome;
use crate::platform::macos::recovery::RecoveryEnvelope;
use crate::platform::macos::recovery::RecoveryKind;
use crate::platform::macos::recovery::RecoveryRecord;
use crate::platform::macos::recovery::RecoveryState;
use crate::platform::macos::secure_snapshot::ConfigSnapshot;
use crate::platform::macos::secure_snapshot::SecurePayload;
use crate::platform::macos::secure_snapshot::SnapshotSummary;
use crate::property_list;
use crate::service_common;
use crate::service_common::FileStamp;
use crate::service_common::Stability;
use crate::service_common::StabilityWatch;
use crate::step::Moment;
use crate::step;
use crate::step::Step;
use crate::step::StepView;
use crate::text;

verus! {

/// How long the lock is waited for.
pub const LOCK_TIMEOUT_MS: u64 = 1000;

/// How long the client gets to stop.
pub const CLIENT_STOP_TIMEOUT_MS: u64 = 25000;

/// How long the client gets to start.
pub const CLIENT_START_TIMEOUT_MS: u64 = 15000;

/// How long the client gets to confirm an account.
pub const HEALTH_CHECK_TIMEOUT_MS: u64 = 20000;

/// The pause between two looks at a login.
pub const LOGIN_POLL_INTERVAL_MS: u64 = 250;

/// How long looking at a login may fail without interruption.
pub const LOGIN_PROBE_ERROR_TIMEOUT_MS: u64 = 10000;

/// How long the client's configuration gets to settle.
pub const SETTLE_TIMEOUT_MS: u64 = 4000;

/// The service.
#[derive(Debug)]
pub struct MacosPlatformService {
    pub store: DataStore,
    pub paths: BattleNetPaths,
    pub hidden_accounts: HiddenAccounts,
    pub settings: SettingsDocument,
    pub startup_notice: Option<String>,
}

/// What was found when the service was started.
#[derive(Debug)]
pub struct StartFacts {
    pub store: Result<DataStore, AppError>,
    pub hidden_accounts: Result<HiddenAccounts, String>,
    pub settings: Result<SettingsDocument, String>,
    pub paths: Result<BattleNetPaths, AppError>,
    /// What came of opening the directories of the saved accounts and of the slot.
    pub snapshots: Result<(), AppError>,
    pub recovery: Result<(), AppError>,
    /// The record in the slot.
    pub record: Result<Option<RecoveryRecord>, AppError>,
}

/// The first thing that keeps the service from starting.
pub open spec fn start_error(facts: StartFacts) -> Option<ErrorView> {
    match facts.store {
        Err(error) => Some(error@),
        Ok(_) => match facts.hidden_accounts {
            Err(error) => Some(ErrorView::DataStorage(error@)),
            Ok(_) => match facts.settings {
                Err(error) => Some(ErrorView::DataStorage(error@)),
                Ok(_) => match facts.paths {
                    Err(error) => Some(error@),
                    Ok(_) => match facts.snapshots {
                        Err(error) => Some(error@),
                        Ok(_) => match facts.recovery {
                            Err(error) => Some(error@),
                            Ok(_) => match facts.record {
                                Err(error) => Some(error@),
                                Ok(_) => None,
                            },
                        },
                    },
                },
            },
        },
    }
}

/// Whether the record is that of an operation that has to be undone.
pub open spec fn is_unfinished(record: RecoveryRecord) -> bool {
    record.state == RecoveryState::Prepared || (record.state == RecoveryState::AwaitingUser
        && record.kind == RecoveryKind::Login)
}

/// The text, where there is one, as a character sequence.
pub open spec fn notice_view(notice: Option<String>) -> Option<Seq<char>> {
    property_list::text_view(notice)
}

/// What is saved of an account.
pub open spec fn saved_state(
    summary: Result<Option<SnapshotSummary>, AppError>,
    validated: Result<(), AppError>,
) -> (SnapshotStatus, Option<u64>, Option<Seq<char>>) {
    match (summary, validated) {
        (Ok(Some(summary)), Ok(_)) => (SnapshotStatus::Ready, Some(summary.last_saved_at), None),
        (Ok(Some(summary)), Err(error)) => (
            SnapshotStatus::Expired,
            Some(summary.last_saved_at),
            Some(error@.message()),
        ),
        (Ok(None), _) => (SnapshotStatus::Missing, None, None),
        (Err(error), _) => (SnapshotStatus::Expired, None, Some(error@.message())),
    }
}

/// What is saved of an account: `summary` is what its profile says, `validated` what came
/// of checking it.
pub fn saved_status(
    summary: Result<Option<SnapshotSummary>, AppError>,
    validated: Result<(), AppError>,
) -> (status: (SnapshotStatus, Option<u64>, Option<String>))
    ensures
        (status.0, status.1, notice_view(status.2)) == saved_state(summary, validated),
{
    match (summary, validated) {
        (Ok(Some(summary)), Ok(_)) => (SnapshotStatus::Ready, Some(summary.last_saved_at), None),
        (Ok(Some(summary)), Err(error)) => (
            SnapshotStatus::Expired,
            Some(summary.last_saved_at),
            Some(error.message()),
        ),
        (Ok(None), _) => (SnapshotStatus::Missing, None, None),
        (Err(error), _) => (SnapshotStatus::Expired, None, Some(error.message())),
    }
}

/// A client that is shown: its bundle, and whether its main process runs.
#[derive(Debug)]
pub struct ShownClient {
    pub bundle: String,
    pub running: Result<bool, AppError>,
}

/// What was found for a snapshot of the whole application.
#[derive(Debug)]
pub struct SnapshotFacts {
    pub version: String,
    pub client: Result<Option<ShownClient>, AppError>,
    pub login_session: Result<Option<LoginSessionSnapshot>, AppError>,
    pub now: u64,
}

/// The notice about the catalog: none where it could be read.
pub open spec fn catalog_notice(catalog: Result<AccountCatalog, AppError>) -> Option<Seq<char>> {
    match catalog {
        Ok(_) => None,
        Err(AppError::AccountDatabaseMissing) => Some("登录战网后点击刷新账号。"@),
        Err(error) => Some(error@.message()),
    }
}

/// The accounts of the catalog: none where it could not be read.
pub open spec fn catalog_accounts(catalog: Result<AccountCatalog, AppError>) -> Seq<
    DiscoveredAccount,
> {
    match catalog {
        Ok(catalog) => catalog.accounts@,
        Err(_) => Seq::empty(),
    }
}

/// The notice that is shown: the service's own, else that about the catalog, else that
/// about the client.
pub open spec fn shown_notice(
    service: MacosPlatformService,
    catalog: Result<AccountCatalog, AppError>,
    facts: SnapshotFacts,
) -> Option<Seq<char>> {
    match service.startup_notice {
        Some(notice) => Some(notice@),
        None => match catalog_notice(catalog) {
            Some(notice) => Some(notice),
            None => match facts.client {
                Err(error) => Some(error@.message()),
                Ok(_) => None,
            },
        },
    }
}

/// Whether the client runs, or why that is not known.
pub open spec fn shown_running(facts: SnapshotFacts) -> Result<bool, AppError> {
    match facts.client {
        Ok(Some(client)) => client.running,
        _ => Ok(false),
    }
}

/// Whether the snapshot shows the service with what was found.
pub open spec fn shows_service(
    service: MacosPlatformService,
    snapshot: AppSnapshot,
    catalog: Result<AccountCatalog, AppError>,
    facts: SnapshotFacts,
) -> bool {
    &&& snapshot.app_name@ == "战网切号器"@
    &&& snapshot.version == facts.version
    &&& snapshot.mode@ == "desktop"@
    &&& snapshot.platform@ == "macos"@
    &&& snapshot.data_directory@ == service.store.directory()
    &&& snapshot.client.status == (if shown_running(facts)->Ok_0 {
        ClientStatus::Running
    } else {
        ClientStatus::Stopped
    })
    &&& snapshot.client.executable_path@ == (match facts.client {
        Ok(Some(client)) => client.bundle@,
        _ => Seq::empty(),
    })
    &&& snapshot.client.detected_automatically == (service.settings.client_executable_path is None
        && (facts.client matches Ok(Some(_))))
    &&& snapshot.login_session == facts.login_session->Ok_0
    &&& notice_view(snapshot.notice) == shown_notice(service, catalog, facts)
    &&& snapshot.updated_at == facts.now
}

impl MacosPlatformService {
    /// Starts the service with what was found.
    pub fn new(facts: StartFacts) -> (service: Result<MacosPlatformService, AppError>)
        ensures
            match service {
                Err(error) => start_error(facts) == Some(error@),
                Ok(service) => {
                    &&& start_error(facts) is None
                    &&& service.store == facts.store->Ok_0
                    &&& service.paths == facts.paths->Ok_0
                    &&& service.hidden_accounts == facts.hidden_accounts->Ok_0
                    &&& service.settings == facts.settings->Ok_0
                    &&& notice_view(service.startup_notice) == (match facts.record->Ok_0 {
                        Some(record) if is_unfinished(record) => Some(
                            "检测到上次未完成的账号操作，正在安全恢复原状态。"@,
                        ),
                        _ => None,
                    })
                },
            },
    {
        let store = match facts.store {
            Ok(store) => store,
            Err(error) => {
                return Err(error);
            },
        };
        let hidden_accounts = match facts.hidden_accounts {
            Ok(hidden_accounts) => hidden_accounts,
            Err(error) => {
                return Err(AppError::DataStorage(error));
            },
        };
        let settings = match facts.settings {
            Ok(settings) => settings,
            Err(error) => {
                return Err(AppError::DataStorage(error));
            },
        };
        let paths = match facts.paths {
            Ok(paths) => paths,
            Err(error) => {
                return Err(error);
            },
        };
        match facts.snapshots {
            Ok(_) => {},
            Err(error) => {
                return Err(error);
            },
        }
        match facts.recovery {
            Ok(_) => {},
            Err(error) => {
                return Err(error);
            },
        }
        let record = match facts.record {
            Ok(record) => record,
            Err(error) => {
                return Err(error);
            },
        };
        let unfinished = match &record {
            Some(record) => record.state == RecoveryState::Prepared || (record.state
                == RecoveryState::AwaitingUser && record.kind == RecoveryKind::Login),
            None => false,
        };
        let startup_notice = if unfinished {
            Some("检测到上次未完成的账号操作，正在安全恢复原状态。".to_owned())
        } else {
            None
        };
        Ok(MacosPlatformService { store, paths, hidden_accounts, settings, startup_notice })
    }

    /// What the front end is shown: `catalog` is what the client's database says,
    /// `snapshot_status` what is saved of an account.
    pub fn snapshot_from_catalog<
        F: Fn(&AccountKey) -> (SnapshotStatus, Option<u64>, Option<String>),
    >(
        &self,
        catalog: Result<AccountCatalog, AppError>,
        facts: SnapshotFacts,
        snapshot_status: F,
    ) -> (snapshot: Result<AppSnapshot, AppError>)
        requires
            forall|key: &AccountKey| #[trigger] call_requires(snapshot_status, (key,)),
        ensures
            match (shown_running(facts), facts.login_session) {
                (Err(error), _) => snapshot == Err::<AppSnapshot, AppError>(error),
                (Ok(_), Err(error)) => snapshot == Err::<AppSnapshot, AppError>(error),
                (Ok(_), Ok(_)) => {
                    let shown = service_common::shown_accounts(
                        catalog_accounts(catalog),
                        self.hidden_accounts@,
                    );
                    &&& snapshot is Ok
                    &&& shows_service(*self, snapshot->Ok_0, catalog, facts)
                    &&& snapshot->Ok_0.accounts.len() == shown.len()
                    &&& forall|i: int|
                        0 <= i < shown.len() ==> service_common::shown_as(
                            snapshot_status,
                            #[trigger] snapshot->Ok_0.accounts@[i],
                            shown[i],
                        )
                },
            },
    {
        let (accounts, read_notice): (Vec<DiscoveredAccount>, Option<String>) = match catalog {
            Ok(catalog) => (catalog.accounts, None),
            Err(AppError::AccountDatabaseMissing) => {
                let none: Vec<DiscoveredAccount> = Vec::new();
                (none, Some("登录战网后点击刷新账号。".to_owned()))
            },
            Err(error) => {
                let none: Vec<DiscoveredAccount> = Vec::new();
                (none, Some(error.message()))
            },
        };
        assert(accounts@ =~= catalog_accounts(catalog));
        let (client, client_notice): (Option<ShownClient>, Option<String>) = match facts.client {
            Ok(client) => (client, None),
            Err(error) => (None, Some(error.message())),
        };
        let found = client.is_some();
        let (running, executable_path): (bool, String) = match client {
            Some(client) => match client.running {
                Ok(running) => (running, client.bundle),
                Err(error) => {
                    return Err(error);
                },
            },
            None => {
                let empty = String::new();
                assert(empty@ =~= Seq::<char>::empty());
                (false, empty)
            },
        };
        let accounts = service_common::account_snapshots(
            &accounts,
            &self.hidden_accounts,
            snapshot_status,
        );
        let login_session = match facts.login_session {
            Ok(session) => session,
            Err(error) => {
                return Err(error);
            },
        };
        let notice = match &self.startup_notice {
            Some(notice) => Some(notice.clone()),
            None => match read_notice {
                Some(notice) => Some(notice),
                None => client_notice,
            },
        };
        Ok(
            AppSnapshot {
                app_name: "战网切号器".to_owned(),
                version: facts.version,
                mode: "desktop".to_owned(),
                platform: "macos".to_owned(),
                data_directory: self.store.data_directory().to_owned(),
                client: ClientSnapshot {
                    status: if running {
                        ClientStatus::Running
                    } else {
                        ClientStatus::Stopped
                    },
                    executable_path,
                    detected_automatically: self.settings.client_executable_path.is_none() && found,
                },
                accounts,
                login_session,
                notice,
                updated_at: facts.now,
            },
        )
    }
}

/// The client to be used: the configured one where it is valid, else the one that was
/// detected. Where neither is, the error is that of the detected one, or else that of the
/// configured one.
pub open spec fn chosen_client(
    configured: Option<Result<ValidatedClient, AppError>>,
    detected: Option<Result<ValidatedClient, AppError>>,
) -> Result<Option<ValidatedClient>, AppError> {
    match (configured, detected) {
        (Some(Ok(client)), _) => Ok(Some(client)),
        (_, Some(Ok(client))) => Ok(Some(client)),
        (_, Some(Err(error))) => Err(error),
        (Some(Err(error)), None) => Err(error),
        (None, None) => Ok(None),
    }
}

/// The client to be used, where there is one.
pub fn resolved_client(
    configured: Option<Result<ValidatedClient, AppError>>,
    detected: Option<Result<ValidatedClient, AppError>>,
) -> (client: Result<Option<ValidatedClient>, AppError>)
    ensures
        client == chosen_client(configured, detected),
{
    match (configured, detected) {
        (Some(Ok(client)), _) => Ok(Some(client)),
        (_, Some(Ok(client))) => Ok(Some(client)),
        (_, Some(Err(error))) => Err(error),
        (Some(Err(error)), None) => Err(error),
        (None, None) => Ok(None),
    }
}

/// The client to be used.
pub fn require_client(resolved: Result<Option<ValidatedClient>, AppError>) -> (client: Result<
    ValidatedClient,
    AppError,
>)
    ensures
        match resolved {
            Err(error) => client == Err::<ValidatedClient, AppError>(error),
            Ok(Some(found)) => client == Ok::<ValidatedClient, AppError>(found),
            Ok(None) => client is Err && client->Err_0@ == ErrorView::ClientExecutableMissing,
        },
{
    match resolved {
        Err(error) => Err(error),
        Ok(Some(client)) => Ok(client),
        Ok(None) => Err(AppError::ClientExecutableMissing),
    }
}

/// What came of the work for an operation of the service.
#[derive(Debug)]
pub enum ServiceReply {
    Done(Result<(), AppError>),
    Flag(Result<bool, AppError>),
    Answer(bool),
    Client(Result<ValidatedClient, AppError>),
    Record(Result<Option<RecoveryRecord>, AppError>),
    Context(Result<RecoveryEnvelope, AppError>),
    /// A state of a login that was saved, staged or found.
    Payload(Result<SecurePayload, AppError>),
    Catalog(Result<AccountCatalog, AppError>),
    /// The record after it was written.
    Recorded(Result<RecoveryRecord, AppError>),
    Committed(Result<CleanupOutcome, AppError>),
    /// Whether the account is logged in.
    Evidence { ready: Result<bool, AppError>, now_ms: u64 },
    Hidden(StoredDocument<HiddenAccountsDocument>),
    Settings(StoredDocument<SettingsDocument>),
    Written(WrittenDocument),
    Snapshot(Result<AppSnapshot, AppError>),
    Slept,
    /// There was nothing to do but the report.
    Reported,
}

/// The record of the session's login, or why there is none.
pub open spec fn session_record(
    session_id: Seq<char>,
    record: Result<Option<RecoveryRecord>, AppError>,
) -> Result<RecoveryRecord, ErrorView> {
    match record {
        Err(error) => Err(error@),
        Ok(None) => Err(ErrorView::Login("登录恢复记录不存在"@)),
        Ok(Some(record)) => if record.id@ != session_id || record.kind != RecoveryKind::Login {
            Err(ErrorView::Login("登录会话已失效"@))
        } else {
            Ok(record)
        },
    }
}

/// The record of the session's login.
pub fn require_login_record(session_id: &str, record: Result<Option<RecoveryRecord>, AppError>) -> (result:
    Result<RecoveryRecord, AppError>)
    ensures
        match (result, session_record(session_id@, record)) {
            (Ok(record), Ok(expected)) => record == expected,
            (Err(error), Err(expected)) => error@ == expected,
            _ => false,
        },
{
    match record {
        Err(error) => Err(error),
        Ok(None) => Err(AppError::Login("登录恢复记录不存在".to_owned())),
        Ok(Some(record)) => if !text::same_text(record.id.as_str(), session_id) || record.kind
            != RecoveryKind::Login {
            Err(AppError::Login("登录会话已失效".to_owned()))
        } else {
            Ok(record)
        },
    }
}

/// Why no operation can be begun.
pub open spec fn busy_error(record: Result<Option<RecoveryRecord>, AppError>) -> Option<ErrorView> {
    match record {
        Err(error) => Some(error@),
        Ok(Some(_)) => Some(ErrorView::Message("请先完成或取消当前账号操作"@)),
        Ok(None) => None,
    }
}

/// Checks that no operation waits in the slot.
pub fn ensure_idle(record: Result<Option<RecoveryRecord>, AppError>) -> (result: Result<(), AppError>)
    ensures
        match result {
            Ok(_) => busy_error(record) is None,
            Err(error) => busy_error(record) == Some(error@),
        },
{
    match record {
        Err(error) => Err(error),
        Ok(Some(_)) => Err(AppError::Message("请先完成或取消当前账号操作".to_owned())),
        Ok(None) => Ok(()),
    }
}

/// Putting a state of a login in place: only while the client is stopped, first its
/// configuration, then its preferences. Each state names the work that is to be done.
#[derive(Debug)]
pub enum ApplyPayload {
    /// It is to be made sure that the client is stopped.
    ConfirmingStopped { payload: SecurePayload },
    /// The configuration is to be put in place.
    ApplyingConfig { config: ConfigSnapshot, preferences: PreferenceSnapshot },
    /// The preferences are to be replaced.
    Replacing { preferences: PreferenceSnapshot },
}

impl ApplyPayload {
    /// What the answer leads to.
    pub open spec fn next(self, reply: ServiceReply) -> StepView<ApplyPayload, ()> {
        match (self, reply) {
            (ApplyPayload::ConfirmingStopped { payload }, ServiceReply::Done(done)) => match done {
                Err(error) => step::failing(error@),
                Ok(_) => step::going(
                    ApplyPayload::ApplyingConfig {
                        config: payload.config,
                        preferences: payload.preferences,
                    },
                ),
            },
            (ApplyPayload::ApplyingConfig { preferences, .. }, ServiceReply::Done(done)) =>
                match done {
                    Err(error) => step::failing(error@),
                    Ok(_) => step::going(ApplyPayload::Replacing { preferences }),
                },
            (ApplyPayload::Replacing { .. }, ServiceReply::Done(done)) => match done {
                Err(error) => step::failing(error@),
                Ok(_) => step::ending(()),
            },
            _ => step::confused(),
        }
    }

    /// Takes the answer.
    pub fn resume(self, reply: ServiceReply) -> (step: Step<ApplyPayload, ()>)
        ensures
            step@ == self.next(reply),
    {
        match (self, reply) {
            (ApplyPayload::ConfirmingStopped { payload }, ServiceReply::Done(done)) => match done {
                Err(error) => step::fail(error),
                Ok(_) => step::go(
                    ApplyPayload::ApplyingConfig {
                        config: payload.config,
                        preferences: payload.preferences,
                    },
                ),
            },
            (ApplyPayload::ApplyingConfig { config: _, preferences }, ServiceReply::Done(done)) =>
                match done {
                    Err(error) => step::fail(error),
                    Ok(_) => step::go(ApplyPayload::Replacing { preferences }),
                },
            (ApplyPayload::Replacing { preferences: _ }, ServiceReply::Done(done)) => match done {
                Err(error) => step::fail(error),
                Ok(_) => step::end(()),
            },
            _ => step::give_up(),
        }
    }
}

/// Begins to put a state of a login in place.
pub fn apply_payload(payload: SecurePayload) -> (operation: ApplyPayload)
    ensures
        operation == (ApplyPayload::ConfirmingStopped { payload }),
{
    ApplyPayload::ConfirmingStopped { payload }
}

/// A state of a login is put in place only right after the client was confirmed to be
/// stopped.
pub proof fn law_payload_is_applied_only_while_stopped(operation: ApplyPayload, reply: ServiceReply)
    ensures
        operation.next(reply) matches StepView::Perform {
            operation: ApplyPayload::ApplyingConfig { .. },
            ..
        } ==> operation is ConfirmingStopped && reply is Done && reply->Done_0 is Ok,
{
}

/// Undoing an operation that failed. It always ends in an error. Each state names the
/// work that is to be done.
#[derive(Debug)]
pub enum RollbackAfterFailure {
    /// It is to be found out whether the client runs.
    CheckingClient { id: String, client: ValidatedClient, error: AppError },
    /// The client is to be stopped.
    Stopping { id: String, client: ValidatedClient, error: AppError },
    /// It is to be made sure that the client is stopped.
    ConfirmingStopped { id: String, client: ValidatedClient, error: AppError },
    /// The operation is to be undone.
    RollingBack { id: String, client: ValidatedClient, error: AppError },
}

/// A transaction error about `original`.
pub open spec fn about(
    original: ErrorView,
    what: Seq<char>,
    cause: Seq<char>,
    advice: Seq<char>,
) -> ErrorView {
    ErrorView::Transaction(original.nested() + what + cause + advice)
}

fn error_about(original: AppError, what: &str, cause: &str, advice: &str) -> (error: AppError)
    ensures
        error@ == about(original@, what@, cause@, advice@),
{
    AppError::Transaction(text::joined4(original.nested_message().as_str(), what, cause, advice))
}

impl RollbackAfterFailure {
    /// What the answer leads to.
    pub open spec fn next(self, reply: ServiceReply) -> StepView<
        RollbackAfterFailure,
        AppSnapshot,
    > {
        match (self, reply) {
            (
                RollbackAfterFailure::CheckingClient { id, client, error },
                ServiceReply::Flag(running),
            ) => match running {
                Err(failure) => step::failing(failure@),
                Ok(true) => step::going(RollbackAfterFailure::Stopping { id, client, error }),
                Ok(false) => step::going(
                    RollbackAfterFailure::ConfirmingStopped { id, client, error },
                ),
            },
            (RollbackAfterFailure::Stopping { id, client, error }, ServiceReply::Done(done)) =>
                match done {
                    Err(stop) => step::failing(
                        about(
                            error@,
                            "；客户端仍在运行，恢复材料已保留："@,
                            stop@.nested(),
                            ""@,
                        ),
                    ),
                    Ok(_) => step::going(
                        RollbackAfterFailure::ConfirmingStopped { id, client, error },
                    ),
                },
            (
                RollbackAfterFailure::ConfirmingStopped { id, client, error },
                ServiceReply::Done(done),
            ) => match done {
                Err(failure) => step::failing(failure@),
                Ok(_) => step::going(RollbackAfterFailure::RollingBack { id, client, error }),
            },
            (RollbackAfterFailure::RollingBack { error, .. }, ServiceReply::Done(done)) =>
                match done {
                    Err(rollback) => step::failing(
                        about(
                            error@,
                            "；自动恢复未完成："@,
                            rollback@.nested(),
                            "。请勿启动战网，重新打开本工具继续恢复"@,
                        ),
                    ),
                    Ok(_) => step::failing(
                        about(error@, "；已恢复操作前的战网状态"@, ""@, ""@),
                    ),
                },
            _ => step::confused(),
        }
    }

    /// Takes the answer.
    pub fn resume(self, reply: ServiceReply) -> (step: Step<RollbackAfterFailure, AppSnapshot>)
        ensures
            step@ == self.next(reply),
    {
        match (self, reply) {
            (
                RollbackAfterFailure::CheckingClient { id, client, error },
                ServiceReply::Flag(running),
            ) => match running {
                Err(failure) => step::fail(failure),
                Ok(true) => step::go(RollbackAfterFailure::Stopping { id, client, error }),
                Ok(false) => step::go(
                    RollbackAfterFailure::ConfirmingStopped { id, client, error },
                ),
            },
            (RollbackAfterFailure::Stopping { id, client, error }, ServiceReply::Done(done)) =>
                match done {
                    Err(stop) => step::fail(
                        error_about(
                            error,
                            "；客户端仍在运行，恢复材料已保留：",
                            stop.nested_message().as_str(),
                            "",
                        ),
                    ),
                    Ok(_) => step::go(
                        RollbackAfterFailure::ConfirmingStopped { id, client, error },
                    ),
                },
            (
                RollbackAfterFailure::ConfirmingStopped { id, client, error },
                ServiceReply::Done(done),
            ) => match done {
                Err(failure) => step::fail(failure),
                Ok(_) => step::go(RollbackAfterFailure::RollingBack { id, client, error }),
            },
            (
                RollbackAfterFailure::RollingBack { id: _, client: _, error },
                ServiceReply::Done(done),
            ) => match done {
                Err(rollback) => step::fail(
                    error_about(
                        error,
                        "；自动恢复未完成：",
                        rollback.nested_message().as_str(),
                        "。请勿启动战网，重新打开本工具继续恢复",
                    ),
                ),
                Ok(_) => step::fail(error_about(error, "；已恢复操作前的战网状态", "", "")),
            },
            _ => step::give_up(),
        }
    }
}

/// Begins to undo an operation that failed.
pub fn rollback_after_failure(id: String, client: ValidatedClient, error: AppError) -> (operation:
    RollbackAfterFailure)
    ensures
        operation == (RollbackAfterFailure::CheckingClient { id, client, error }),
{
    RollbackAfterFailure::CheckingClient { id, client, error }
}

/// An operation that failed never ends in success, and it is undone only right after the
/// client was confirmed to be stopped.
pub proof fn law_failed_operation_ends_in_an_error(
    operation: RollbackAfterFailure,
    reply: ServiceReply,
)
    ensures
        !(operation.next(reply) matches StepView::Finished(Ok(_))),
        operation.next(reply) matches StepView::Perform {
            operation: RollbackAfterFailure::RollingBack { .. },
            ..
        } ==> operation is ConfirmingStopped && reply is Done && reply->Done_0 is Ok,
{
}

/// Waiting for the client to confirm an account: it has to be the one that is logged in
/// twice in a row.
#[derive(Debug)]
pub struct HealthWatch {
    pub target: AccountKey,
    pub matches: u8,
}

/// What a sample found before the deadline, or that the deadline had passed.
#[derive(Debug)]
pub enum HealthSample {
    OutOfTime,
    /// Whether the client runs could not be found out.
    Unknown(AppError),
    NotRunning,
    Catalog(Result<AccountCatalog, AppError>),
}

/// Whether the sample found the account logged in.
pub open spec fn confirms(sample: HealthSample, target: AccountKeyView) -> bool {
    sample matches HealthSample::Catalog(Ok(catalog)) && contracts::key_view(
        catalog.current_account_key,
    ) == Some(target)
}

/// Checks that the catalog names the account as the one that is logged in.
pub fn check_target_health_from_catalog(target: &AccountKey, catalog: &AccountCatalog) -> (result: Result<
    (),
    AppError,
>)
    ensures
        result is Ok == (contracts::key_view(catalog.current_account_key) == Some(target@)),
        result is Err ==> result->Err_0@ == ErrorView::Transaction("当前活跃账号尚未切换到目标账号"@),
{
    let same = match &catalog.current_account_key {
        Some(current) => *current == *target,
        None => false,
    };
    if same {
        Ok(())
    } else {
        Err(AppError::Transaction("当前活跃账号尚未切换到目标账号".to_owned()))
    }
}

/// Begins to wait for the client to confirm the account.
pub fn wait_for_target_health(target: &AccountKey) -> (watch: HealthWatch)
    ensures
        watch == (HealthWatch { target: *target, matches: 0 }),
{
    HealthWatch { target: target.clone(), matches: 0 }
}

impl HealthWatch {
    /// What a sample leads to.
    pub open spec fn next(self, sample: HealthSample) -> StepView<HealthWatch, ()> {
        match sample {
            HealthSample::OutOfTime => step::failing(
                ErrorView::Transaction("客户端未通过目标账号自动确认，已停止等待"@),
            ),
            HealthSample::Unknown(error) => step::failing(error@),
            HealthSample::NotRunning => step::failing(
                ErrorView::Transaction("Battle.net 在账号确认前已退出"@),
            ),
            HealthSample::Catalog(_) => if confirms(sample, self.target@) {
                if self.matches >= 1 {
                    step::ending(())
                } else {
                    step::going(HealthWatch { matches: 1, ..self })
                }
            } else {
                step::going(HealthWatch { matches: 0, ..self })
            },
        }
    }

    /// Takes a sample.
    pub fn resume(self, sample: HealthSample) -> (step: Step<HealthWatch, ()>)
        ensures
            step@ == self.next(sample),
    {
        match sample {
            HealthSample::OutOfTime => step::fail(
                AppError::Transaction("客户端未通过目标账号自动确认，已停止等待".to_owned()),
            ),
            HealthSample::Unknown(error) => step::fail(error),
            HealthSample::NotRunning => step::fail(
                AppError::Transaction("Battle.net 在账号确认前已退出".to_owned()),
            ),
            HealthSample::Catalog(catalog) => {
                let confirmed = match &catalog {
                    Ok(catalog) => check_target_health_from_catalog(&self.target, catalog).is_ok(),
                    Err(_) => false,
                };
                if confirmed {
                    if self.matches >= 1 {
                        step::end(())
                    } else {
                        step::go(HealthWatch { target: self.target, matches: 1 })
                    }
                } else {
                    step::go(HealthWatch { target: self.target, matches: 0 })
                }
            },
        }
    }
}

/// What the watch has come to after the samples.
pub open spec fn watched(target: AccountKey, samples: Seq<HealthSample>) -> StepView<
    HealthWatch,
    (),
>
    decreases samples.len(),
{
    if samples.len() == 0 {
        step::going(HealthWatch { target, matches: 0 })
    } else {
        match watched(target, samples.drop_last()) {
            StepView::Perform { operation, .. } => operation.next(samples.last()),
            finished => finished,
        }
    }
}

proof fn lemma_matches(target: AccountKey, samples: Seq<HealthSample>)
    requires
        watched(target, samples) is Perform,
    ensures
        watched(target, samples)->operation.target == target,
        watched(target, samples)->operation.matches == (if samples.len() >= 1 && confirms(
            samples.last(),
            target@,
        ) {
            1int
        } else {
            0int
        }),
    decreases samples.len(),
{
    if samples.len() > 0 {
        lemma_matches(target, samples.drop_last());
    }
}

/// An account is confirmed exactly at the second sample in a row that finds it logged in.
pub proof fn law_target_needs_two_matching_samples(
    target: AccountKey,
    samples: Seq<HealthSample>,
    sample: HealthSample,
)
    requires
        watched(target, samples) is Perform,
    ensures
        watched(target, samples.push(sample)) == step::ending::<HealthWatch, ()>(()) <==> confirms(
            sample,
            target@,
        ) && samples.len() >= 1 && confirms(samples.last(), target@),
{
    assert(samples.push(sample).drop_last() =~= samples);
    lemma_matches(target, samples);
}

/// Waiting for the client's configuration to settle.
#[derive(Debug)]
pub enum SettleWatch {
    /// It is to be found out whether the configuration is there.
    CheckingFile,
    /// A first sample is to be taken.
    Beginning,
    /// Another sample is to be taken.
    Watching { watch: StabilityWatch },
}

/// What came of the work for [`SettleWatch`].
#[derive(Debug)]
pub enum SettleReply {
    Present(bool),
    OutOfTime,
    Stamp(Result<Vec<FileStamp>, String>),
}

/// The state of the client's configuration: its size and its last change.
pub fn config_fingerprint(size: u64, modified: u128) -> (fingerprint: Vec<FileStamp>)
    ensures
        fingerprint.len() == 1,
        fingerprint@[0].size == size,
        fingerprint@[0].modified == modified,
        fingerprint@[0].name@ == "Battle.net.config"@,
{
    let mut fingerprint: Vec<FileStamp> = Vec::new();
    fingerprint.push(FileStamp { name: "Battle.net.config".to_owned(), size, modified });
    fingerprint
}

/// Begins to wait for the client's configuration to settle.
pub fn wait_for_stable_config() -> (watch: SettleWatch)
    ensures
        watch == SettleWatch::CheckingFile,
{
    SettleWatch::CheckingFile
}

impl SettleWatch {
    /// What the answer leads to.
    pub open spec fn next(self, reply: SettleReply) -> StepView<SettleWatch, ()> {
        match (self, reply) {
            (SettleWatch::CheckingFile, SettleReply::Present(present)) => if present {
                step::going(SettleWatch::Beginning)
            } else {
                step::failing(
                    ErrorView::Snapshot("未找到 Battle.net.config，请先登录一次战网客户端"@),
                )
            },
            (SettleWatch::Beginning, SettleReply::Stamp(stamp)) => match stamp {
                Err(error) => step::failing(
                    ErrorView::Snapshot("无法读取战网配置属性："@ + error@),
                ),
                Ok(stamp) => step::going(
                    SettleWatch::Watching {
                        watch: StabilityWatch { previous: stamp, stable_samples: 0 },
                    },
                ),
            },
            (SettleWatch::Watching { watch }, SettleReply::OutOfTime) => step::failing(
                ErrorView::Snapshot("Battle.net.config 仍在变化，请稍后重试"@),
            ),
            (SettleWatch::Watching { watch }, SettleReply::Stamp(stamp)) => match stamp {
                Err(error) => step::failing(
                    ErrorView::Snapshot("无法读取战网配置属性："@ + error@),
                ),
                Ok(stamp) => {
                    let same = service_common::stamp_views(stamp@) == service_common::stamp_views(
                        watch.previous@,
                    );
                    if same && watch.stable_samples >= 1 {
                        step::ending(())
                    } else if same {
                        step::going(
                            SettleWatch::Watching {
                                watch: StabilityWatch { stable_samples: 1, ..watch },
                            },
                        )
                    } else {
                        step::going(
                            SettleWatch::Watching {
                                watch: StabilityWatch { previous: stamp, stable_samples: 0 },
                            },
                        )
                    }
                },
            },
            _ => step::confused(),
        }
    }

    /// Takes the answer.
    pub fn resume(self, reply: SettleReply) -> (step: Step<SettleWatch, ()>)
        ensures
            step@ == self.next(reply),
    {
        match (self, reply) {
            (SettleWatch::CheckingFile, SettleReply::Present(present)) => if present {
                step::go(SettleWatch::Beginning)
            } else {
                step::fail(
                    AppError::Snapshot(
                        "未找到 Battle.net.config，请先登录一次战网客户端".to_owned(),
                    ),
                )
            },
            (SettleWatch::Beginning, SettleReply::Stamp(stamp)) => match stamp {
                Err(error) => step::fail(
                    AppError::Snapshot(text::joined2("无法读取战网配置属性：", error.as_str())),
                ),
                Ok(stamp) => step::go(SettleWatch::Watching { watch: StabilityWatch::new(stamp) }),
            },
            (SettleWatch::Watching { watch: _ }, SettleReply::OutOfTime) => step::fail(
                AppError::Snapshot("Battle.net.config 仍在变化，请稍后重试".to_owned()),
            ),
            (SettleWatch::Watching { watch }, SettleReply::Stamp(stamp)) => match stamp {
                Err(error) => step::fail(
                    AppError::Snapshot(text::joined2("无法读取战网配置属性：", error.as_str())),
                ),
                Ok(stamp) => match watch.wait_for_stable(stamp) {
                    Stability::Stable => step::end(()),
                    Stability::Watching(watch) => step::go(SettleWatch::Watching { watch }),
                },
            },
            _ => step::give_up(),
        }
    }
}

impl ServiceReply {
    /// Why the work was not done.
    pub open spec fn failure(self) -> Option<ErrorView> {
        match self {
            ServiceReply::Done(Err(error)) => Some(error@),
            ServiceReply::Flag(Err(error)) => Some(error@),
            ServiceReply::Client(Err(error)) => Some(error@),
            ServiceReply::Record(Err(error)) => Some(error@),
            ServiceReply::Context(Err(error)) => Some(error@),
            ServiceReply::Payload(Err(error)) => Some(error@),
            ServiceReply::Catalog(Err(error)) => Some(error@),
            ServiceReply::Recorded(Err(error)) => Some(error@),
            ServiceReply::Committed(Err(error)) => Some(error@),
            ServiceReply::Snapshot(Err(error)) => Some(error@),
            _ => None,
        }
    }

    /// Whether the work was done.
    pub open spec fn is_done(self) -> bool {
        self matches ServiceReply::Done(Ok(_))
    }

    /// What was found out.
    pub open spec fn flag(self) -> Option<bool> {
        match self {
            ServiceReply::Flag(Ok(flag)) => Some(flag),
            _ => None,
        }
    }

    /// The accounts that were read.
    pub open spec fn catalog(self) -> Option<AccountCatalog> {
        match self {
            ServiceReply::Catalog(Ok(catalog)) => Some(catalog),
            _ => None,
        }
    }
}

impl ApplyPayload {
    /// How the operation goes on.
    pub open spec fn steps() -> spec_fn(ApplyPayload, ServiceReply) -> StepView<
        ApplyPayload,
        (),
    > {
        |operation: ApplyPayload, reply: ServiceReply| operation.next(reply)
    }
}

/// Putting a state of the client in place succeeds exactly where the client was confirmed
/// to be stopped, the configuration of that state was put in place, and then its
/// preferences. The first work that fails ends it with its error.
pub proof fn law_payload_is_applied_in_both_parts(
    payload: SecurePayload,
    run: Seq<Moment<ApplyPayload, ServiceReply>>,
)
    requires
        step::is_run(ApplyPayload::steps(), ApplyPayload::ConfirmingStopped { payload }, run),
    ensures
        step::result_of(ApplyPayload::steps(), run) is Ok <==> {
            &&& run.len() == 3
            &&& run[0].reply.is_done()
            &&& run[1].operation == (ApplyPayload::ApplyingConfig {
                config: payload.config,
                preferences: payload.preferences,
            })
            &&& run[1].reply.is_done()
            &&& run[2].operation == (ApplyPayload::Replacing { preferences: payload.preferences })
            &&& run[2].reply.is_done()
        },
        forall|i: int|
            0 <= i < run.len() && (#[trigger] run[i].reply.failure()) is Some && (match run[i].operation {
                _ => run[i].reply is Done,
            }) ==> i == run.len() - 1 && step::result_of(ApplyPayload::steps(), run) == Err::<(), ErrorView>(run[i].reply.failure()->0),
        run.len() <= 3,
{
    let steps = ApplyPayload::steps();
    assert(step::follows(steps, run, 0));
    if run.len() > 1 {
        assert(step::follows(steps, run, 1));
    }
    if run.len() > 2 {
        assert(step::follows(steps, run, 2));
    }
}

impl RollbackAfterFailure {
    /// How the operation goes on.
    pub open spec fn steps() -> spec_fn(RollbackAfterFailure, ServiceReply) -> StepView<
        RollbackAfterFailure,
        AppSnapshot,
    > {
        |operation: RollbackAfterFailure, reply: ServiceReply| operation.next(reply)
    }
}

/// Undoing an operation that failed ends in an error in every case. The operation is undone
/// exactly where a client that runs was stopped and it was confirmed to be stopped; where
/// that succeeds the error is that of the operation, with the remark that the state from
/// before is back.
pub proof fn law_failed_operation_is_undone_while_stopped(
    id: String,
    client: ValidatedClient,
    error: AppError,
    run: Seq<Moment<RollbackAfterFailure, ServiceReply>>,
)
    requires
        step::is_run(
            RollbackAfterFailure::steps(),
            RollbackAfterFailure::CheckingClient { id, client, error },
            run,
        ),
    ensures
        step::result_of(RollbackAfterFailure::steps(), run) is Err,
        run.len() <= 4,
        ({
            let k: int = if run[0].reply.flag() == Some(true) {
                1
            } else {
                0
            };
            &&& run.len() > 2 + k <==> {
                &&& run[0].reply.flag() is Some
                &&& k == 1 ==> run[1].operation == (RollbackAfterFailure::Stopping {
                    id,
                    client,
                    error,
                })
                &&& k == 1 ==> run[1].reply.is_done()
                &&& run[1 + k].operation == (RollbackAfterFailure::ConfirmingStopped {
                    id,
                    client,
                    error,
                })
                &&& run[1 + k].reply.is_done()
            }
            &&& run.len() > 2 + k ==> {
                &&& run.len() == 3 + k
                &&& run[2 + k].operation == (RollbackAfterFailure::RollingBack { id, client, error })
                &&& run[2 + k].reply.is_done() ==> step::result_of(
                    RollbackAfterFailure::steps(),
                    run,
                ) == Err::<AppSnapshot, ErrorView>(
                    about(error@, "；已恢复操作前的战网状态"@, ""@, ""@),
                )
            }
        }),
{
    let steps = RollbackAfterFailure::steps();
    assert(step::follows(steps, run, 0));
    if run.len() > 1 {
        assert(step::follows(steps, run, 1));
    }
    if run.len() > 2 {
        assert(step::follows(steps, run, 2));
    }
    if run.len() > 3 {
        assert(step::follows(steps, run, 3));
    }
}

impl SettleWatch {
    /// How the operation goes on.
    pub open spec fn steps() -> spec_fn(SettleWatch, SettleReply) -> StepView<
        SettleWatch,
        (),
    > {
        |operation: SettleWatch, reply: SettleReply| operation.next(reply)
    }
}

/// The stamp that a sample found, where it could be taken.
pub open spec fn sampled_stamp(reply: SettleReply) -> Option<Seq<service_common::FileStampView>> {
    match reply {
        SettleReply::Stamp(Ok(stamp)) => Some(service_common::stamp_views(stamp@)),
        _ => None,
    }
}

proof fn lemma_settling(run: Seq<Moment<SettleWatch, SettleReply>>, i: int)
    requires
        step::is_run(SettleWatch::steps(), SettleWatch::CheckingFile, run),
        2 <= i < run.len(),
    ensures
        run[0].reply == SettleReply::Present(true),
        run[i].operation is Watching,
        sampled_stamp(run[i - 1].reply) == Some(
            service_common::stamp_views(run[i].operation->watch.previous@),
        ),
        run[i].operation->watch.stable_samples == (if i >= 3 && sampled_stamp(run[i - 1].reply)
            == sampled_stamp(run[i - 2].reply) {
            1int
        } else {
            0int
        }),
    decreases i,
{
    assert(step::follows(SettleWatch::steps(), run, 0));
    assert(step::follows(SettleWatch::steps(), run, 1));
    if i > 2 {
        lemma_settling(run, i - 1);
        assert(step::follows(SettleWatch::steps(), run, i - 1));
    }
}

/// The client's configuration has settled exactly where it is there and three samples in a
/// row, the last ones of the run, found the same.
pub proof fn law_configuration_settles_with_three_equal_samples(
    run: Seq<Moment<SettleWatch, SettleReply>>,
)
    requires
        step::is_run(SettleWatch::steps(), SettleWatch::CheckingFile, run),
    ensures
        step::result_of(SettleWatch::steps(), run) is Ok <==> {
            let n = run.len() as int;
            &&& n >= 4
            &&& run[0].reply == SettleReply::Present(true)
            &&& sampled_stamp(run[n - 1].reply) is Some
            &&& sampled_stamp(run[n - 1].reply) == sampled_stamp(run[n - 2].reply)
            &&& sampled_stamp(run[n - 2].reply) == sampled_stamp(run[n - 3].reply)
        },
        run[0].reply == SettleReply::Present(true) ==> run.len() > 1,
{
    let steps = SettleWatch::steps();
    assert(step::follows(steps, run, 0));
    if run.len() > 1 {
        assert(step::follows(steps, run, 1));
    }
    if run.len() > 2 {
        let last = run.len() - 1;
        lemma_settling(run, last);
        assert(step::follows(steps, run, last));
    }
}

/// Waiting for a target fails exactly where the time is over, the client has ended, or it
/// is not known whether it runs; what cannot be read of the account only starts the count anew.
pub proof fn law_waiting_for_a_target_ends_with_the_client(watch: HealthWatch, sample: HealthSample)
    ensures
        watch.next(sample) matches StepView::Finished(Err(_)) <==> sample is OutOfTime || sample
            is Unknown || sample is NotRunning,
        sample matches HealthSample::Unknown(error) ==> watch.next(sample) == step::failing::<HealthWatch, ()>(
            error@,
        ),
        watch.next(sample) matches StepView::Perform { operation, .. } ==> operation.target
            == watch.target && (operation.matches == 1 <==> (sample matches HealthSample::Catalog(
            Ok(catalog),
        ) && catalog.current_account_key is Some && catalog.current_account_key->0@
            == watch.target@)) && operation.matches <= 1,
{
}

} // verus!
