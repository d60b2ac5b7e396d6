//! The other operations of the service on Windows: showing the application,
//! detecting accounts, choosing and opening the client, and removing an account.

use vstd::prelude::*;

use crate::contracts::AccountCatalog;
use crate::contracts::AccountKey;
use crate::contracts::AccountKeyView;
use crate::contracts::AppSnapshot;
use crate::data_store;
use crate::data_store::DataStore;
use crate::data_store::HiddenAccountKey;
use crate::data_store::HiddenAccountsDocument;
use crate::data_store::RestoredAccounts;
use crate::data_store::SettingsDocument;
use crate::data_store::WrittenDocument;
use crate::error::AppError;
use crate::error::ErrorView;
use crate::platform::windows::app_service::ServiceReply;
use crate::platform::windows::app_service::WindowsPlatformService;
use crate::service_common;
use crate::step::Moment;
use crate::step;
use crate::step::Step;
use crate::step::StepView;

verus! {

/// Showing the application. Each state names the work that is to be done.
#[derive(Debug)]
pub enum TakeSnapshot {
    /// The client's database is to be read.
    ReadingCatalog,
    /// The application is to be shown with what the client's database says.
    Showing { catalog: Result<AccountCatalog, AppError> },
}

impl TakeSnapshot {
    /// What the answer leads to.
    pub open spec fn next(self, reply: ServiceReply) -> StepView<TakeSnapshot, AppSnapshot> {
        match (self, reply) {
            (TakeSnapshot::ReadingCatalog, ServiceReply::Catalog(catalog)) => step::going(
                TakeSnapshot::Showing { catalog },
            ),
            (TakeSnapshot::Showing { .. }, ServiceReply::Snapshot(snapshot)) => match snapshot {
                Err(error) => step::failing(error@),
                Ok(snapshot) => step::ending(snapshot),
            },
            _ => step::confused(),
        }
    }

    /// Takes the answer.
    pub fn resume(self, reply: ServiceReply) -> (step: Step<TakeSnapshot, AppSnapshot>)
        ensures
            step@ == self.next(reply),
    {
        match (self, reply) {
            (TakeSnapshot::ReadingCatalog, ServiceReply::Catalog(catalog)) => step::go(
                TakeSnapshot::Showing { catalog },
            ),
            (TakeSnapshot::Showing { catalog: _ }, ServiceReply::Snapshot(snapshot)) =>
                match snapshot {
                    Err(error) => step::fail(error),
                    Ok(snapshot) => step::end(snapshot),
                },
            _ => step::give_up(),
        }
    }
}

/// Detecting accounts: those that are detected are shown again. Each state names
/// the work that is to be done.
#[derive(Debug)]
pub enum DetectAccounts {
    /// The lock is to be taken.
    Locking,
    /// The client is to be found.
    ResolvingClient,
    /// The client's database is to be read.
    ReadingCatalog,
    /// The hidden accounts are to be read.
    LoadingHidden { catalog: AccountCatalog },
    /// The record of the accounts that stay hidden is to be written.
    WritingHidden { catalog: AccountCatalog, restored: RestoredAccounts },
    /// The application is to be shown with what the client's database says.
    Showing { found: Result<AccountCatalog, AppError> },
}

impl DetectAccounts {
    /// Whether the answer leads to the step. The accounts that stay hidden are
    /// `hidden` before and `remaining` after it.
    pub open spec fn leads_to(
        self,
        store: DataStore,
        reply: ServiceReply,
        step: Step<DetectAccounts, AppSnapshot>,
        hidden: Set<AccountKeyView>,
        remaining: Set<AccountKeyView>,
    ) -> bool {
        match (self, reply) {
            (DetectAccounts::LoadingHidden { catalog }, ServiceReply::Hidden(stored)) =>
                match data_store::loaded_hidden_accounts(store.hidden_accounts_file(), stored) {
                    Err(error) => {
                        &&& step@ == step::failing::<DetectAccounts, AppSnapshot>(
                            ErrorView::DataStorage(error),
                        )
                        &&& remaining == hidden
                    },
                    Ok(loaded) => {
                        let shown = service_common::account_keys(catalog.accounts@).to_set();
                        if loaded.difference(shown) == loaded {
                            &&& step@ == step::going::<DetectAccounts, AppSnapshot>(
                                DetectAccounts::Showing { found: Ok(catalog) },
                            )
                            &&& remaining == loaded
                        } else {
                            &&& step matches Step::Perform {
                                operation: DetectAccounts::WritingHidden { catalog: kept, restored },
                                report: None,
                            }
                            &&& kept == catalog
                            &&& service_common::is_restored(restored, loaded, catalog)
                            &&& remaining == hidden
                        }
                    },
                },
            _ => step@ == self.next(reply) && remaining == self.hidden(reply, hidden),
        }
    }

    /// What the answer leads to, but for the hidden accounts that were read.
    pub open spec fn next(self, reply: ServiceReply) -> StepView<DetectAccounts, AppSnapshot> {
        match (self, reply) {
            (DetectAccounts::Locking, ServiceReply::Done(done)) => match done {
                Err(error) => step::failing(error@),
                Ok(_) => step::going(DetectAccounts::ResolvingClient),
            },
            (DetectAccounts::ResolvingClient, ServiceReply::Client(client)) => match client {
                None => step::failing(ErrorView::ClientExecutableMissing),
                Some(_) => step::going(DetectAccounts::ReadingCatalog),
            },
            (DetectAccounts::ReadingCatalog, ServiceReply::Catalog(catalog)) => match catalog {
                Ok(catalog) => step::going(DetectAccounts::LoadingHidden { catalog }),
                Err(AppError::AccountDatabaseMissing) => step::going(
                    DetectAccounts::Showing { found: Err(AppError::AccountDatabaseMissing) },
                ),
                Err(error) => step::failing(error@),
            },
            (DetectAccounts::WritingHidden { catalog, restored }, ServiceReply::Written(written)) =>
                match data_store::hidden_accounts_error(written) {
                    Some(error) => step::failing(ErrorView::DataStorage(error)),
                    None => step::going(DetectAccounts::Showing { found: Ok(catalog) }),
                },
            (DetectAccounts::Showing { .. }, ServiceReply::Snapshot(snapshot)) => match snapshot {
                Err(error) => step::failing(error@),
                Ok(snapshot) => step::ending(snapshot),
            },
            _ => step::confused(),
        }
    }

    /// The hidden accounts after the answer, but for those that were read.
    pub open spec fn hidden(self, reply: ServiceReply, hidden: Set<AccountKeyView>) -> Set<
        AccountKeyView,
    > {
        match (self, reply) {
            (
                DetectAccounts::WritingHidden { restored, .. },
                ServiceReply::Written(WrittenDocument::Done),
            ) => restored.hidden@,
            _ => hidden,
        }
    }

    /// Takes the answer.
    pub fn resume(self, service: &mut WindowsPlatformService, reply: ServiceReply) -> (step: Step<
        DetectAccounts,
        AppSnapshot,
    >)
        ensures
            self.leads_to(
                old(service).store,
                reply,
                step,
                old(service).hidden_accounts@,
                final(service).hidden_accounts@,
            ),
            *final(service) == (WindowsPlatformService {
                hidden_accounts: final(service).hidden_accounts,
                ..*old(service)
            }),
    {
        match (self, reply) {
            (DetectAccounts::Locking, ServiceReply::Done(done)) => match done {
                Err(error) => step::fail(error),
                Ok(_) => step::go(DetectAccounts::ResolvingClient),
            },
            (DetectAccounts::ResolvingClient, ServiceReply::Client(client)) => match client {
                None => step::fail(AppError::ClientExecutableMissing),
                Some(_) => step::go(DetectAccounts::ReadingCatalog),
            },
            (DetectAccounts::ReadingCatalog, ServiceReply::Catalog(catalog)) => match catalog {
                Ok(catalog) => step::go(DetectAccounts::LoadingHidden { catalog }),
                Err(AppError::AccountDatabaseMissing) => step::go(
                    DetectAccounts::Showing { found: Err(AppError::AccountDatabaseMissing) },
                ),
                Err(error) => step::fail(error),
            },
            (DetectAccounts::LoadingHidden { catalog }, ServiceReply::Hidden(stored)) => {
                let detected = service_common::detected_keys(&catalog.accounts);
                match service.store.restore_detected_accounts(&detected, &stored) {
                    Err(error) => step::fail(AppError::DataStorage(error)),
                    Ok(restored) => match restored.document {
                        None => {
                            service.hidden_accounts = restored.hidden;
                            step::go(DetectAccounts::Showing { found: Ok(catalog) })
                        },
                        Some(document) => step::go(
                            DetectAccounts::WritingHidden {
                                catalog,
                                restored: RestoredAccounts {
                                    hidden: restored.hidden,
                                    document: Some(document),
                                },
                            },
                        ),
                    },
                }
            },
            (DetectAccounts::WritingHidden { catalog, restored }, ServiceReply::Written(written)) =>
                match service.store.saved_hidden_accounts(&written) {
                    Err(error) => step::fail(AppError::DataStorage(error)),
                    Ok(_) => {
                        service.hidden_accounts = restored.hidden;
                        step::go(DetectAccounts::Showing { found: Ok(catalog) })
                    },
                },
            (DetectAccounts::Showing { found: _ }, ServiceReply::Snapshot(snapshot)) =>
                match snapshot {
                    Err(error) => step::fail(error),
                    Ok(snapshot) => step::end(snapshot),
                },
            _ => step::give_up(),
        }
    }
}

/// Choosing the client. Each state names the work that is to be done.
#[derive(Debug)]
pub enum SetClientPath {
    /// The lock is to be taken.
    Locking { path: String },
    /// The client is to be checked.
    Validating { path: String },
    /// The settings are to be read.
    LoadingSettings { path: String },
    /// The settings of the service are to be written.
    WritingSettings,
    /// The application is to be shown.
    Showing,
}

impl SetClientPath {
    /// What the answer leads to.
    pub open spec fn next(self, reply: ServiceReply) -> StepView<SetClientPath, AppSnapshot> {
        match (self, reply) {
            (SetClientPath::Locking { path }, ServiceReply::Done(done)) => match done {
                Err(error) => step::failing(error@),
                Ok(_) => step::going(SetClientPath::Validating { path }),
            },
            (SetClientPath::Validating { .. }, ServiceReply::Executable(executable)) =>
                match executable {
                    Err(error) => step::failing(error@),
                    Ok(path) => step::going(SetClientPath::LoadingSettings { path }),
                },
            (SetClientPath::LoadingSettings { .. }, ServiceReply::Settings(stored)) =>
                match data_store::loaded_settings(stored) {
                    Err(error) => step::failing(ErrorView::DataStorage(error)),
                    Ok(_) => step::going(SetClientPath::WritingSettings),
                },
            (SetClientPath::WritingSettings, ServiceReply::Written(written)) =>
                match data_store::settings_error(written) {
                    Some(error) => step::failing(ErrorView::DataStorage(error)),
                    None => step::going(SetClientPath::Showing),
                },
            (SetClientPath::Showing, ServiceReply::Snapshot(snapshot)) => match snapshot {
                Err(error) => step::failing(error@),
                Ok(snapshot) => step::ending(snapshot),
            },
            _ => step::confused(),
        }
    }

    /// The settings after the answer: those that were read, with the client.
    pub open spec fn settings(self, reply: ServiceReply, settings: SettingsDocument) ->
        SettingsDocument {
        match (self, reply) {
            (SetClientPath::LoadingSettings { path }, ServiceReply::Settings(stored)) =>
                match data_store::loaded_settings(stored) {
                    Err(_) => settings,
                    Ok(loaded) => SettingsDocument {
                        client_executable_path: Some(path),
                        ..loaded
                    },
                },
            _ => settings,
        }
    }

    /// Takes the answer.
    pub fn resume(self, service: &mut WindowsPlatformService, reply: ServiceReply) -> (step: Step<
        SetClientPath,
        AppSnapshot,
    >)
        ensures
            step@ == self.next(reply),
            *final(service) == (WindowsPlatformService {
                settings: self.settings(reply, old(service).settings),
                ..*old(service)
            }),
    {
        match (self, reply) {
            (SetClientPath::Locking { path }, ServiceReply::Done(done)) => match done {
                Err(error) => step::fail(error),
                Ok(_) => step::go(SetClientPath::Validating { path }),
            },
            (SetClientPath::Validating { path: _ }, ServiceReply::Executable(executable)) =>
                match executable {
                    Err(error) => step::fail(error),
                    Ok(path) => step::go(SetClientPath::LoadingSettings { path }),
                },
            (SetClientPath::LoadingSettings { path }, ServiceReply::Settings(stored)) =>
                match service.store.load_settings(stored) {
                    Err(error) => step::fail(AppError::DataStorage(error)),
                    Ok(loaded) => {
                        service.settings = SettingsDocument {
                            version: loaded.version,
                            client_executable_path: Some(path),
                        };
                        step::go(SetClientPath::WritingSettings)
                    },
                },
            (SetClientPath::WritingSettings, ServiceReply::Written(written)) =>
                match service.store.saved_settings(&written) {
                    Err(error) => step::fail(AppError::DataStorage(error)),
                    Ok(_) => step::go(SetClientPath::Showing),
                },
            (SetClientPath::Showing, ServiceReply::Snapshot(snapshot)) => match snapshot {
                Err(error) => step::fail(error),
                Ok(snapshot) => step::end(snapshot),
            },
            _ => step::give_up(),
        }
    }
}

/// Opening the client. Each state names the work that is to be done.
#[derive(Debug)]
pub enum OpenClient {
    /// The lock is to be taken.
    Locking,
    /// It is to be found out whether the client runs.
    CheckingClient,
    /// The client is to be found.
    ResolvingClient,
    /// The client is to be started.
    Launching { client: String },
    /// The client has to have started.
    Starting,
    /// The application is to be shown.
    Showing,
}

impl OpenClient {
    /// What the answer leads to.
    pub open spec fn next(self, reply: ServiceReply) -> StepView<OpenClient, AppSnapshot> {
        match (self, reply) {
            (OpenClient::Locking, ServiceReply::Done(done)) => match done {
                Err(error) => step::failing(error@),
                Ok(_) => step::going(OpenClient::CheckingClient),
            },
            (OpenClient::CheckingClient, ServiceReply::Flag(running)) => match running {
                Err(error) => step::failing(error@),
                Ok(true) => step::going(OpenClient::Showing),
                Ok(false) => step::going(OpenClient::ResolvingClient),
            },
            (OpenClient::ResolvingClient, ServiceReply::Client(client)) => match client {
                None => step::failing(ErrorView::ClientExecutableMissing),
                Some(client) => step::going(OpenClient::Launching { client }),
            },
            (OpenClient::Launching { .. }, ServiceReply::Done(done)) => match done {
                Err(error) => step::failing(error@),
                Ok(_) => step::going(OpenClient::Starting),
            },
            (OpenClient::Starting, ServiceReply::Done(done)) => match done {
                Err(error) => step::failing(error@),
                Ok(_) => step::going(OpenClient::Showing),
            },
            (OpenClient::Showing, ServiceReply::Snapshot(snapshot)) => match snapshot {
                Err(error) => step::failing(error@),
                Ok(snapshot) => step::ending(snapshot),
            },
            _ => step::confused(),
        }
    }

    /// Takes the answer.
    pub fn resume(self, reply: ServiceReply) -> (step: Step<OpenClient, AppSnapshot>)
        ensures
            step@ == self.next(reply),
    {
        match (self, reply) {
            (OpenClient::Locking, ServiceReply::Done(done)) => match done {
                Err(error) => step::fail(error),
                Ok(_) => step::go(OpenClient::CheckingClient),
            },
            (OpenClient::CheckingClient, ServiceReply::Flag(running)) => match running {
                Err(error) => step::fail(error),
                Ok(true) => step::go(OpenClient::Showing),
                Ok(false) => step::go(OpenClient::ResolvingClient),
            },
            (OpenClient::ResolvingClient, ServiceReply::Client(client)) => match client {
                None => step::fail(AppError::ClientExecutableMissing),
                Some(client) => step::go(OpenClient::Launching { client }),
            },
            (OpenClient::Launching { client: _ }, ServiceReply::Done(done)) => match done {
                Err(error) => step::fail(error),
                Ok(_) => step::go(OpenClient::Starting),
            },
            (OpenClient::Starting, ServiceReply::Done(done)) => match done {
                Err(error) => step::fail(error),
                Ok(_) => step::go(OpenClient::Showing),
            },
            (OpenClient::Showing, ServiceReply::Snapshot(snapshot)) => match snapshot {
                Err(error) => step::fail(error),
                Ok(snapshot) => step::end(snapshot),
            },
            _ => step::give_up(),
        }
    }
}

/// Removing an account: what was saved of it is deleted, and it is hidden. Each
/// state names the work that is to be done.
#[derive(Debug)]
pub enum RemoveAccount {
    /// The lock is to be taken.
    Locking { key: AccountKey },
    /// The waiting login is to be read.
    CheckingSession { key: AccountKey },
    /// What was saved of the account is to be deleted.
    Removing { key: AccountKey },
    /// The hidden accounts are to be read.
    LoadingHidden { key: AccountKey },
    /// The hidden accounts and this one are to be written.
    WritingHidden { key: AccountKey },
    /// The application is to be shown.
    Showing,
}

impl RemoveAccount {
    /// What the answer leads to.
    pub open spec fn next(self, store: DataStore, reply: ServiceReply) -> StepView<
        RemoveAccount,
        AppSnapshot,
    > {
        match (self, reply) {
            (RemoveAccount::Locking { key }, ServiceReply::Done(done)) => match done {
                Err(error) => step::failing(error@),
                Ok(_) => step::going(RemoveAccount::CheckingSession { key }),
            },
            (RemoveAccount::CheckingSession { key }, ServiceReply::Session(session)) =>
                match session {
                    Err(error) => step::failing(error@),
                    Ok(Some(_)) => step::failing(
                        ErrorView::Login("请先完成或取消当前登录流程"@),
                    ),
                    Ok(None) => step::going(RemoveAccount::Removing { key }),
                },
            (RemoveAccount::Removing { key }, ServiceReply::Done(done)) => match done {
                Err(error) => step::failing(error@),
                Ok(_) => step::going(RemoveAccount::LoadingHidden { key }),
            },
            (RemoveAccount::LoadingHidden { key }, ServiceReply::Hidden(stored)) =>
                match data_store::loaded_hidden_accounts(store.hidden_accounts_file(), stored) {
                    Err(error) => step::failing(ErrorView::DataStorage(error)),
                    Ok(_) => step::going(RemoveAccount::WritingHidden { key }),
                },
            (RemoveAccount::WritingHidden { key }, ServiceReply::Written(written)) =>
                match data_store::hidden_accounts_error(written) {
                    Some(error) => step::failing(ErrorView::DataStorage(error)),
                    None => step::going(RemoveAccount::Showing),
                },
            (RemoveAccount::Showing, ServiceReply::Snapshot(snapshot)) => match snapshot {
                Err(error) => step::failing(error@),
                Ok(snapshot) => step::ending(snapshot),
            },
            _ => step::confused(),
        }
    }

    /// The hidden accounts after the answer: those that are read, and then with the
    /// account that was removed.
    pub open spec fn hidden(
        self,
        store: DataStore,
        reply: ServiceReply,
        hidden: Set<AccountKeyView>,
    ) -> Set<AccountKeyView> {
        match (self, reply) {
            (RemoveAccount::LoadingHidden { .. }, ServiceReply::Hidden(stored)) =>
                match data_store::loaded_hidden_accounts(store.hidden_accounts_file(), stored) {
                    Err(_) => hidden,
                    Ok(loaded) => loaded,
                },
            (
                RemoveAccount::WritingHidden { key },
                ServiceReply::Written(WrittenDocument::Done),
            ) => hidden.insert(key@),
            _ => hidden,
        }
    }

    /// Takes the answer.
    pub fn resume(self, service: &mut WindowsPlatformService, reply: ServiceReply) -> (step: Step<
        RemoveAccount,
        AppSnapshot,
    >)
        ensures
            step@ == self.next(old(service).store, reply),
            final(service).hidden_accounts@ == self.hidden(
                old(service).store,
                reply,
                old(service).hidden_accounts@,
            ),
            *final(service) == (WindowsPlatformService {
                hidden_accounts: final(service).hidden_accounts,
                ..*old(service)
            }),
    {
        match (self, reply) {
            (RemoveAccount::Locking { key }, ServiceReply::Done(done)) => match done {
                Err(error) => step::fail(error),
                Ok(_) => step::go(RemoveAccount::CheckingSession { key }),
            },
            (RemoveAccount::CheckingSession { key }, ServiceReply::Session(session)) =>
                match session {
                    Err(error) => step::fail(error),
                    Ok(Some(_)) => step::fail(
                        AppError::Login("请先完成或取消当前登录流程".to_owned()),
                    ),
                    Ok(None) => step::go(RemoveAccount::Removing { key }),
                },
            (RemoveAccount::Removing { key }, ServiceReply::Done(done)) => match done {
                Err(error) => step::fail(error),
                Ok(_) => step::go(RemoveAccount::LoadingHidden { key }),
            },
            (RemoveAccount::LoadingHidden { key }, ServiceReply::Hidden(stored)) =>
                match service.store.load_hidden_accounts(&stored) {
                    Err(error) => step::fail(AppError::DataStorage(error)),
                    Ok(hidden) => {
                        service.hidden_accounts = hidden;
                        step::go(RemoveAccount::WritingHidden { key })
                    },
                },
            (RemoveAccount::WritingHidden { key }, ServiceReply::Written(written)) =>
                match service.store.saved_hidden_accounts(&written) {
                    Err(error) => step::fail(AppError::DataStorage(error)),
                    Ok(_) => {
                        service.hidden_accounts =
                        service.hidden_accounts.clone().with(HiddenAccountKey::from(&key));
                        step::go(RemoveAccount::Showing)
                    },
                },
            (RemoveAccount::Showing, ServiceReply::Snapshot(snapshot)) => match snapshot {
                Err(error) => step::fail(error),
                Ok(snapshot) => step::end(snapshot),
            },
            _ => step::give_up(),
        }
    }
}

impl WindowsPlatformService {
    /// Begins to show the application.
    pub fn snapshot(&self) -> (operation: TakeSnapshot)
        ensures
            operation == TakeSnapshot::ReadingCatalog,
    {
        TakeSnapshot::ReadingCatalog
    }

    /// Begins to detect accounts.
    pub fn detect_accounts(&self) -> (operation: DetectAccounts)
        ensures
            operation == DetectAccounts::Locking,
    {
        DetectAccounts::Locking
    }

    /// Begins to choose the client.
    pub fn set_client_path(&self, path: &str) -> (operation: SetClientPath)
        ensures
            operation matches SetClientPath::Locking { path: chosen } && chosen@ == path@,
    {
        SetClientPath::Locking { path: path.to_owned() }
    }

    /// Begins to open the client.
    pub fn open_client(&self) -> (operation: OpenClient)
        ensures
            operation == OpenClient::Locking,
    {
        OpenClient::Locking
    }

    /// Begins to remove the account.
    pub fn remove_account(&self, key: &AccountKey) -> (operation: RemoveAccount)
        ensures
            operation == (RemoveAccount::Locking { key: *key }),
    {
        RemoveAccount::Locking { key: key.clone() }
    }

    /// The record of the hidden accounts with the account.
    pub fn document_with(&self, account: &AccountKey) -> (document: HiddenAccountsDocument)
        ensures
            data_store::is_document_of(document, self.hidden_accounts@.insert(account@)),
    {
        let more = self.hidden_accounts.clone().with(HiddenAccountKey::from(account));
        self.store.save_hidden_accounts(&more)
    }
}

/// What is hidden: according to the service, and according to the record on the disk.
pub struct Hiding {
    pub service: Set<AccountKeyView>,
    pub record: Set<AccountKeyView>,
}

/// Whether what was read of the record is what it says.
pub open spec fn reads_hidden(store: DataStore, reply: ServiceReply, hiding: Hiding) -> bool {
    reply matches ServiceReply::Hidden(stored) ==> (data_store::loaded_hidden_accounts(
        store.hidden_accounts_file(),
        stored,
    ) matches Ok(loaded) ==> loaded == hiding.record)
}

/// One piece of work of removing an account.
pub struct RemoveMoment {
    pub operation: RemoveAccount,
    pub reply: ServiceReply,
    pub earlier: Hiding,
    pub later: Hiding,
}

/// Whether the moments are a run of removing the account.
pub open spec fn is_remove_run(run: Seq<RemoveMoment>, store: DataStore, key: AccountKey) -> bool {
    &&& run.len() > 0
    &&& run[0].operation == RemoveAccount::Locking { key }
    &&& forall|i: int|
        0 <= i < run.len() ==> {
            let moment = #[trigger] run[i];
            &&& reads_hidden(store, moment.reply, moment.earlier)
            &&& moment.later.service == moment.operation.hidden(
                store,
                moment.reply,
                moment.earlier.service,
            )
            &&& moment.later.record == (match (moment.operation, moment.reply) {
                (
                    RemoveAccount::WritingHidden { key },
                    ServiceReply::Written(WrittenDocument::Done),
                ) => moment.earlier.service.insert(key@),
                _ => moment.earlier.record,
            })
        }
    &&& forall|i: int|
        1 <= i < run.len() ==> {
            let before = run[i - 1];
            let moment = #[trigger] run[i];
            moment.earlier == before.later && (before.operation.next(
                store,
                before.reply,
            ) matches StepView::Perform { operation, .. } && operation == moment.operation)
        }
}

/// An account that was removed is hidden, and so are the accounts that were hidden before,
/// according to the service and to the record.
pub proof fn law_removed_account_is_hidden(
    run: Seq<RemoveMoment>,
    store: DataStore,
    key: AccountKey,
    i: int,
)
    requires
        is_remove_run(run, store, key),
        0 <= i < run.len(),
    ensures
        match run[i].operation {
            RemoveAccount::Locking { key: kept }
            | RemoveAccount::CheckingSession { key: kept }
            | RemoveAccount::Removing { key: kept }
            | RemoveAccount::LoadingHidden { key: kept } => kept == key && run[i].earlier.record
                == run[0].earlier.record,
            RemoveAccount::WritingHidden { key: kept } => kept == key && run[i].earlier.record
                == run[0].earlier.record && run[i].earlier.service == run[0].earlier.record,
            RemoveAccount::Showing => run[i].earlier.record == run[0].earlier.record.insert(key@)
                && run[i].earlier.service == run[i].earlier.record,
        },
        run[i].operation.next(store, run[i].reply) matches StepView::Finished(Ok(_)) ==> {
            &&& run[i].later.record == run[0].earlier.record.insert(key@)
            &&& run[i].later.service == run[i].later.record
        },
    decreases i,
{
    if i > 0 {
        law_removed_account_is_hidden(run, store, key, i - 1);
        assert(run[i].earlier == run[i - 1].later);
        assert(reads_hidden(store, run[i - 1].reply, run[i - 1].earlier));
    }
    assert(reads_hidden(store, run[i].reply, run[i].earlier));
}

/// One piece of work of detecting accounts and the step that it leads to.
pub struct DetectMoment {
    pub operation: DetectAccounts,
    pub reply: ServiceReply,
    pub earlier: Hiding,
    pub later: Hiding,
    pub step: Step<DetectAccounts, AppSnapshot>,
}

/// Whether the moments are a run of detecting accounts.
pub open spec fn is_detect_run(run: Seq<DetectMoment>, store: DataStore) -> bool {
    &&& run.len() > 0
    &&& run[0].operation == DetectAccounts::Locking
    &&& forall|i: int|
        0 <= i < run.len() ==> {
            let moment = #[trigger] run[i];
            &&& reads_hidden(store, moment.reply, moment.earlier)
            &&& moment.operation.leads_to(
                store,
                moment.reply,
                moment.step,
                moment.earlier.service,
                moment.later.service,
            )
            &&& moment.later.record == (match (moment.operation, moment.reply) {
                (
                    DetectAccounts::WritingHidden { restored, .. },
                    ServiceReply::Written(WrittenDocument::Done),
                ) => restored.hidden@,
                _ => moment.earlier.record,
            })
        }
    &&& forall|i: int|
        1 <= i < run.len() ==> {
            let before = run[i - 1];
            let moment = #[trigger] run[i];
            moment.earlier == before.later && (before.step matches Step::Perform { operation, .. }
                && operation == moment.operation)
        }
}

/// What is hidden once the accounts of the catalog were detected: what was hidden before and
/// is not among them.
pub open spec fn still_hidden(hidden: Set<AccountKeyView>, catalog: AccountCatalog) -> Set<
    AccountKeyView,
> {
    hidden.difference(service_common::account_keys(catalog.accounts@).to_set())
}

/// Detecting accounts shows exactly the detected ones again: when the application is shown
/// with a catalog, the accounts that are hidden are those that were hidden before and are
/// not in it, according to the service and to the record.
pub proof fn law_detected_accounts_are_shown(run: Seq<DetectMoment>, store: DataStore, i: int)
    requires
        is_detect_run(run, store),
        0 <= i < run.len(),
    ensures
        match run[i].operation {
            DetectAccounts::WritingHidden { catalog, restored } => run[i].earlier.record
                == run[0].earlier.record && restored.hidden@ == still_hidden(
                run[0].earlier.record,
                catalog,
            ),
            DetectAccounts::Showing { found: Ok(catalog) } => {
                &&& run[i].earlier.record == still_hidden(run[0].earlier.record, catalog)
                &&& run[i].earlier.service == run[i].earlier.record
            },
            _ => run[i].earlier.record == run[0].earlier.record,
        },
    decreases i,
{
    if i > 0 {
        law_detected_accounts_are_shown(run, store, i - 1);
        let before = run[i - 1];
        assert(run[i].earlier == before.later);
        assert(reads_hidden(store, before.reply, before.earlier));
        assert(before.operation.leads_to(
            store,
            before.reply,
            before.step,
            before.earlier.service,
            before.later.service,
        ));
    }
}

/// An account that was removed and is detected afterwards is shown again: after the removal
/// has succeeded it is hidden, and when the application is then shown with a catalog that
/// holds it, it is not.
pub proof fn law_removed_account_can_come_back(
    removal: Seq<RemoveMoment>,
    detection: Seq<DetectMoment>,
    store: DataStore,
    key: AccountKey,
    catalog: AccountCatalog,
    at: int,
    i: int,
)
    requires
        is_remove_run(removal, store, key),
        removal.last().operation.next(store, removal.last().reply) matches StepView::Finished(
            Ok(_),
        ),
        is_detect_run(detection, store),
        detection[0].earlier == removal.last().later,
        0 <= i < detection.len(),
        detection[i].operation == (DetectAccounts::Showing { found: Ok(catalog) }),
        0 <= at < catalog.accounts.len(),
        catalog.accounts@[at].key@ == key@,
    ensures
        removal.last().later.service.contains(key@),
        !service_common::shown_accounts(
            catalog.accounts@,
            removal.last().later.service,
        ).contains(catalog.accounts@[at]),
        !detection[i].earlier.service.contains(key@),
        service_common::shown_accounts(
            catalog.accounts@,
            detection[i].earlier.service,
        ).contains(catalog.accounts@[at]),
{
    law_removed_account_is_hidden(removal, store, key, removal.len() - 1);
    law_detected_accounts_are_shown(detection, store, i);
    let keys = service_common::account_keys(catalog.accounts@);
    assert(keys[at] == key@);
    assert(keys.to_set().contains(key@));
    let account = catalog.accounts@[at];
    assert(catalog.accounts@.contains(account));
    service_common::lemma_shown(catalog.accounts@, removal.last().later.service, account);
    service_common::lemma_shown(catalog.accounts@, detection[i].earlier.service, account);
}

impl TakeSnapshot {
    /// How the operation goes on.
    pub open spec fn steps() -> spec_fn(TakeSnapshot, ServiceReply) -> StepView<
        TakeSnapshot,
        AppSnapshot,
    > {
        |operation: TakeSnapshot, reply: ServiceReply| operation.next(reply)
    }
}

/// Showing the application succeeds exactly where it was shown with what reading the
/// client's database came to, be it an error.
pub proof fn law_application_is_shown_with_what_was_read(
    run: Seq<Moment<TakeSnapshot, ServiceReply>>,
)
    requires
        step::is_run(TakeSnapshot::steps(), TakeSnapshot::ReadingCatalog, run),
    ensures
        step::result_of(TakeSnapshot::steps(), run) is Ok <==> {
            &&& run.len() == 2
            &&& run[0].reply is Catalog
            &&& run[1].operation == (TakeSnapshot::Showing { catalog: run[0].reply->Catalog_0 })
            &&& run[1].reply is Snapshot
            &&& run[1].reply->Snapshot_0 is Ok
        },
        step::result_of(TakeSnapshot::steps(), run) is Ok ==> {
            step::result_of(TakeSnapshot::steps(), run) == Ok::<AppSnapshot, ErrorView>(run.last().reply->Snapshot_0->Ok_0@)
        },
        run.len() <= 2,
{
    let steps = TakeSnapshot::steps();
    assert(step::follows(steps, run, 0));
    if run.len() > 1 {
        assert(step::follows(steps, run, 1));
    }
}

impl SetClientPath {
    /// How the operation goes on.
    pub open spec fn steps() -> spec_fn(SetClientPath, ServiceReply) -> StepView<
        SetClientPath,
        AppSnapshot,
    > {
        |operation: SetClientPath, reply: ServiceReply| operation.next(reply)
    }
}

/// Choosing the client succeeds exactly where the lock was taken, the path that was given
/// was checked, the settings were read or were not there, they were written with the
/// client that the check gave, and the application was shown. The settings that are
/// written differ from those that were read in the client alone. The first work that fails
/// ends it with its error.
pub proof fn law_chosen_client_is_checked_and_recorded(
    path: String,
    settings: SettingsDocument,
    run: Seq<Moment<SetClientPath, ServiceReply>>,
)
    requires
        step::is_run(SetClientPath::steps(), SetClientPath::Locking { path }, run),
    ensures
        step::result_of(SetClientPath::steps(), run) is Ok <==> {
            &&& run.len() == 5
            &&& run[0].reply.is_done()
            &&& run[1].operation == (SetClientPath::Validating { path })
            &&& run[1].reply is Executable
            &&& run[1].reply->Executable_0 is Ok
            &&& run[2].operation == (SetClientPath::LoadingSettings { path: run[1].reply->Executable_0->Ok_0 })
            &&& run[2].reply is Settings
            &&& run[2].reply->Settings_0 is Missing || (run[2].reply->Settings_0 is Present
                && run[2].reply->Settings_0->Present_0.version == data_store::SETTINGS_VERSION)
            &&& run[3].operation is WritingSettings
            &&& run[3].reply == ServiceReply::Written(WrittenDocument::Done)
            &&& run[4].operation is Showing
            &&& run[4].reply is Snapshot
            &&& run[4].reply->Snapshot_0 is Ok
        },
        step::result_of(SetClientPath::steps(), run) is Ok ==> {
            step::result_of(SetClientPath::steps(), run) == Ok::<AppSnapshot, ErrorView>(run.last().reply->Snapshot_0->Ok_0@)
        },
        step::result_of(SetClientPath::steps(), run) is Ok ==> {
            let after = run[2].operation.settings(run[2].reply, settings);
            &&& after.client_executable_path == Some(run[1].reply->Executable_0->Ok_0)
            &&& after.version == data_store::SETTINGS_VERSION
            &&& run[0].operation.settings(run[0].reply, settings) == settings
            &&& run[1].operation.settings(run[1].reply, settings) == settings
            &&& run[3].operation.settings(run[3].reply, after) == after
            &&& run[4].operation.settings(run[4].reply, after) == after
        },
        forall|i: int|
            0 <= i < run.len() && (#[trigger] run[i].reply.failure()) is Some && (match run[i].operation {
                SetClientPath::Locking { .. } => run[i].reply is Done,
                SetClientPath::Validating { .. } => run[i].reply is Executable,
                SetClientPath::Showing => run[i].reply is Snapshot,
                _ => false,
            }) ==> i == run.len() - 1 && step::result_of(SetClientPath::steps(), run) == Err::<AppSnapshot, ErrorView>(run[i].reply.failure()->0),
        run.len() <= 5,
{
    let steps = SetClientPath::steps();
    assert(step::follows(steps, run, 0));
    if run.len() > 1 {
        assert(step::follows(steps, run, 1));
    }
    if run.len() > 2 {
        assert(step::follows(steps, run, 2));
    }
    if run.len() > 3 {
        assert(step::follows(steps, run, 3));
    }
    if run.len() > 4 {
        assert(step::follows(steps, run, 4));
    }
}

impl OpenClient {
    /// How the operation goes on.
    pub open spec fn steps() -> spec_fn(OpenClient, ServiceReply) -> StepView<
        OpenClient,
        AppSnapshot,
    > {
        |operation: OpenClient, reply: ServiceReply| operation.next(reply)
    }
}

/// Opening the client succeeds exactly where the lock was taken, it was found out whether
/// the client runs, one that does not run was found, started and came up, and the
/// application was shown. One that runs is not started again. The first work that fails
/// ends it with its error.
pub proof fn law_client_is_opened_unless_it_runs(
    run: Seq<Moment<OpenClient, ServiceReply>>,
)
    requires
        step::is_run(OpenClient::steps(), OpenClient::Locking, run),
    ensures
        step::result_of(OpenClient::steps(), run) is Ok <==> {
            let n: int = if run[1].reply.flag() == Some(false) {
                1
            } else {
                0
            };
            &&& run.len() == 3 + n + n + n
            &&& run[0].reply.is_done()
            &&& run[1].operation is CheckingClient
            &&& run[1].reply.flag() is Some
            &&& n == 1 ==> run[2].operation is ResolvingClient
            &&& n == 1 ==> run[2].reply is Client
            &&& n == 1 ==> run[2].reply->Client_0 is Some
            &&& n == 1 ==> run[2 + n].operation == (OpenClient::Launching { client: run[2].reply->Client_0->0 })
            &&& n == 1 ==> run[2 + n].reply.is_done()
            &&& n == 1 ==> run[2 + n + n].operation is Starting
            &&& n == 1 ==> run[2 + n + n].reply.is_done()
            &&& run[2 + n + n + n].operation is Showing
            &&& run[2 + n + n + n].reply is Snapshot
            &&& run[2 + n + n + n].reply->Snapshot_0 is Ok
        },
        step::result_of(OpenClient::steps(), run) is Ok ==> {
            let n: int = if run[1].reply.flag() == Some(false) {
                1
            } else {
                0
            };
            step::result_of(OpenClient::steps(), run) == Ok::<AppSnapshot, ErrorView>(run.last().reply->Snapshot_0->Ok_0@)
        },
        forall|i: int|
            0 <= i < run.len() && (#[trigger] run[i].reply.failure()) is Some && (match run[i].operation {
                OpenClient::CheckingClient => run[i].reply is Flag,
                OpenClient::ResolvingClient => false,
                OpenClient::Showing => run[i].reply is Snapshot,
                _ => run[i].reply is Done,
            }) ==> i == run.len() - 1 && step::result_of(OpenClient::steps(), run) == Err::<AppSnapshot, ErrorView>(run[i].reply.failure()->0),
        run.len() <= 6,
{
    let steps = OpenClient::steps();
    assert(step::follows(steps, run, 0));
    if run.len() > 1 {
        assert(step::follows(steps, run, 1));
    }
    if run.len() > 2 {
        assert(step::follows(steps, run, 2));
    }
    if run.len() > 3 {
        assert(step::follows(steps, run, 3));
    }
    if run.len() > 4 {
        assert(step::follows(steps, run, 4));
    }
    if run.len() > 5 {
        assert(step::follows(steps, run, 5));
    }
}

impl RemoveAccount {
    /// How the operation goes on.
    pub open spec fn steps(store: DataStore) -> spec_fn(RemoveAccount, ServiceReply) -> StepView<
        RemoveAccount,
        AppSnapshot,
    > {
        |operation: RemoveAccount, reply: ServiceReply| operation.next(store, reply)
    }
}

/// Removing an account succeeds exactly where the lock was taken, no login was waiting,
/// what was saved of this account was deleted, the hidden accounts were read or were not
/// there, they were written, and the application was shown. The first work that fails ends
/// it with its error.
pub proof fn law_account_is_deleted_and_then_hidden(
    store: DataStore,
    key: AccountKey,
    run: Seq<Moment<RemoveAccount, ServiceReply>>,
)
    requires
        step::is_run(RemoveAccount::steps(store), RemoveAccount::Locking { key }, run),
    ensures
        step::result_of(RemoveAccount::steps(store), run) is Ok <==> {
            &&& run.len() == 6
            &&& run[0].reply.is_done()
            &&& run[1].operation == (RemoveAccount::CheckingSession { key })
            &&& run[1].reply == ServiceReply::Session(Ok(None))
            &&& run[2].operation == (RemoveAccount::Removing { key })
            &&& run[2].reply.is_done()
            &&& run[3].operation == (RemoveAccount::LoadingHidden { key })
            &&& run[3].reply is Hidden
            &&& run[3].reply->Hidden_0 is Missing || (run[3].reply->Hidden_0 is Present
                && run[3].reply->Hidden_0->Present_0.version == data_store::HIDDEN_ACCOUNTS_VERSION)
            &&& run[4].operation == (RemoveAccount::WritingHidden { key })
            &&& run[4].reply == ServiceReply::Written(WrittenDocument::Done)
            &&& run[5].operation is Showing
            &&& run[5].reply is Snapshot
            &&& run[5].reply->Snapshot_0 is Ok
        },
        step::result_of(RemoveAccount::steps(store), run) is Ok ==> {
            step::result_of(RemoveAccount::steps(store), run) == Ok::<AppSnapshot, ErrorView>(run.last().reply->Snapshot_0->Ok_0@)
        },
        forall|i: int|
            0 <= i < run.len() && (#[trigger] run[i].reply.failure()) is Some && (match run[i].operation {
                RemoveAccount::Locking { .. } | RemoveAccount::Removing { .. } => run[i].reply is Done,
                RemoveAccount::CheckingSession { .. } => run[i].reply is Session,
                RemoveAccount::Showing => run[i].reply is Snapshot,
                _ => false,
            }) ==> i == run.len() - 1 && step::result_of(RemoveAccount::steps(store), run) == Err::<AppSnapshot, ErrorView>(run[i].reply.failure()->0),
        run.len() <= 6,
{
    let steps = RemoveAccount::steps(store);
    assert(step::follows(steps, run, 0));
    if run.len() > 1 {
        assert(step::follows(steps, run, 1));
    }
    if run.len() > 2 {
        assert(step::follows(steps, run, 2));
    }
    if run.len() > 3 {
        assert(step::follows(steps, run, 3));
    }
    if run.len() > 4 {
        assert(step::follows(steps, run, 4));
    }
    if run.len() > 5 {
        assert(step::follows(steps, run, 5));
    }
}

/// Detecting accounts succeeds exactly where the lock was taken, the client was found, its
/// database was read or was not there, and the application was shown; where the database was
/// read, the hidden accounts were read or were not there, and where one of them was detected
/// the record without the detected ones was written first. The application is shown with
/// what the database said.
pub proof fn law_accounts_are_detected_with_all_work(run: Seq<DetectMoment>, store: DataStore)
    requires
        is_detect_run(run, store),
        run.last().step is Finished,
    ensures
        run.last().step->Finished_0 is Ok <==> {
            let read = run[2].reply.catalog() is Some;
            let n: int = if !read {
                0
            } else if run[4].operation is WritingHidden {
                2
            } else {
                1
            };
            &&& run.len() == 4 + n
            &&& run[0].reply.is_done()
            &&& run[1].operation is ResolvingClient
            &&& run[1].reply is Client
            &&& run[1].reply->Client_0 is Some
            &&& run[2].operation is ReadingCatalog
            &&& !read ==> run[2].reply == ServiceReply::Catalog(
                Err(AppError::AccountDatabaseMissing),
            )
            &&& read ==> run[3].operation == (DetectAccounts::LoadingHidden {
                catalog: run[2].reply.catalog()->0,
            })
            &&& read ==> run[3].reply is Hidden
            &&& read ==> run[3].reply->Hidden_0 is Missing || (run[3].reply->Hidden_0 is Present
                && run[3].reply->Hidden_0->Present_0.version
                == data_store::HIDDEN_ACCOUNTS_VERSION)
            &&& n == 2 ==> run[4].reply == ServiceReply::Written(WrittenDocument::Done)
            &&& run.last().operation == (DetectAccounts::Showing { found: run[2].reply->Catalog_0 })
            &&& run.last().reply is Snapshot
            &&& run.last().reply->Snapshot_0 is Ok
        },
{
    assert(run[0].operation is Locking);
    if run.len() > 1 {
        assert(run[1].operation == run[0].step->operation);
    }
    if run.len() > 2 {
        assert(run[2].operation == run[1].step->operation);
    }
    if run.len() > 3 {
        assert(run[3].operation == run[2].step->operation);
    }
    if run.len() > 4 {
        assert(run[4].operation == run[3].step->operation);
    }
    if run.len() > 5 {
        assert(run[5].operation == run[4].step->operation);
    }
    if run.len() > 6 {
        assert(run[6].operation == run[5].step->operation);
    }
}

} // verus!
