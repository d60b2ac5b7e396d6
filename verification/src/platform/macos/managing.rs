//! The other operations of the service on macOS: recovering from an operation that did
//! not finish, showing the application, detecting accounts, choosing and opening the
//! client, and removing an account.

use vstd::prelude::*;

use crate::contracts::AccountCatalog;
use crate::contracts::AccountKey;
use crate::contracts::AccountKeyView;
use crate::contracts::AppSnapshot;
use crate::contracts::EventView;
use crate::contracts::OperationEvent;
use crate::contracts::OperationKind;
use crate::data_store;
use crate::data_store::DataStore;
use crate::data_store::HiddenAccountKey;
use crate::data_store::HiddenAccountsDocument;
use crate::data_store::RestoredAccounts;
use crate::data_store::SettingsDocument;
use crate::data_store::WrittenDocument;
use crate::error::AppError;
use crate::error::ErrorView;
use crate::platform::macos::app_service;
use crate::platform::macos::app_service::MacosPlatformService;
use crate::platform::macos::app_service::ServiceReply;
use crate::platform::macos::process::ValidatedClient;
use crate::platform::macos::recovery::RecoveryKind;
use crate::platform::macos::recovery::RecoveryRecord;
use crate::platform::macos::recovery::RecoveryState;
use crate::service_common;
use crate::step::Moment;
use crate::step;
use crate::step::Step;
use crate::step::StepView;
use crate::text;

verus! {

/// A report about a recovery.
pub open spec fn recovery_event(
    phase: Seq<char>,
    title: Seq<char>,
    detail: Seq<char>,
    progress: u8,
) -> EventView {
    step::event(OperationKind::Recovery, phase, title, detail, progress)
}

fn report(phase: &str, title: &str, detail: &str, progress: u8) -> (event: OperationEvent)
    ensures
        event@ == recovery_event(phase@, title@, detail@, progress),
{
    step::emit(OperationKind::Recovery, phase, title, detail, progress)
}

/// Undoing an operation that did not finish. Each state names the work that is to be done.
#[derive(Debug)]
pub enum RecoverIncomplete {
    /// It is to be found out whether the client runs.
    CheckingClient { record: RecoveryRecord, client: ValidatedClient },
    /// The client is to be stopped.
    Stopping { record: RecoveryRecord, client: ValidatedClient },
    /// It is to be made sure that the client is stopped.
    ConfirmingStopped { record: RecoveryRecord, client: ValidatedClient },
    /// The operation is to be undone.
    RollingBack { record: RecoveryRecord, client: ValidatedClient },
    /// The client is to be started.
    Launching { client: ValidatedClient },
    /// Nothing but the report is to be done.
    Finishing,
}

/// The step that reports that the operation was undone.
pub open spec fn recovered() -> StepView<RecoverIncomplete, ()> {
    step::saying(
        recovery_event("completed"@, "恢复完成"@, "战网状态已恢复一致"@, 100),
        RecoverIncomplete::Finishing,
    )
}

fn recover(service: &mut MacosPlatformService) -> (step: Step<RecoverIncomplete, ()>)
    ensures
        step@ == recovered(),
        app_service::notice_view(final(service).startup_notice) == Some(
            "已恢复上次未完成操作前的战网状态。"@,
        ),
        *final(service) == (MacosPlatformService {
            startup_notice: final(service).startup_notice,
            ..*old(service)
        }),
{
    service.startup_notice = Some("已恢复上次未完成操作前的战网状态。".to_owned());
    step::say(
        report("completed", "恢复完成", "战网状态已恢复一致", 100),
        RecoverIncomplete::Finishing,
    )
}

impl RecoverIncomplete {
    /// What the answer leads to.
    pub open spec fn next(self, reply: ServiceReply) -> StepView<RecoverIncomplete, ()> {
        match (self, reply) {
            (RecoverIncomplete::CheckingClient { record, client }, ServiceReply::Flag(running)) =>
                match running {
                    Err(error) => step::failing(error@),
                    Ok(true) => step::going(RecoverIncomplete::Stopping { record, client }),
                    Ok(false) => step::going(
                        RecoverIncomplete::ConfirmingStopped { record, client },
                    ),
                },
            (RecoverIncomplete::Stopping { record, client }, ServiceReply::Done(done)) =>
                match done {
                    Err(error) => step::failing(error@),
                    Ok(_) => step::going(RecoverIncomplete::ConfirmingStopped { record, client }),
                },
            (RecoverIncomplete::ConfirmingStopped { record, client }, ServiceReply::Done(done)) =>
                match done {
                    Err(error) => step::failing(error@),
                    Ok(_) => step::saying(
                        recovery_event(
                            "rollingBack"@,
                            "正在恢复上次操作"@,
                            "正在还原配置和认证状态"@,
                            68,
                        ),
                        RecoverIncomplete::RollingBack { record, client },
                    ),
                },
            (RecoverIncomplete::RollingBack { record, client }, ServiceReply::Done(done)) =>
                match done {
                    Err(error) => step::failing(error@),
                    Ok(_) => if record.previous_client_was_running && record.kind
                        != RecoveryKind::Login {
                        step::going(RecoverIncomplete::Launching { client })
                    } else {
                        recovered()
                    },
                },
            (RecoverIncomplete::Launching { .. }, ServiceReply::Done(done)) => match done {
                Err(error) => step::failing(error@),
                Ok(_) => recovered(),
            },
            (RecoverIncomplete::Finishing, ServiceReply::Reported) => step::ending(()),
            _ => step::confused(),
        }
    }

    /// The notice after the answer: it changes once the operation was undone.
    pub open spec fn notice(
        self,
        reply: ServiceReply,
        notice: Option<Seq<char>>,
    ) -> Option<Seq<char>> {
        match (self, reply) {
            (
                RecoverIncomplete::RollingBack { record, .. },
                ServiceReply::Done(Ok(_)),
            ) => if record.previous_client_was_running && record.kind != RecoveryKind::Login {
                notice
            } else {
                Some("已恢复上次未完成操作前的战网状态。"@)
            },
            (RecoverIncomplete::Launching { .. }, ServiceReply::Done(Ok(_))) => Some(
                "已恢复上次未完成操作前的战网状态。"@,
            ),
            _ => notice,
        }
    }

    /// Takes the answer.
    pub fn resume(self, service: &mut MacosPlatformService, reply: ServiceReply) -> (step: Step<
        RecoverIncomplete,
        (),
    >)
        ensures
            step@ == self.next(reply),
            app_service::notice_view(final(service).startup_notice) == self.notice(
                reply,
                app_service::notice_view(old(service).startup_notice),
            ),
            *final(service) == (MacosPlatformService {
                startup_notice: final(service).startup_notice,
                ..*old(service)
            }),
    {
        match (self, reply) {
            (RecoverIncomplete::CheckingClient { record, client }, ServiceReply::Flag(running)) =>
                match running {
                    Err(error) => step::fail(error),
                    Ok(true) => step::go(RecoverIncomplete::Stopping { record, client }),
                    Ok(false) => step::go(
                        RecoverIncomplete::ConfirmingStopped { record, client },
                    ),
                },
            (RecoverIncomplete::Stopping { record, client }, ServiceReply::Done(done)) =>
                match done {
                    Err(error) => step::fail(error),
                    Ok(_) => step::go(RecoverIncomplete::ConfirmingStopped { record, client }),
                },
            (RecoverIncomplete::ConfirmingStopped { record, client }, ServiceReply::Done(done)) =>
                match done {
                    Err(error) => step::fail(error),
                    Ok(_) => step::say(
                        report(
                            "rollingBack",
                            "正在恢复上次操作",
                            "正在还原配置和认证状态",
                            68,
                        ),
                        RecoverIncomplete::RollingBack { record, client },
                    ),
                },
            (RecoverIncomplete::RollingBack { record, client }, ServiceReply::Done(done)) =>
                match done {
                    Err(error) => step::fail(error),
                    Ok(_) => if record.previous_client_was_running && record.kind
                        != RecoveryKind::Login {
                        step::go(RecoverIncomplete::Launching { client })
                    } else {
                        recover(service)
                    },
                },
            (RecoverIncomplete::Launching { .. }, ServiceReply::Done(done)) => match done {
                Err(error) => step::fail(error),
                Ok(_) => recover(service),
            },
            (RecoverIncomplete::Finishing, ServiceReply::Reported) => step::end(()),
            _ => step::give_up(),
        }
    }
}

/// Getting ready: an operation that did not finish is finished where it was committed, and
/// undone otherwise. Each state names the work that is to be done.
#[derive(Debug)]
pub enum PrepareForUse {
    /// The slot is to be read.
    ReadingRecord,
    /// The lock is to be taken.
    Locking { record: RecoveryRecord },
    /// The committed login is to be finished.
    Finalizing { id: String },
    /// The slot of the committed switch is to be emptied.
    Cleaning { id: String },
    /// The client is to be found.
    ResolvingClient { record: RecoveryRecord },
    /// The operation is to be undone.
    Recovering { record: RecoveryRecord, client: ValidatedClient },
}

impl PrepareForUse {
    /// What the answer leads to.
    pub open spec fn next(self, reply: ServiceReply) -> StepView<PrepareForUse, ()> {
        match (self, reply) {
            (PrepareForUse::ReadingRecord, ServiceReply::Record(record)) => match record {
                Err(error) => step::failing(error@),
                Ok(None) => step::ending(()),
                Ok(Some(record)) => step::going(PrepareForUse::Locking { record }),
            },
            (PrepareForUse::Locking { record }, ServiceReply::Done(done)) => match done {
                Err(error) => step::failing(error@),
                Ok(_) => if record.state != RecoveryState::Committed {
                    step::going(PrepareForUse::ResolvingClient { record })
                } else if record.kind == RecoveryKind::Login {
                    step::going(PrepareForUse::Finalizing { id: record.id })
                } else {
                    step::going(PrepareForUse::Cleaning { id: record.id })
                },
            },
            (PrepareForUse::Finalizing { .. }, ServiceReply::Committed(finalized)) =>
                match finalized {
                    Err(error) => step::failing(error@),
                    Ok(_) => step::ending(()),
                },
            (PrepareForUse::Cleaning { .. }, ServiceReply::Done(done)) => match done {
                Err(error) => step::failing(error@),
                Ok(_) => step::ending(()),
            },
            (PrepareForUse::ResolvingClient { record }, ServiceReply::Client(client)) =>
                match client {
                    Err(_) => step::ending(()),
                    Ok(client) => step::going(PrepareForUse::Recovering { record, client }),
                },
            (PrepareForUse::Recovering { .. }, ServiceReply::Done(done)) => match done {
                Err(error) => step::failing(error@),
                Ok(_) => step::ending(()),
            },
            _ => step::confused(),
        }
    }

    /// The notice after the answer: it changes once a committed operation was finished,
    /// and where the client that is needed was not found.
    pub open spec fn notice(
        self,
        reply: ServiceReply,
        notice: Option<Seq<char>>,
    ) -> Option<Seq<char>> {
        match (self, reply) {
            (PrepareForUse::Finalizing { .. }, ServiceReply::Committed(Ok(_))) => Some(
                "已完成上次操作的安全清理。"@,
            ),
            (PrepareForUse::Cleaning { .. }, ServiceReply::Done(Ok(_))) => Some(
                "已完成上次操作的安全清理。"@,
            ),
            (PrepareForUse::ResolvingClient { .. }, ServiceReply::Client(Err(error))) => Some(
                "上次操作仍需恢复，请重新选择有效的 Battle.net.app 后继续："@ + error@.message(),
            ),
            _ => notice,
        }
    }

    /// Takes the answer.
    pub fn resume(self, service: &mut MacosPlatformService, reply: ServiceReply) -> (step: Step<
        PrepareForUse,
        (),
    >)
        ensures
            step@ == self.next(reply),
            app_service::notice_view(final(service).startup_notice) == self.notice(
                reply,
                app_service::notice_view(old(service).startup_notice),
            ),
            *final(service) == (MacosPlatformService {
                startup_notice: final(service).startup_notice,
                ..*old(service)
            }),
    {
        match (self, reply) {
            (PrepareForUse::ReadingRecord, ServiceReply::Record(record)) => match record {
                Err(error) => step::fail(error),
                Ok(None) => step::end(()),
                Ok(Some(record)) => step::go(PrepareForUse::Locking { record }),
            },
            (PrepareForUse::Locking { record }, ServiceReply::Done(done)) => match done {
                Err(error) => step::fail(error),
                Ok(_) => if record.state != RecoveryState::Committed {
                    step::go(PrepareForUse::ResolvingClient { record })
                } else if record.kind == RecoveryKind::Login {
                    step::go(PrepareForUse::Finalizing { id: record.id })
                } else {
                    step::go(PrepareForUse::Cleaning { id: record.id })
                },
            },
            (PrepareForUse::Finalizing { .. }, ServiceReply::Committed(finalized)) =>
                match finalized {
                    Err(error) => step::fail(error),
                    Ok(_) => {
                        service.startup_notice = Some("已完成上次操作的安全清理。".to_owned());
                        step::end(())
                    },
                },
            (PrepareForUse::Cleaning { .. }, ServiceReply::Done(done)) => match done {
                Err(error) => step::fail(error),
                Ok(_) => {
                    service.startup_notice = Some("已完成上次操作的安全清理。".to_owned());
                    step::end(())
                },
            },
            (PrepareForUse::ResolvingClient { record }, ServiceReply::Client(client)) =>
                match client {
                    Err(error) => {
                        service.startup_notice = Some(
                            text::joined2(
                                "上次操作仍需恢复，请重新选择有效的 Battle.net.app 后继续：",
                                error.message().as_str(),
                            ),
                        );
                        step::end(())
                    },
                    Ok(client) => step::go(PrepareForUse::Recovering { record, client }),
                },
            (PrepareForUse::Recovering { .. }, ServiceReply::Done(done)) => match done {
                Err(error) => step::fail(error),
                Ok(_) => step::end(()),
            },
            _ => step::give_up(),
        }
    }
}

/// Showing the application. Each state names the work that is to be done.
#[derive(Debug)]
pub enum TakeSnapshot {
    /// The client's database is to be read.
    ReadingCatalog,
    /// The application is to be shown with what the client's database says.
    Showing { catalog: Result<AccountCatalog, AppError> },
}

impl TakeSnapshot {
    /// What the answer leads to.
    pub open spec fn next(self, reply: ServiceReply) -> StepView<TakeSnapshot, AppSnapshot> {
        match (self, reply) {
            (TakeSnapshot::ReadingCatalog, ServiceReply::Catalog(catalog)) => step::going(
                TakeSnapshot::Showing { catalog },
            ),
            (TakeSnapshot::Showing { .. }, ServiceReply::Snapshot(snapshot)) => match snapshot {
                Err(error) => step::failing(error@),
                Ok(snapshot) => step::ending(snapshot),
            },
            _ => step::confused(),
        }
    }

    /// Takes the answer.
    pub fn resume(self, reply: ServiceReply) -> (step: Step<TakeSnapshot, AppSnapshot>)
        ensures
            step@ == self.next(reply),
    {
        match (self, reply) {
            (TakeSnapshot::ReadingCatalog, ServiceReply::Catalog(catalog)) => step::go(
                TakeSnapshot::Showing { catalog },
            ),
            (TakeSnapshot::Showing { catalog: _ }, ServiceReply::Snapshot(snapshot)) =>
                match snapshot {
                    Err(error) => step::fail(error),
                    Ok(snapshot) => step::end(snapshot),
                },
            _ => step::give_up(),
        }
    }
}

/// Detecting accounts: those that are detected are shown again. Each state names
/// the work that is to be done.
#[derive(Debug)]
pub enum DetectAccounts {
    /// The lock is to be taken.
    Locking,
    /// The client is to be found.
    ResolvingClient,
    /// The client's database is to be read.
    ReadingCatalog,
    /// The hidden accounts are to be read.
    LoadingHidden { catalog: AccountCatalog },
    /// The record of the accounts that stay hidden is to be written.
    WritingHidden { catalog: AccountCatalog, restored: RestoredAccounts },
    /// The application is to be shown with what the client's database says.
    Showing { found: Result<AccountCatalog, AppError> },
}

impl DetectAccounts {
    /// Whether the answer leads to the step. The accounts that stay hidden are
    /// `hidden` before and `remaining` after it.
    pub open spec fn leads_to(
        self,
        store: DataStore,
        reply: ServiceReply,
        step: Step<DetectAccounts, AppSnapshot>,
        hidden: Set<AccountKeyView>,
        remaining: Set<AccountKeyView>,
    ) -> bool {
        match (self, reply) {
            (DetectAccounts::LoadingHidden { catalog }, ServiceReply::Hidden(stored)) =>
                match data_store::loaded_hidden_accounts(store.hidden_accounts_file(), stored) {
                    Err(error) => {
                        &&& step@ == step::failing::<DetectAccounts, AppSnapshot>(
                            ErrorView::DataStorage(error),
                        )
                        &&& remaining == hidden
                    },
                    Ok(loaded) => {
                        let shown = service_common::account_keys(catalog.accounts@).to_set();
                        if loaded.difference(shown) == loaded {
                            &&& step@ == step::going::<DetectAccounts, AppSnapshot>(
                                DetectAccounts::Showing { found: Ok(catalog) },
                            )
                            &&& remaining == loaded
                        } else {
                            &&& step matches Step::Perform {
                                operation: DetectAccounts::WritingHidden { catalog: kept, restored },
                                report: None,
                            }
                            &&& kept == catalog
                            &&& service_common::is_restored(restored, loaded, catalog)
                            &&& remaining == hidden
                        }
                    },
                },
            _ => step@ == self.next(reply) && remaining == self.hidden(reply, hidden),
        }
    }

    /// What the answer leads to, but for the hidden accounts that were read.
    pub open spec fn next(self, reply: ServiceReply) -> StepView<DetectAccounts, AppSnapshot> {
        match (self, reply) {
            (DetectAccounts::Locking, ServiceReply::Done(done)) => match done {
                Err(error) => step::failing(error@),
                Ok(_) => step::going(DetectAccounts::ResolvingClient),
            },
            (DetectAccounts::ResolvingClient, ServiceReply::Client(client)) => match client {
                Err(error) => step::failing(error@),
                Ok(_) => step::going(DetectAccounts::ReadingCatalog),
            },
            (DetectAccounts::ReadingCatalog, ServiceReply::Catalog(catalog)) => match catalog {
                Ok(catalog) => step::going(DetectAccounts::LoadingHidden { catalog }),
                Err(AppError::AccountDatabaseMissing) => step::going(
                    DetectAccounts::Showing { found: Err(AppError::AccountDatabaseMissing) },
                ),
                Err(error) => step::failing(error@),
            },
            (DetectAccounts::WritingHidden { catalog, restored }, ServiceReply::Written(written)) =>
                match data_store::hidden_accounts_error(written) {
                    Some(error) => step::failing(ErrorView::DataStorage(error)),
                    None => step::going(DetectAccounts::Showing { found: Ok(catalog) }),
                },
            (DetectAccounts::Showing { .. }, ServiceReply::Snapshot(snapshot)) => match snapshot {
                Err(error) => step::failing(error@),
                Ok(snapshot) => step::ending(snapshot),
            },
            _ => step::confused(),
        }
    }

    /// The hidden accounts after the answer, but for those that were read.
    pub open spec fn hidden(self, reply: ServiceReply, hidden: Set<AccountKeyView>) -> Set<
        AccountKeyView,
    > {
        match (self, reply) {
            (
                DetectAccounts::WritingHidden { restored, .. },
                ServiceReply::Written(WrittenDocument::Done),
            ) => restored.hidden@,
            _ => hidden,
        }
    }

    /// Takes the answer.
    pub fn resume(self, service: &mut MacosPlatformService, reply: ServiceReply) -> (step: Step<
        DetectAccounts,
        AppSnapshot,
    >)
        ensures
            self.leads_to(
                old(service).store,
                reply,
                step,
                old(service).hidden_accounts@,
                final(service).hidden_accounts@,
            ),
            *final(service) == (MacosPlatformService {
                hidden_accounts: final(service).hidden_accounts,
                ..*old(service)
            }),
    {
        match (self, reply) {
            (DetectAccounts::Locking, ServiceReply::Done(done)) => match done {
                Err(error) => step::fail(error),
                Ok(_) => step::go(DetectAccounts::ResolvingClient),
            },
            (DetectAccounts::ResolvingClient, ServiceReply::Client(client)) => match client {
                Err(error) => step::fail(error),
                Ok(_) => step::go(DetectAccounts::ReadingCatalog),
            },
            (DetectAccounts::ReadingCatalog, ServiceReply::Catalog(catalog)) => match catalog {
                Ok(catalog) => step::go(DetectAccounts::LoadingHidden { catalog }),
                Err(AppError::AccountDatabaseMissing) => step::go(
                    DetectAccounts::Showing { found: Err(AppError::AccountDatabaseMissing) },
                ),
                Err(error) => step::fail(error),
            },
            (DetectAccounts::LoadingHidden { catalog }, ServiceReply::Hidden(stored)) => {
                let detected = service_common::detected_keys(&catalog.accounts);
                match service.store.restore_detected_accounts(&detected, &stored) {
                    Err(error) => step::fail(AppError::DataStorage(error)),
                    Ok(restored) => match restored.document {
                        None => {
                            service.hidden_accounts = restored.hidden;
                            step::go(DetectAccounts::Showing { found: Ok(catalog) })
                        },
                        Some(document) => step::go(
                            DetectAccounts::WritingHidden {
                                catalog,
                                restored: RestoredAccounts {
                                    hidden: restored.hidden,
                                    document: Some(document),
                                },
                            },
                        ),
                    },
                }
            },
            (DetectAccounts::WritingHidden { catalog, restored }, ServiceReply::Written(written)) =>
                match service.store.saved_hidden_accounts(&written) {
                    Err(error) => step::fail(AppError::DataStorage(error)),
                    Ok(_) => {
                        service.hidden_accounts = restored.hidden;
                        step::go(DetectAccounts::Showing { found: Ok(catalog) })
                    },
                },
            (DetectAccounts::Showing { found: _ }, ServiceReply::Snapshot(snapshot)) =>
                match snapshot {
                    Err(error) => step::fail(error),
                    Ok(snapshot) => step::end(snapshot),
                },
            _ => step::give_up(),
        }
    }
}

/// Choosing the client: it is kept in the settings, and an operation that waits to be
/// undone is undone with it. Each state names the work that is to be done.
#[derive(Debug)]
pub enum SetClientPath {
    /// The lock is to be taken.
    Locking { path: String },
    /// The client is to be checked.
    Validating { path: String },
    /// The settings are to be read.
    LoadingSettings { client: ValidatedClient },
    /// The settings of the service are to be written.
    WritingSettings { client: ValidatedClient },
    /// The slot is to be read.
    CheckingRecord { client: ValidatedClient },
    /// The operation is to be undone, without any report.
    Recovering { record: RecoveryRecord, client: ValidatedClient },
    /// The application is to be shown.
    Showing,
}

impl SetClientPath {
    /// What the answer leads to.
    pub open spec fn next(self, reply: ServiceReply) -> StepView<SetClientPath, AppSnapshot> {
        match (self, reply) {
            (SetClientPath::Locking { path }, ServiceReply::Done(done)) => match done {
                Err(error) => step::failing(error@),
                Ok(_) => step::going(SetClientPath::Validating { path }),
            },
            (SetClientPath::Validating { .. }, ServiceReply::Client(client)) => match client {
                Err(error) => step::failing(error@),
                Ok(client) => step::going(SetClientPath::LoadingSettings { client }),
            },
            (SetClientPath::LoadingSettings { client }, ServiceReply::Settings(stored)) =>
                match data_store::loaded_settings(stored) {
                    Err(error) => step::failing(ErrorView::DataStorage(error)),
                    Ok(_) => step::going(SetClientPath::WritingSettings { client }),
                },
            (SetClientPath::WritingSettings { client }, ServiceReply::Written(written)) =>
                match data_store::settings_error(written) {
                    Some(error) => step::failing(ErrorView::DataStorage(error)),
                    None => step::going(SetClientPath::CheckingRecord { client }),
                },
            (SetClientPath::CheckingRecord { client }, ServiceReply::Record(record)) =>
                match record {
                    Err(error) => step::failing(error@),
                    Ok(None) => step::going(SetClientPath::Showing),
                    Ok(Some(record)) => if record.state == RecoveryState::Prepared {
                        step::going(SetClientPath::Recovering { record, client })
                    } else {
                        step::going(SetClientPath::Showing)
                    },
                },
            (SetClientPath::Recovering { .. }, ServiceReply::Done(done)) => match done {
                Err(error) => step::failing(error@),
                Ok(_) => step::going(SetClientPath::Showing),
            },
            (SetClientPath::Showing, ServiceReply::Snapshot(snapshot)) => match snapshot {
                Err(error) => step::failing(error@),
                Ok(snapshot) => step::ending(snapshot),
            },
            _ => step::confused(),
        }
    }

    /// Whether the settings after the answer are these: those that were read, with the
    /// client's bundle.
    pub open spec fn settles(
        self,
        reply: ServiceReply,
        before: SettingsDocument,
        after: SettingsDocument,
    ) -> bool {
        match (self, reply) {
            (SetClientPath::LoadingSettings { client }, ServiceReply::Settings(stored)) =>
                match data_store::loaded_settings(stored) {
                    Err(_) => after == before,
                    Ok(loaded) => {
                        &&& after.version == loaded.version
                        &&& after.client_executable_path is Some
                        &&& after.client_executable_path->0@ == client.bundle@
                    },
                },
            _ => after == before,
        }
    }

    /// Takes the answer.
    pub fn resume(self, service: &mut MacosPlatformService, reply: ServiceReply) -> (step: Step<
        SetClientPath,
        AppSnapshot,
    >)
        ensures
            step@ == self.next(reply),
            self.settles(reply, old(service).settings, final(service).settings),
            *final(service) == (MacosPlatformService {
                settings: final(service).settings,
                ..*old(service)
            }),
    {
        match (self, reply) {
            (SetClientPath::Locking { path }, ServiceReply::Done(done)) => match done {
                Err(error) => step::fail(error),
                Ok(_) => step::go(SetClientPath::Validating { path }),
            },
            (SetClientPath::Validating { .. }, ServiceReply::Client(client)) => match client {
                Err(error) => step::fail(error),
                Ok(client) => step::go(SetClientPath::LoadingSettings { client }),
            },
            (SetClientPath::LoadingSettings { client }, ServiceReply::Settings(stored)) =>
                match service.store.load_settings(stored) {
                    Err(error) => step::fail(AppError::DataStorage(error)),
                    Ok(loaded) => {
                        service.settings = SettingsDocument {
                            version: loaded.version,
                            client_executable_path: Some(client.bundle().to_owned()),
                        };
                        step::go(SetClientPath::WritingSettings { client })
                    },
                },
            (SetClientPath::WritingSettings { client }, ServiceReply::Written(written)) =>
                match service.store.saved_settings(&written) {
                    Err(error) => step::fail(AppError::DataStorage(error)),
                    Ok(_) => step::go(SetClientPath::CheckingRecord { client }),
                },
            (SetClientPath::CheckingRecord { client }, ServiceReply::Record(record)) =>
                match record {
                    Err(error) => step::fail(error),
                    Ok(None) => step::go(SetClientPath::Showing),
                    Ok(Some(record)) => if record.state == RecoveryState::Prepared {
                        step::go(SetClientPath::Recovering { record, client })
                    } else {
                        step::go(SetClientPath::Showing)
                    },
                },
            (SetClientPath::Recovering { .. }, ServiceReply::Done(done)) => match done {
                Err(error) => step::fail(error),
                Ok(_) => step::go(SetClientPath::Showing),
            },
            (SetClientPath::Showing, ServiceReply::Snapshot(snapshot)) => match snapshot {
                Err(error) => step::fail(error),
                Ok(snapshot) => step::end(snapshot),
            },
            _ => step::give_up(),
        }
    }
}

/// Opening the client. Each state names the work that is to be done.
#[derive(Debug)]
pub enum OpenClient {
    /// The lock is to be taken.
    Locking,
    /// The slot is to be read.
    CheckingRecord,
    /// The client is to be found.
    ResolvingClient,
    /// It is to be found out whether the client's main process runs.
    CheckingMain { client: ValidatedClient },
    /// The client is to be started.
    Launching { client: ValidatedClient },
    /// The client has to have started.
    Starting { client: ValidatedClient },
    /// The application is to be shown.
    Showing,
}

impl OpenClient {
    /// What the answer leads to.
    pub open spec fn next(self, reply: ServiceReply) -> StepView<OpenClient, AppSnapshot> {
        match (self, reply) {
            (OpenClient::Locking, ServiceReply::Done(done)) => match done {
                Err(error) => step::failing(error@),
                Ok(_) => step::going(OpenClient::CheckingRecord),
            },
            (OpenClient::CheckingRecord, ServiceReply::Record(record)) => match record {
                Err(error) => step::failing(error@),
                Ok(None) => step::going(OpenClient::ResolvingClient),
                Ok(Some(record)) => if record.state == RecoveryState::Prepared {
                    step::failing(ErrorView::Transaction("请先选择有效的战网客户端并完成上次操作恢复"@))
                } else {
                    step::going(OpenClient::ResolvingClient)
                },
            },
            (OpenClient::ResolvingClient, ServiceReply::Client(client)) => match client {
                Err(error) => step::failing(error@),
                Ok(client) => step::going(OpenClient::CheckingMain { client }),
            },
            (OpenClient::CheckingMain { client }, ServiceReply::Flag(running)) => match running {
                Err(error) => step::failing(error@),
                Ok(true) => step::going(OpenClient::Showing),
                Ok(false) => step::going(OpenClient::Launching { client }),
            },
            (OpenClient::Launching { client }, ServiceReply::Done(done)) => match done {
                Err(error) => step::failing(error@),
                Ok(_) => step::going(OpenClient::Starting { client }),
            },
            (OpenClient::Starting { .. }, ServiceReply::Done(done)) => match done {
                Err(error) => step::failing(error@),
                Ok(_) => step::going(OpenClient::Showing),
            },
            (OpenClient::Showing, ServiceReply::Snapshot(snapshot)) => match snapshot {
                Err(error) => step::failing(error@),
                Ok(snapshot) => step::ending(snapshot),
            },
            _ => step::confused(),
        }
    }

    /// Takes the answer.
    pub fn resume(self, reply: ServiceReply) -> (step: Step<OpenClient, AppSnapshot>)
        ensures
            step@ == self.next(reply),
    {
        match (self, reply) {
            (OpenClient::Locking, ServiceReply::Done(done)) => match done {
                Err(error) => step::fail(error),
                Ok(_) => step::go(OpenClient::CheckingRecord),
            },
            (OpenClient::CheckingRecord, ServiceReply::Record(record)) => match record {
                Err(error) => step::fail(error),
                Ok(None) => step::go(OpenClient::ResolvingClient),
                Ok(Some(record)) => if record.state == RecoveryState::Prepared {
                    step::fail(AppError::Transaction("请先选择有效的战网客户端并完成上次操作恢复".to_owned()))
                } else {
                    step::go(OpenClient::ResolvingClient)
                },
            },
            (OpenClient::ResolvingClient, ServiceReply::Client(client)) => match client {
                Err(error) => step::fail(error),
                Ok(client) => step::go(OpenClient::CheckingMain { client }),
            },
            (OpenClient::CheckingMain { client }, ServiceReply::Flag(running)) => match running {
                Err(error) => step::fail(error),
                Ok(true) => step::go(OpenClient::Showing),
                Ok(false) => step::go(OpenClient::Launching { client }),
            },
            (OpenClient::Launching { client }, ServiceReply::Done(done)) => match done {
                Err(error) => step::fail(error),
                Ok(_) => step::go(OpenClient::Starting { client }),
            },
            (OpenClient::Starting { .. }, ServiceReply::Done(done)) => match done {
                Err(error) => step::fail(error),
                Ok(_) => step::go(OpenClient::Showing),
            },
            (OpenClient::Showing, ServiceReply::Snapshot(snapshot)) => match snapshot {
                Err(error) => step::fail(error),
                Ok(snapshot) => step::end(snapshot),
            },
            _ => step::give_up(),
        }
    }
}

/// Removing an account: what was saved of it is deleted, and it is hidden. Each
/// state names the work that is to be done.
#[derive(Debug)]
pub enum RemoveAccount {
    /// The lock is to be taken.
    Locking { key: AccountKey },
    /// The slot is to be read.
    CheckingIdle { key: AccountKey },
    /// What was saved of the account is to be deleted.
    Removing { key: AccountKey },
    /// The hidden accounts are to be read.
    LoadingHidden { key: AccountKey },
    /// The hidden accounts and this one are to be written.
    WritingHidden { key: AccountKey },
    /// The application is to be shown.
    Showing,
}

impl RemoveAccount {
    /// What the answer leads to.
    pub open spec fn next(self, store: DataStore, reply: ServiceReply) -> StepView<
        RemoveAccount,
        AppSnapshot,
    > {
        match (self, reply) {
            (RemoveAccount::Locking { key }, ServiceReply::Done(done)) => match done {
                Err(error) => step::failing(error@),
                Ok(_) => step::going(RemoveAccount::CheckingIdle { key }),
            },
            (RemoveAccount::CheckingIdle { key }, ServiceReply::Record(record)) =>
                match app_service::busy_error(record) {
                    Some(error) => step::failing(error),
                    None => step::going(RemoveAccount::Removing { key }),
                },
            (RemoveAccount::Removing { key }, ServiceReply::Done(done)) => match done {
                Err(error) => step::failing(error@),
                Ok(_) => step::going(RemoveAccount::LoadingHidden { key }),
            },
            (RemoveAccount::LoadingHidden { key }, ServiceReply::Hidden(stored)) =>
                match data_store::loaded_hidden_accounts(store.hidden_accounts_file(), stored) {
                    Err(error) => step::failing(ErrorView::DataStorage(error)),
                    Ok(_) => step::going(RemoveAccount::WritingHidden { key }),
                },
            (RemoveAccount::WritingHidden { key }, ServiceReply::Written(written)) =>
                match data_store::hidden_accounts_error(written) {
                    Some(error) => step::failing(ErrorView::DataStorage(error)),
                    None => step::going(RemoveAccount::Showing),
                },
            (RemoveAccount::Showing, ServiceReply::Snapshot(snapshot)) => match snapshot {
                Err(error) => step::failing(error@),
                Ok(snapshot) => step::ending(snapshot),
            },
            _ => step::confused(),
        }
    }

    /// The hidden accounts after the answer: those that are read, and then with the
    /// account that was removed.
    pub open spec fn hidden(
        self,
        store: DataStore,
        reply: ServiceReply,
        hidden: Set<AccountKeyView>,
    ) -> Set<AccountKeyView> {
        match (self, reply) {
            (RemoveAccount::LoadingHidden { .. }, ServiceReply::Hidden(stored)) =>
                match data_store::loaded_hidden_accounts(store.hidden_accounts_file(), stored) {
                    Err(_) => hidden,
                    Ok(loaded) => loaded,
                },
            (
                RemoveAccount::WritingHidden { key },
                ServiceReply::Written(WrittenDocument::Done),
            ) => hidden.insert(key@),
            _ => hidden,
        }
    }

    /// Takes the answer.
    pub fn resume(self, service: &mut MacosPlatformService, reply: ServiceReply) -> (step: Step<
        RemoveAccount,
        AppSnapshot,
    >)
        ensures
            step@ == self.next(old(service).store, reply),
            final(service).hidden_accounts@ == self.hidden(
                old(service).store,
                reply,
                old(service).hidden_accounts@,
            ),
            *final(service) == (MacosPlatformService {
                hidden_accounts: final(service).hidden_accounts,
                ..*old(service)
            }),
    {
        match (self, reply) {
            (RemoveAccount::Locking { key }, ServiceReply::Done(done)) => match done {
                Err(error) => step::fail(error),
                Ok(_) => step::go(RemoveAccount::CheckingIdle { key }),
            },
            (RemoveAccount::CheckingIdle { key }, ServiceReply::Record(record)) =>
                match app_service::ensure_idle(record) {
                    Err(error) => step::fail(error),
                    Ok(_) => step::go(RemoveAccount::Removing { key }),
                },
            (RemoveAccount::Removing { key }, ServiceReply::Done(done)) => match done {
                Err(error) => step::fail(error),
                Ok(_) => step::go(RemoveAccount::LoadingHidden { key }),
            },
            (RemoveAccount::LoadingHidden { key }, ServiceReply::Hidden(stored)) =>
                match service.store.load_hidden_accounts(&stored) {
                    Err(error) => step::fail(AppError::DataStorage(error)),
                    Ok(hidden) => {
                        service.hidden_accounts = hidden;
                        step::go(RemoveAccount::WritingHidden { key })
                    },
                },
            (RemoveAccount::WritingHidden { key }, ServiceReply::Written(written)) =>
                match service.store.saved_hidden_accounts(&written) {
                    Err(error) => step::fail(AppError::DataStorage(error)),
                    Ok(_) => {
                        service.hidden_accounts =
                        service.hidden_accounts.clone().with(HiddenAccountKey::from(&key));
                        step::go(RemoveAccount::Showing)
                    },
                },
            (RemoveAccount::Showing, ServiceReply::Snapshot(snapshot)) => match snapshot {
                Err(error) => step::fail(error),
                Ok(snapshot) => step::end(snapshot),
            },
            _ => step::give_up(),
        }
    }
}

impl MacosPlatformService {
    /// Begins to get ready.
    pub fn prepare_for_use(&self) -> (operation: PrepareForUse)
        ensures
            operation == PrepareForUse::ReadingRecord,
    {
        PrepareForUse::ReadingRecord
    }

    /// Begins to undo the operation that did not finish.
    pub fn recover_incomplete(&self, record: RecoveryRecord, client: ValidatedClient) -> (step:
        Step<RecoverIncomplete, ()>)
        ensures
            step@ == step::saying::<RecoverIncomplete, ()>(
                recovery_event(
                    "stoppingClient"@,
                    "正在恢复上次操作"@,
                    "正在确认战网客户端已退出"@,
                    22,
                ),
                RecoverIncomplete::CheckingClient { record, client },
            ),
    {
        step::say(
            report("stoppingClient", "正在恢复上次操作", "正在确认战网客户端已退出", 22),
            RecoverIncomplete::CheckingClient { record, client },
        )
    }

    /// Begins to show the application.
    pub fn snapshot(&self) -> (operation: TakeSnapshot)
        ensures
            operation == TakeSnapshot::ReadingCatalog,
    {
        TakeSnapshot::ReadingCatalog
    }

    /// Begins to detect accounts.
    pub fn detect_accounts(&self) -> (operation: DetectAccounts)
        ensures
            operation == DetectAccounts::Locking,
    {
        DetectAccounts::Locking
    }

    /// Begins to choose the client.
    pub fn set_client_path(&self, path: &str) -> (operation: SetClientPath)
        ensures
            operation matches SetClientPath::Locking { path: chosen } && chosen@ == path@,
    {
        SetClientPath::Locking { path: path.to_owned() }
    }

    /// Begins to open the client.
    pub fn open_client(&self) -> (operation: OpenClient)
        ensures
            operation == OpenClient::Locking,
    {
        OpenClient::Locking
    }

    /// Begins to remove the account.
    pub fn remove_account(&self, key: &AccountKey) -> (operation: RemoveAccount)
        ensures
            operation == (RemoveAccount::Locking { key: *key }),
    {
        RemoveAccount::Locking { key: key.clone() }
    }

    /// The record of the hidden accounts with the account.
    pub fn document_with(&self, account: &AccountKey) -> (document: HiddenAccountsDocument)
        ensures
            data_store::is_document_of(document, self.hidden_accounts@.insert(account@)),
    {
        let more = self.hidden_accounts.clone().with(HiddenAccountKey::from(account));
        self.store.save_hidden_accounts(&more)
    }
}

/// An operation that did not finish is undone only right after the client was confirmed to
/// be stopped, and after a login the client is not started again.
pub proof fn law_recovery_is_guarded(operation: RecoverIncomplete, reply: ServiceReply)
    ensures
        operation.next(reply) matches StepView::Perform {
            operation: RecoverIncomplete::RollingBack { record, client },
            ..
        } ==> operation == (RecoverIncomplete::ConfirmingStopped { record, client }) && reply
            is Done && reply->Done_0 is Ok,
        operation.next(reply) matches StepView::Perform {
            operation: RecoverIncomplete::Launching { .. },
            ..
        } ==> operation is RollingBack && operation->RollingBack_record.kind != RecoveryKind::Login
            && operation->RollingBack_record.previous_client_was_running,
{
}

/// A committed operation is never undone, and one that was not committed is never
/// finished.
pub proof fn law_committed_operations_are_finished_others_undone(
    operation: PrepareForUse,
    reply: ServiceReply,
)
    ensures
        operation matches PrepareForUse::Locking { record } ==> (operation.next(
            reply,
        ) matches StepView::Perform { operation: next, .. } ==> {
            &&& next is ResolvingClient <==> record.state != RecoveryState::Committed
            &&& next is Finalizing || next is Cleaning <==> record.state
                == RecoveryState::Committed
        }),
        operation.next(reply) matches StepView::Perform {
            operation: PrepareForUse::Recovering { record, .. },
            ..
        } ==> operation == (PrepareForUse::ResolvingClient { record }),
{
}

/// While an operation waits to be undone, the client is not started.
pub proof fn law_client_is_not_opened_over_a_prepared_operation(record: RecoveryRecord)
    requires
        record.state == RecoveryState::Prepared,
    ensures
        OpenClient::CheckingRecord.next(ServiceReply::Record(Ok(Some(record))))
            is Finished,
{
}

/// What is hidden: according to the service, and according to the record on the disk.
pub struct Hiding {
    pub service: Set<AccountKeyView>,
    pub record: Set<AccountKeyView>,
}

/// Whether what was read of the record is what it says.
pub open spec fn reads_hidden(store: DataStore, reply: ServiceReply, hiding: Hiding) -> bool {
    reply matches ServiceReply::Hidden(stored) ==> (data_store::loaded_hidden_accounts(
        store.hidden_accounts_file(),
        stored,
    ) matches Ok(loaded) ==> loaded == hiding.record)
}

/// One piece of work of removing an account.
pub struct RemoveMoment {
    pub operation: RemoveAccount,
    pub reply: ServiceReply,
    pub earlier: Hiding,
    pub later: Hiding,
}

/// Whether the moments are a run of removing the account.
pub open spec fn is_remove_run(run: Seq<RemoveMoment>, store: DataStore, key: AccountKey) -> bool {
    &&& run.len() > 0
    &&& run[0].operation == RemoveAccount::Locking { key }
    &&& forall|i: int|
        0 <= i < run.len() ==> {
            let moment = #[trigger] run[i];
            &&& reads_hidden(store, moment.reply, moment.earlier)
            &&& moment.later.service == moment.operation.hidden(
                store,
                moment.reply,
                moment.earlier.service,
            )
            &&& moment.later.record == (match (moment.operation, moment.reply) {
                (
                    RemoveAccount::WritingHidden { key },
                    ServiceReply::Written(WrittenDocument::Done),
                ) => moment.earlier.service.insert(key@),
                _ => moment.earlier.record,
            })
        }
    &&& forall|i: int|
        1 <= i < run.len() ==> {
            let before = run[i - 1];
            let moment = #[trigger] run[i];
            moment.earlier == before.later && (before.operation.next(
                store,
                before.reply,
            ) matches StepView::Perform { operation, .. } && operation == moment.operation)
        }
}

/// An account that was removed is hidden, and so are the accounts that were hidden before,
/// according to the service and to the record.
pub proof fn law_removed_account_is_hidden(
    run: Seq<RemoveMoment>,
    store: DataStore,
    key: AccountKey,
    i: int,
)
    requires
        is_remove_run(run, store, key),
        0 <= i < run.len(),
    ensures
        match run[i].operation {
            RemoveAccount::Locking { key: kept }
            | RemoveAccount::CheckingIdle { key: kept }
            | RemoveAccount::Removing { key: kept }
            | RemoveAccount::LoadingHidden { key: kept } => kept == key && run[i].earlier.record
                == run[0].earlier.record,
            RemoveAccount::WritingHidden { key: kept } => kept == key && run[i].earlier.record
                == run[0].earlier.record && run[i].earlier.service == run[0].earlier.record,
            RemoveAccount::Showing => run[i].earlier.record == run[0].earlier.record.insert(key@)
                && run[i].earlier.service == run[i].earlier.record,
        },
        run[i].operation.next(store, run[i].reply) matches StepView::Finished(Ok(_)) ==> {
            &&& run[i].later.record == run[0].earlier.record.insert(key@)
            &&& run[i].later.service == run[i].later.record
        },
    decreases i,
{
    if i > 0 {
        law_removed_account_is_hidden(run, store, key, i - 1);
        assert(run[i].earlier == run[i - 1].later);
        assert(reads_hidden(store, run[i - 1].reply, run[i - 1].earlier));
    }
    assert(reads_hidden(store, run[i].reply, run[i].earlier));
}

/// One piece of work of detecting accounts and the step that it leads to.
pub struct DetectMoment {
    pub operation: DetectAccounts,
    pub reply: ServiceReply,
    pub earlier: Hiding,
    pub later: Hiding,
    pub step: Step<DetectAccounts, AppSnapshot>,
}

/// Whether the moments are a run of detecting accounts.
pub open spec fn is_detect_run(run: Seq<DetectMoment>, store: DataStore) -> bool {
    &&& run.len() > 0
    &&& run[0].operation == DetectAccounts::Locking
    &&& forall|i: int|
        0 <= i < run.len() ==> {
            let moment = #[trigger] run[i];
            &&& reads_hidden(store, moment.reply, moment.earlier)
            &&& moment.operation.leads_to(
                store,
                moment.reply,
                moment.step,
                moment.earlier.service,
                moment.later.service,
            )
            &&& moment.later.record == (match (moment.operation, moment.reply) {
                (
                    DetectAccounts::WritingHidden { restored, .. },
                    ServiceReply::Written(WrittenDocument::Done),
                ) => restored.hidden@,
                _ => moment.earlier.record,
            })
        }
    &&& forall|i: int|
        1 <= i < run.len() ==> {
            let before = run[i - 1];
            let moment = #[trigger] run[i];
            moment.earlier == before.later && (before.step matches Step::Perform { operation, .. }
                && operation == moment.operation)
        }
}

/// What is hidden once the accounts of the catalog were detected: what was hidden before and
/// is not among them.
pub open spec fn still_hidden(hidden: Set<AccountKeyView>, catalog: AccountCatalog) -> Set<
    AccountKeyView,
> {
    hidden.difference(service_common::account_keys(catalog.accounts@).to_set())
}

/// Detecting accounts shows exactly the detected ones again: when the application is shown
/// with a catalog, the accounts that are hidden are those that were hidden before and are
/// not in it, according to the service and to the record.
pub proof fn law_detected_accounts_are_shown(run: Seq<DetectMoment>, store: DataStore, i: int)
    requires
        is_detect_run(run, store),
        0 <= i < run.len(),
    ensures
        match run[i].operation {
            DetectAccounts::WritingHidden { catalog, restored } => run[i].earlier.record
                == run[0].earlier.record && restored.hidden@ == still_hidden(
                run[0].earlier.record,
                catalog,
            ),
            DetectAccounts::Showing { found: Ok(catalog) } => {
                &&& run[i].earlier.record == still_hidden(run[0].earlier.record, catalog)
                &&& run[i].earlier.service == run[i].earlier.record
            },
            _ => run[i].earlier.record == run[0].earlier.record,
        },
    decreases i,
{
    if i > 0 {
        law_detected_accounts_are_shown(run, store, i - 1);
        let before = run[i - 1];
        assert(run[i].earlier == before.later);
        assert(reads_hidden(store, before.reply, before.earlier));
        assert(before.operation.leads_to(
            store,
            before.reply,
            before.step,
            before.earlier.service,
            before.later.service,
        ));
    }
}

/// An account that was removed and is detected afterwards is shown again: after the removal
/// has succeeded it is hidden, and when the application is then shown with a catalog that
/// holds it, it is not.
pub proof fn law_removed_account_can_come_back(
    removal: Seq<RemoveMoment>,
    detection: Seq<DetectMoment>,
    store: DataStore,
    key: AccountKey,
    catalog: AccountCatalog,
    at: int,
    i: int,
)
    requires
        is_remove_run(removal, store, key),
        removal.last().operation.next(store, removal.last().reply) matches StepView::Finished(
            Ok(_),
        ),
        is_detect_run(detection, store),
        detection[0].earlier == removal.last().later,
        0 <= i < detection.len(),
        detection[i].operation == (DetectAccounts::Showing { found: Ok(catalog) }),
        0 <= at < catalog.accounts.len(),
        catalog.accounts@[at].key@ == key@,
    ensures
        removal.last().later.service.contains(key@),
        !service_common::shown_accounts(
            catalog.accounts@,
            removal.last().later.service,
        ).contains(catalog.accounts@[at]),
        !detection[i].earlier.service.contains(key@),
        service_common::shown_accounts(
            catalog.accounts@,
            detection[i].earlier.service,
        ).contains(catalog.accounts@[at]),
{
    law_removed_account_is_hidden(removal, store, key, removal.len() - 1);
    law_detected_accounts_are_shown(detection, store, i);
    let keys = service_common::account_keys(catalog.accounts@);
    assert(keys[at] == key@);
    assert(keys.to_set().contains(key@));
    let account = catalog.accounts@[at];
    assert(catalog.accounts@.contains(account));
    service_common::lemma_shown(catalog.accounts@, removal.last().later.service, account);
    service_common::lemma_shown(catalog.accounts@, detection[i].earlier.service, account);
}

impl RecoverIncomplete {
    /// How the operation goes on.
    pub open spec fn steps() -> spec_fn(RecoverIncomplete, ServiceReply) -> StepView<
        RecoverIncomplete,
        (),
    > {
        |operation: RecoverIncomplete, reply: ServiceReply| operation.next(reply)
    }
}

/// Recovering an operation succeeds exactly where a client that runs was stopped, it was
/// confirmed to be stopped, the operation was undone, and, where it was a switch before
/// which the client was running, the client was started again. The first work that fails
/// ends it with its error.
pub proof fn law_incomplete_operation_is_undone_while_stopped(
    record: RecoveryRecord,
    client: ValidatedClient,
    run: Seq<Moment<RecoverIncomplete, ServiceReply>>,
)
    requires
        step::is_run(RecoverIncomplete::steps(), RecoverIncomplete::CheckingClient { record, client }, run),
    ensures
        step::result_of(RecoverIncomplete::steps(), run) is Ok <==> {
            let k: int = if run[0].reply.flag() == Some(true) {
                1
            } else {
                0
            };
            let r: int = if record.previous_client_was_running && record.kind == RecoveryKind::Switch {
                1
            } else {
                0
            };
            &&& run.len() == 4 + k + r
            &&& run[0].reply.flag() is Some
            &&& k == 1 ==> run[1].operation == (RecoverIncomplete::Stopping { record, client })
            &&& k == 1 ==> run[1].reply.is_done()
            &&& run[1 + k].operation == (RecoverIncomplete::ConfirmingStopped { record, client })
            &&& run[1 + k].reply.is_done()
            &&& run[2 + k].operation == (RecoverIncomplete::RollingBack { record, client })
            &&& run[2 + k].reply.is_done()
            &&& r == 1 ==> run[3 + k].operation == (RecoverIncomplete::Launching { client })
            &&& r == 1 ==> run[3 + k].reply.is_done()
            &&& run[3 + k + r].operation is Finishing
            &&& run[3 + k + r].reply is Reported
        },
        forall|i: int|
            0 <= i < run.len() && (#[trigger] run[i].reply.failure()) is Some && (match run[i].operation {
                RecoverIncomplete::CheckingClient { .. } => run[i].reply is Flag,
                RecoverIncomplete::Finishing => false,
                _ => run[i].reply is Done,
            }) ==> i == run.len() - 1 && step::result_of(RecoverIncomplete::steps(), run) == Err::<(), ErrorView>(run[i].reply.failure()->0),
        run.len() <= 6,
{
    let steps = RecoverIncomplete::steps();
    assert(step::follows(steps, run, 0));
    if run.len() > 1 {
        assert(step::follows(steps, run, 1));
    }
    if run.len() > 2 {
        assert(step::follows(steps, run, 2));
    }
    if run.len() > 3 {
        assert(step::follows(steps, run, 3));
    }
    if run.len() > 4 {
        assert(step::follows(steps, run, 4));
    }
    if run.len() > 5 {
        assert(step::follows(steps, run, 5));
    }
}

impl PrepareForUse {
    /// How the operation goes on.
    pub open spec fn steps() -> spec_fn(PrepareForUse, ServiceReply) -> StepView<
        PrepareForUse,
        (),
    > {
        |operation: PrepareForUse, reply: ServiceReply| operation.next(reply)
    }
}

/// Preparing for use succeeds exactly where the slot is empty, or where the lock was taken
/// and what the slot holds was dealt with: a committed login was finished, the slot of a
/// committed switch was emptied, and every other operation was undone, unless the client
/// cannot be found, in which case it stays. The first other work that fails ends it with its
/// error.
pub proof fn law_everything_unfinished_is_recovered_before_use(
    run: Seq<Moment<PrepareForUse, ServiceReply>>,
)
    requires
        step::is_run(PrepareForUse::steps(), PrepareForUse::ReadingRecord, run),
    ensures
        run.len() <= 4,
        step::result_of(PrepareForUse::steps(), run) is Ok <==> {
            let record = run[0].reply->Record_0->Ok_0->0;
            &&& run[0].reply is Record
            &&& run[0].reply->Record_0 is Ok
            &&& if run[0].reply->Record_0->Ok_0 is None {
                run.len() == 1
            } else {
                &&& run.len() > 2
                &&& run[1].operation == (PrepareForUse::Locking { record })
                &&& run[1].reply.is_done()
                &&& if record.state == RecoveryState::Committed && record.kind
                    == RecoveryKind::Login {
                    &&& run.len() == 3
                    &&& run[2].operation == (PrepareForUse::Finalizing { id: record.id })
                    &&& run[2].reply is Committed
                    &&& run[2].reply->Committed_0 is Ok
                } else if record.state == RecoveryState::Committed {
                    &&& run.len() == 3
                    &&& run[2].operation == (PrepareForUse::Cleaning { id: record.id })
                    &&& run[2].reply.is_done()
                } else {
                    &&& run[2].operation == (PrepareForUse::ResolvingClient { record })
                    &&& run[2].reply is Client
                    &&& if run[2].reply->Client_0 is Ok {
                        &&& run.len() == 4
                        &&& run[3].operation == (PrepareForUse::Recovering {
                            record,
                            client: run[2].reply->Client_0->Ok_0,
                        })
                        &&& run[3].reply.is_done()
                    } else {
                        run.len() == 3
                    }
                }
            }
        },
        run.last().reply.failure() is Some && (match run.last().operation {
            PrepareForUse::ReadingRecord => run.last().reply is Record,
            PrepareForUse::Finalizing { .. } => run.last().reply is Committed,
            PrepareForUse::ResolvingClient { .. } => false,
            _ => run.last().reply is Done,
        }) ==> step::result_of(PrepareForUse::steps(), run) == Err::<(), ErrorView>(
            run.last().reply.failure()->0,
        ),
{
    let steps = PrepareForUse::steps();
    assert(step::follows(steps, run, 0));
    if run.len() > 1 {
        assert(step::follows(steps, run, 1));
    }
    if run.len() > 2 {
        assert(step::follows(steps, run, 2));
    }
    if run.len() > 3 {
        assert(step::follows(steps, run, 3));
    }
}

impl TakeSnapshot {
    /// How the operation goes on.
    pub open spec fn steps() -> spec_fn(TakeSnapshot, ServiceReply) -> StepView<
        TakeSnapshot,
        AppSnapshot,
    > {
        |operation: TakeSnapshot, reply: ServiceReply| operation.next(reply)
    }
}

/// Showing the application succeeds exactly where it was shown with what reading the
/// client's database came to, be it an error.
pub proof fn law_application_is_shown_with_what_was_read(
    run: Seq<Moment<TakeSnapshot, ServiceReply>>,
)
    requires
        step::is_run(TakeSnapshot::steps(), TakeSnapshot::ReadingCatalog, run),
    ensures
        step::result_of(TakeSnapshot::steps(), run) is Ok <==> {
            &&& run.len() == 2
            &&& run[0].reply is Catalog
            &&& run[1].operation == (TakeSnapshot::Showing { catalog: run[0].reply->Catalog_0 })
            &&& run[1].reply is Snapshot
            &&& run[1].reply->Snapshot_0 is Ok
        },
        step::result_of(TakeSnapshot::steps(), run) is Ok ==> {
            step::result_of(TakeSnapshot::steps(), run) == Ok::<AppSnapshot, ErrorView>(run.last().reply->Snapshot_0->Ok_0@)
        },
        run.len() <= 2,
{
    let steps = TakeSnapshot::steps();
    assert(step::follows(steps, run, 0));
    if run.len() > 1 {
        assert(step::follows(steps, run, 1));
    }
}

impl SetClientPath {
    /// How the operation goes on.
    pub open spec fn steps() -> spec_fn(SetClientPath, ServiceReply) -> StepView<
        SetClientPath,
        AppSnapshot,
    > {
        |operation: SetClientPath, reply: ServiceReply| operation.next(reply)
    }
}

/// Choosing the client succeeds exactly where the lock was taken, the path that was given
/// was checked, the settings were read or were not there, they were written, the slot was
/// read, a prepared operation in it was undone with the client that was chosen, and the
/// application was shown. The settings that are written name the bundle of the client that
/// the check gave.
pub proof fn law_chosen_client_is_checked_and_recorded(
    path: String,
    before: SettingsDocument,
    after: SettingsDocument,
    run: Seq<Moment<SetClientPath, ServiceReply>>,
)
    requires
        step::is_run(SetClientPath::steps(), SetClientPath::Locking { path }, run),
    ensures
        step::result_of(SetClientPath::steps(), run) is Ok <==> {
            let p: int = if run[4].reply is Record && run[4].reply->Record_0 is Ok && run[4].reply->Record_0->Ok_0 is Some
                && run[4].reply->Record_0->Ok_0->0.state == RecoveryState::Prepared {
                1
            } else {
                0
            };
            let client = run[1].reply->Client_0->Ok_0;
            &&& run.len() == 6 + p
            &&& run[0].reply.is_done()
            &&& run[1].operation == (SetClientPath::Validating { path })
            &&& run[1].reply is Client
            &&& run[1].reply->Client_0 is Ok
            &&& run[2].operation == (SetClientPath::LoadingSettings { client })
            &&& run[2].reply is Settings
            &&& run[2].reply->Settings_0 is Missing || (run[2].reply->Settings_0 is Present
                && run[2].reply->Settings_0->Present_0.version == data_store::SETTINGS_VERSION)
            &&& run[3].operation == (SetClientPath::WritingSettings { client })
            &&& run[3].reply == ServiceReply::Written(WrittenDocument::Done)
            &&& run[4].operation == (SetClientPath::CheckingRecord { client })
            &&& run[4].reply is Record
            &&& run[4].reply->Record_0 is Ok
            &&& p == 1 ==> run[5].operation == (SetClientPath::Recovering { record: run[4].reply->Record_0->Ok_0->0, client })
            &&& p == 1 ==> run[5].reply.is_done()
            &&& run[5 + p].operation is Showing
            &&& run[5 + p].reply is Snapshot
            &&& run[5 + p].reply->Snapshot_0 is Ok
        },
        step::result_of(SetClientPath::steps(), run) is Ok ==> {
            let p: int = if run[4].reply is Record && run[4].reply->Record_0 is Ok && run[4].reply->Record_0->Ok_0 is Some
                && run[4].reply->Record_0->Ok_0->0.state == RecoveryState::Prepared {
                1
            } else {
                0
            };
            let client = run[1].reply->Client_0->Ok_0;
            step::result_of(SetClientPath::steps(), run) == Ok::<AppSnapshot, ErrorView>(run.last().reply->Snapshot_0->Ok_0@)
        },
        step::result_of(SetClientPath::steps(), run) is Ok && run[2].operation.settles(run[2].reply, before, after) ==> {
            &&& after.version == data_store::SETTINGS_VERSION
            &&& after.client_executable_path is Some
            &&& after.client_executable_path->0@ == run[1].reply->Client_0->Ok_0.bundle@
        },
        forall|i: int|
            0 <= i < run.len() && i != 2 && #[trigger] run[i].operation.settles(
                run[i].reply,
                before,
                after,
            ) ==> after == before,
        forall|i: int|
            0 <= i < run.len() && (#[trigger] run[i].reply.failure()) is Some && (match run[i].operation {
                SetClientPath::Locking { .. } | SetClientPath::Recovering { .. } => run[i].reply is Done,
                SetClientPath::Validating { .. } => run[i].reply is Client,
                SetClientPath::CheckingRecord { .. } => run[i].reply is Record,
                SetClientPath::Showing => run[i].reply is Snapshot,
                _ => false,
            }) ==> i == run.len() - 1 && step::result_of(SetClientPath::steps(), run) == Err::<AppSnapshot, ErrorView>(run[i].reply.failure()->0),
        run.len() <= 7,
{
    let steps = SetClientPath::steps();
    assert(step::follows(steps, run, 0));
    if run.len() > 1 {
        assert(step::follows(steps, run, 1));
    }
    if run.len() > 2 {
        assert(step::follows(steps, run, 2));
    }
    if run.len() > 3 {
        assert(step::follows(steps, run, 3));
    }
    if run.len() > 4 {
        assert(step::follows(steps, run, 4));
    }
    if run.len() > 5 {
        assert(step::follows(steps, run, 5));
    }
    if run.len() > 6 {
        assert(step::follows(steps, run, 6));
    }
}

impl OpenClient {
    /// How the operation goes on.
    pub open spec fn steps() -> spec_fn(OpenClient, ServiceReply) -> StepView<
        OpenClient,
        AppSnapshot,
    > {
        |operation: OpenClient, reply: ServiceReply| operation.next(reply)
    }
}

/// Opening the client succeeds exactly where the lock was taken, no prepared operation is
/// in the slot, the client was found, one that does not run was started and came up, and
/// the application was shown. One that runs is not started again. The first work that
/// fails ends it with its error.
pub proof fn law_client_is_opened_unless_it_runs(
    run: Seq<Moment<OpenClient, ServiceReply>>,
)
    requires
        step::is_run(OpenClient::steps(), OpenClient::Locking, run),
    ensures
        step::result_of(OpenClient::steps(), run) is Ok <==> {
            let n: int = if run[3].reply.flag() == Some(false) {
                1
            } else {
                0
            };
            let client = run[2].reply->Client_0->Ok_0;
            &&& run.len() == 5 + n + n
            &&& run[0].reply.is_done()
            &&& run[1].operation is CheckingRecord
            &&& run[1].reply is Record
            &&& run[1].reply->Record_0 is Ok
            &&& run[1].reply->Record_0->Ok_0 is Some ==> run[1].reply->Record_0->Ok_0->0.state
                != RecoveryState::Prepared
            &&& run[2].operation is ResolvingClient
            &&& run[2].reply is Client
            &&& run[2].reply->Client_0 is Ok
            &&& run[3].operation == (OpenClient::CheckingMain { client })
            &&& run[3].reply.flag() is Some
            &&& n == 1 ==> run[4].operation == (OpenClient::Launching { client })
            &&& n == 1 ==> run[4].reply.is_done()
            &&& n == 1 ==> run[4 + n].operation == (OpenClient::Starting { client })
            &&& n == 1 ==> run[4 + n].reply.is_done()
            &&& run[4 + n + n].operation is Showing
            &&& run[4 + n + n].reply is Snapshot
            &&& run[4 + n + n].reply->Snapshot_0 is Ok
        },
        step::result_of(OpenClient::steps(), run) is Ok ==> {
            let n: int = if run[3].reply.flag() == Some(false) {
                1
            } else {
                0
            };
            let client = run[2].reply->Client_0->Ok_0;
            step::result_of(OpenClient::steps(), run) == Ok::<AppSnapshot, ErrorView>(run.last().reply->Snapshot_0->Ok_0@)
        },
        forall|i: int|
            0 <= i < run.len() && (#[trigger] run[i].reply.failure()) is Some && (match run[i].operation {
                OpenClient::CheckingRecord => run[i].reply is Record,
                OpenClient::CheckingMain { .. } => run[i].reply is Flag,
                OpenClient::ResolvingClient => run[i].reply is Client,
                OpenClient::Showing => run[i].reply is Snapshot,
                _ => run[i].reply is Done,
            }) ==> i == run.len() - 1 && step::result_of(OpenClient::steps(), run) == Err::<AppSnapshot, ErrorView>(run[i].reply.failure()->0),
        run.len() <= 7,
{
    let steps = OpenClient::steps();
    assert(step::follows(steps, run, 0));
    if run.len() > 1 {
        assert(step::follows(steps, run, 1));
    }
    if run.len() > 2 {
        assert(step::follows(steps, run, 2));
    }
    if run.len() > 3 {
        assert(step::follows(steps, run, 3));
    }
    if run.len() > 4 {
        assert(step::follows(steps, run, 4));
    }
    if run.len() > 5 {
        assert(step::follows(steps, run, 5));
    }
    if run.len() > 6 {
        assert(step::follows(steps, run, 6));
    }
}

impl RemoveAccount {
    /// How the operation goes on.
    pub open spec fn steps(store: DataStore) -> spec_fn(RemoveAccount, ServiceReply) -> StepView<
        RemoveAccount,
        AppSnapshot,
    > {
        |operation: RemoveAccount, reply: ServiceReply| operation.next(store, reply)
    }
}

/// Removing an account succeeds exactly where the lock was taken, the slot was empty, what
/// was saved of this account was deleted, the hidden accounts were read or were not there,
/// they were written, and the application was shown. The first work that fails ends it
/// with its error.
pub proof fn law_account_is_deleted_and_then_hidden(
    store: DataStore,
    key: AccountKey,
    run: Seq<Moment<RemoveAccount, ServiceReply>>,
)
    requires
        step::is_run(RemoveAccount::steps(store), RemoveAccount::Locking { key }, run),
    ensures
        step::result_of(RemoveAccount::steps(store), run) is Ok <==> {
            &&& run.len() == 6
            &&& run[0].reply.is_done()
            &&& run[1].operation == (RemoveAccount::CheckingIdle { key })
            &&& run[1].reply == ServiceReply::Record(Ok(None))
            &&& run[2].operation == (RemoveAccount::Removing { key })
            &&& run[2].reply.is_done()
            &&& run[3].operation == (RemoveAccount::LoadingHidden { key })
            &&& run[3].reply is Hidden
            &&& run[3].reply->Hidden_0 is Missing || (run[3].reply->Hidden_0 is Present
                && run[3].reply->Hidden_0->Present_0.version == data_store::HIDDEN_ACCOUNTS_VERSION)
            &&& run[4].operation == (RemoveAccount::WritingHidden { key })
            &&& run[4].reply == ServiceReply::Written(WrittenDocument::Done)
            &&& run[5].operation is Showing
            &&& run[5].reply is Snapshot
            &&& run[5].reply->Snapshot_0 is Ok
        },
        step::result_of(RemoveAccount::steps(store), run) is Ok ==> {
            step::result_of(RemoveAccount::steps(store), run) == Ok::<AppSnapshot, ErrorView>(run.last().reply->Snapshot_0->Ok_0@)
        },
        forall|i: int|
            0 <= i < run.len() && (#[trigger] run[i].reply.failure()) is Some && (match run[i].operation {
                RemoveAccount::Locking { .. } | RemoveAccount::Removing { .. } => run[i].reply is Done,
                RemoveAccount::CheckingIdle { .. } => run[i].reply is Record,
                RemoveAccount::Showing => run[i].reply is Snapshot,
                _ => false,
            }) ==> i == run.len() - 1 && step::result_of(RemoveAccount::steps(store), run) == Err::<AppSnapshot, ErrorView>(run[i].reply.failure()->0),
        run.len() <= 6,
{
    let steps = RemoveAccount::steps(store);
    assert(step::follows(steps, run, 0));
    if run.len() > 1 {
        assert(step::follows(steps, run, 1));
    }
    if run.len() > 2 {
        assert(step::follows(steps, run, 2));
    }
    if run.len() > 3 {
        assert(step::follows(steps, run, 3));
    }
    if run.len() > 4 {
        assert(step::follows(steps, run, 4));
    }
    if run.len() > 5 {
        assert(step::follows(steps, run, 5));
    }
}

/// Detecting accounts succeeds exactly where the lock was taken, the client was found, its
/// database was read or was not there, and the application was shown; where the database was
/// read, the hidden accounts were read or were not there, and where one of them was detected
/// the record without the detected ones was written first. The application is shown with
/// what the database said.
pub proof fn law_accounts_are_detected_with_all_work(run: Seq<DetectMoment>, store: DataStore)
    requires
        is_detect_run(run, store),
        run.last().step is Finished,
    ensures
        run.last().step->Finished_0 is Ok <==> {
            let read = run[2].reply.catalog() is Some;
            let n: int = if !read {
                0
            } else if run[4].operation is WritingHidden {
                2
            } else {
                1
            };
            &&& run.len() == 4 + n
            &&& run[0].reply.is_done()
            &&& run[1].operation is ResolvingClient
            &&& run[1].reply is Client
            &&& run[1].reply->Client_0 is Ok
            &&& run[2].operation is ReadingCatalog
            &&& !read ==> run[2].reply == ServiceReply::Catalog(
                Err(AppError::AccountDatabaseMissing),
            )
            &&& read ==> run[3].operation == (DetectAccounts::LoadingHidden {
                catalog: run[2].reply.catalog()->0,
            })
            &&& read ==> run[3].reply is Hidden
            &&& read ==> run[3].reply->Hidden_0 is Missing || (run[3].reply->Hidden_0 is Present
                && run[3].reply->Hidden_0->Present_0.version
                == data_store::HIDDEN_ACCOUNTS_VERSION)
            &&& n == 2 ==> run[4].reply == ServiceReply::Written(WrittenDocument::Done)
            &&& run.last().operation == (DetectAccounts::Showing { found: run[2].reply->Catalog_0 })
            &&& run.last().reply is Snapshot
            &&& run.last().reply->Snapshot_0 is Ok
        },
{
    assert(run[0].operation is Locking);
    if run.len() > 1 {
        assert(run[1].operation == run[0].step->operation);
    }
    if run.len() > 2 {
        assert(run[2].operation == run[1].step->operation);
    }
    if run.len() > 3 {
        assert(run[3].operation == run[2].step->operation);
    }
    if run.len() > 4 {
        assert(run[4].operation == run[3].step->operation);
    }
    if run.len() > 5 {
        assert(run[5].operation == run[4].step->operation);
    }
    if run.len() > 6 {
        assert(run[6].operation == run[5].step->operation);
    }
}

} // verus!
