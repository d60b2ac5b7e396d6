//! The rules of the macOS side.

use bnetswitchlite::contracts::AccountCatalog;
use bnetswitchlite::contracts::AccountKey;
use bnetswitchlite::contracts::LoginIntent;
use bnetswitchlite::contracts::LoginRegion;
use bnetswitchlite::contracts::SnapshotStatus;
use bnetswitchlite::data_store::DataStore;
use bnetswitchlite::data_store::HiddenAccounts;
use bnetswitchlite::data_store::SettingsDocument;
use bnetswitchlite::error::AppError;
use bnetswitchlite::platform::macos::app_service;
use bnetswitchlite::platform::macos::app_service::ApplyPayload;
use bnetswitchlite::platform::macos::app_service::HealthSample;
use bnetswitchlite::platform::macos::app_service::MacosPlatformService;
use bnetswitchlite::platform::macos::app_service::RollbackAfterFailure;
use bnetswitchlite::platform::macos::app_service::ServiceReply;
use bnetswitchlite::platform::macos::app_service::SettleReply;
use bnetswitchlite::platform::macos::app_service::ShownClient;
use bnetswitchlite::platform::macos::app_service::SnapshotFacts;
use bnetswitchlite::platform::macos::app_service::StartFacts;
use bnetswitchlite::platform::macos::backup_exclusion::set_and_verify;
use bnetswitchlite::platform::macos::completing::CompleteAfterLock;
use bnetswitchlite::platform::macos::lifecycle;
use bnetswitchlite::platform::macos::lifecycle::LaunchAction;
use bnetswitchlite::platform::macos::logins::StartLogin;
use bnetswitchlite::platform::macos::managing::OpenClient;
use bnetswitchlite::platform::macos::operation_lock;
use bnetswitchlite::platform::macos::operation_lock::AcquireGuard;
use bnetswitchlite::platform::macos::operation_lock::LockFacts;
use bnetswitchlite::platform::macos::operation_lock::LockReply;
use bnetswitchlite::platform::macos::paths;
use bnetswitchlite::platform::macos::paths::BattleNetPaths;
use bnetswitchlite::platform::macos::preferences::non_authentication_equal;
use bnetswitchlite::platform::macos::preferences::PreferenceEntry;
use bnetswitchlite::platform::macos::preferences::PreferenceKey;
use bnetswitchlite::platform::macos::preferences::PreferenceSnapshot;
use bnetswitchlite::platform::macos::preferences::check_dictionaries;
use bnetswitchlite::platform::macos::preferences::same_in_both;
use bnetswitchlite::platform::macos::preferences::ReadPreferences;
use bnetswitchlite::platform::macos::process;
use bnetswitchlite::platform::macos::process::is_candidate_process_name;
use bnetswitchlite::platform::macos::process::HelperFacts;
use bnetswitchlite::platform::macos::process::ProcessFacts;
use bnetswitchlite::platform::macos::process::ValidatedClient;
use bnetswitchlite::platform::macos::recovery::CleanupOutcome;
use bnetswitchlite::platform::macos::recovery::RecoveryContext;
use bnetswitchlite::platform::macos::recovery::RecoveryEnvelope;
use bnetswitchlite::platform::macos::recovery::RecoveryKind;
use bnetswitchlite::platform::macos::recovery::RecoveryRecord;
use bnetswitchlite::platform::macos::recovery::RecoveryState;
use bnetswitchlite::platform::macos::secure_fs;
use bnetswitchlite::platform::macos::secure_fs::EntryFacts;
use bnetswitchlite::platform::macos::secure_fs::UserFile;
use bnetswitchlite::platform::macos::secure_snapshot::apply_config;
use bnetswitchlite::platform::macos::secure_snapshot::capture_current;
use bnetswitchlite::platform::macos::secure_snapshot::ApplyConfig;
use bnetswitchlite::platform::macos::secure_snapshot::ConfigReply;
use bnetswitchlite::platform::macos::secure_snapshot::SecurePayload;
use bnetswitchlite::platform::macos::switching::SwitchAccount;
use bnetswitchlite::platform::macos::unix_path;
use bnetswitchlite::step::Step;

#[test]
fn only_battle_net_process_names_are_fail_closed_candidates() {
    for name in [
        b"Battle.net".as_slice(),
        b"Agent".as_slice(),
        b"Battle.net Helper".as_slice(),
        b"Battle.net Helper (Renderer)".as_slice(),
    ] {
        assert!(is_candidate_process_name(name));
    }
    for name in [b"Finder".as_slice(), b"Some Helper".as_slice(), b"UpdateAgent".as_slice()] {
        assert!(!is_candidate_process_name(name));
    }
}

#[test]
fn process_login_region_is_passed_as_one_argument() {
    assert_eq!(lifecycle::login_region_argument(LoginRegion::Europe), "--setregion=EU");
    assert_eq!(lifecycle::login_region_argument(LoginRegion::Americas), "--setregion=US");
}

#[test]
fn client_is_launched_once() {
    assert!(matches!(lifecycle::launch(true), LaunchAction::Nothing));
    assert!(matches!(lifecycle::launch(false), LaunchAction::Open));
    assert!(matches!(
        lifecycle::launch_for_login(false, Some(LoginRegion::China)),
        LaunchAction::OpenWith(arguments) if arguments == vec!["--setregion=CN"]
    ));
    assert!(lifecycle::launched(true).is_ok());
    assert!(matches!(lifecycle::launched(false), Err(AppError::ClientLaunch(_))));
}

fn plist_dictionary(entries: &[(&str, &str)]) -> Vec<u8> {
    let mut dictionary = plist::Dictionary::new();
    for (key, value) in entries {
        dictionary.insert((*key).into(), plist::Value::String((*value).into()));
    }
    let mut bytes = Vec::new();
    plist::to_writer_binary(&mut bytes, &plist::Value::Dictionary(dictionary)).unwrap();
    bytes
}

/// What is read of preferences; a value stands for its text.
fn dictionary(entries: &[(&str, &str)]) -> ReadPreferences {
    match plist::from_bytes::<plist::Value>(&plist_dictionary(entries)) {
        Err(_) => ReadPreferences::Invalid,
        Ok(plist::Value::Dictionary(dictionary)) => ReadPreferences::Dictionary(
            dictionary
                .iter()
                .map(|(key, value)| PreferenceEntry {
                    key: PreferenceKey::Text(key.clone()),
                    value: value
                        .as_string()
                        .unwrap_or_default()
                        .bytes()
                        .fold(7, |sum: u64, byte| sum * 257 + u64::from(byte)),
                })
                .collect(),
        ),
        Ok(_) => ReadPreferences::NotDictionary,
    }
}

#[test]
fn authentication_entries_are_ignored_but_other_preferences_must_match() {
    let before = dictionary(&[("UnifiedAuth/one", "secret"), ("Locale", "zhCN")]);
    let after = dictionary(&[("Locale", "zhCN")]);
    assert!(non_authentication_equal(&before, &after).unwrap());

    let changed = dictionary(&[("Locale", "enUS")]);
    assert!(!non_authentication_equal(&before, &changed).unwrap());
    assert!(!non_authentication_equal(&after, &dictionary(&[])).unwrap());
    assert!(non_authentication_equal(&after, &ReadPreferences::Invalid).is_err());
    assert!(PreferenceSnapshot::has_authentication_keys(&before, &after).unwrap());
    assert!(PreferenceSnapshot::has_authentication_keys(&after, &before).unwrap());
    assert!(!PreferenceSnapshot::has_authentication_keys(&after, &changed).unwrap());
    assert!(
        PreferenceSnapshot::has_authentication_keys(&ReadPreferences::NotDictionary, &after)
            .is_err()
    );
}

fn client() -> ValidatedClient {
    ValidatedClient {
        bundle: "/Applications/Battle.net.app".into(),
        main_executable: "/Applications/Battle.net.app/Contents/MacOS/Battle.net".into(),
        agent_root: "/Users/Shared/Battle.net/Agent".into(),
        agent_bundles: vec!["/Users/Shared/Battle.net/Agent/Agent.9/Agent.app".into()],
    }
}

fn process_facts(pid: i32, name: &str, path: &str) -> ProcessFacts {
    ProcessFacts {
        pid,
        name: Some(name.as_bytes().to_vec()),
        path: Some(path.into()),
        gone: false,
        canonical: Ok(path.into()),
        helper: HelperFacts {
            executable: None,
            versions: None,
            info: None,
            bundle: Err(AppError::InvalidClientExecutable),
        },
    }
}

#[test]
fn processes_of_the_client_are_found_and_strangers_stop_the_operation() {
    let main = "/Applications/Battle.net.app/Contents/MacOS/Battle.net";
    let found = process::related_processes(
        &client(),
        &vec![],
        &vec![
            process_facts(1, "Finder", "/System/Finder"),
            process_facts(2, "Battle.net", main),
        ],
    )
    .unwrap();
    assert_eq!(found.len(), 1);
    assert_eq!(found[0].pid, 2);
    assert!(process::is_main_client_running(&client(), &found));
    assert!(process::is_client_running(&client(), &found));
    assert!(process::related_processes(
        &client(),
        &vec![],
        &vec![process_facts(3, "Battle.net", "/tmp/Battle.net")],
    )
    .is_err());
    let mut gone = process_facts(4, "Battle.net", "/tmp/Battle.net");
    gone.name = None;
    gone.path = None;
    gone.gone = true;
    assert!(process::related_processes(&client(), &vec![], &vec![gone]).unwrap().is_empty());
    assert!(!process::is_main_client_running(&client(), &vec![]));
}

#[test]
fn paths_are_told_apart_by_their_parts() {
    assert!(unix_path::starts_with("/a/b/c", "/a/b"));
    assert!(!unix_path::starts_with("/a/bc", "/a/b"));
    assert!(unix_path::same_path("/a//b/", "/a/b"));
    assert!(unix_path::is_absolute("/a"));
    assert!(!unix_path::is_absolute("a"));
    assert_eq!(unix_path::parts_of("/a/b"), vec!["a", "b"]);
    assert!(unix_path::has_extension("Battle.net.app", "app"));
}

#[test]
fn signature_requirement_names_the_team() {
    assert_eq!(
        paths::signature_requirement(Some("ABCDE12345"), Some("net.battle.app")).unwrap(),
        "anchor apple generic and identifier \"net.battle.app\" and certificate leaf[subject.OU] = \"ABCDE12345\""
    );
    assert!(paths::signature_requirement(None, None).is_err());
    assert!(paths::signature_requirement(Some("short"), None).is_err());
    let found = BattleNetPaths::discover(Some("/Users/me/Library/Application Support".into())).unwrap();
    assert_eq!(
        found.config,
        "/Users/me/Library/Application Support/Battle.net/Battle.net.config"
    );
    assert!(BattleNetPaths::discover(None).is_err());
}

fn entry() -> EntryFacts {
    EntryFacts {
        is_file: true,
        is_directory: false,
        links: 1,
        owner: 501,
        current_user: 501,
        mode: 0o100600,
    }
}

#[test]
fn private_files_are_checked() {
    assert_eq!(secure_fs::permission_mode(0o100644), 0o644);
    assert!(secure_fs::validate_file_handle("/f", Ok(entry()), Some(0o600)).is_ok());
    assert!(secure_fs::validate_file_handle("/f", Err("x".into()), None).is_err());
    let refused = [
        EntryFacts { owner: 0, ..entry() },
        EntryFacts { links: 2, ..entry() },
        EntryFacts { is_file: false, ..entry() },
        EntryFacts { mode: 0o100644, ..entry() },
    ];
    for facts in refused {
        assert!(secure_fs::validate_file_handle("/f", Ok(facts), Some(0o600)).is_err());
    }
    assert!(secure_fs::validate_owner("/f", &entry()).is_ok());
    assert!(set_and_verify(true, Ok(Some(true))).is_ok());
    assert!(set_and_verify(false, Ok(Some(true))).is_err());
    assert!(set_and_verify(true, Ok(Some(false))).is_err());
    assert!(set_and_verify(true, Ok(None)).is_err());
    assert!(set_and_verify(true, Err(())).is_err());
}

fn take_lock(last: LockReply, facts: LockFacts) -> Result<(), AppError> {
    let mut operation = operation_lock::acquire("/data");
    let mut last = Some(last);
    loop {
        let reply = match &operation {
            AcquireGuard::Opening { .. } | AcquireGuard::Narrowing { .. } => {
                LockReply::Done(Ok(()))
            }
            AcquireGuard::CheckingIdentity { .. } | AcquireGuard::CheckingHandle { .. } => {
                LockReply::Facts(Ok(facts))
            }
            AcquireGuard::Trying => last.take().unwrap_or(LockReply::Taken),
        };
        match operation.resume(reply, 1000) {
            Step::Perform { operation: next, .. } => operation = next,
            Step::Finished(result) => return result,
        }
    }
}

#[test]
fn lock_is_waited_for_and_then_busy() {
    let facts =
        LockFacts { is_file: true, owner: 501, current_user: 501, links: 1, mode: 0o100600 };
    assert!(take_lock(LockReply::Taken, facts).is_ok());
    assert!(take_lock(LockReply::Busy { elapsed_ms: 999 }, facts).is_ok());
    assert!(matches!(
        take_lock(LockReply::Busy { elapsed_ms: 1000 }, facts),
        Err(AppError::OperationBusy)
    ));
    assert!(take_lock(LockReply::Failed("x".into()), facts).is_err());
    assert!(take_lock(LockReply::Taken, LockFacts { links: 2, ..facts }).is_err());
    assert!(take_lock(LockReply::Taken, LockFacts { owner: 0, ..facts }).is_err());
}

fn preferences() -> PreferenceSnapshot {
    PreferenceSnapshot {
        any_host: plist_dictionary(&[("UnifiedAuth/test", "fixture")]),
        current_host: plist_dictionary(&[]),
    }
}

fn captured(account: Option<AccountKey>) -> SecurePayload {
    capture_current(
        Some(UserFile { bytes: b"config".to_vec(), mode: 0o644 }),
        account,
        5,
        preferences(),
    )
}

#[test]
fn captured_configuration_can_be_put_back() {
    let payload = captured(None);
    assert!(payload.config.present);
    assert_eq!(payload.created_at, 5);
    let Step::Perform { operation, .. } = apply_config(payload.config) else {
        panic!("a captured configuration was refused");
    };
    assert!(matches!(operation, ApplyConfig::Writing { .. }));
    let Step::Perform { operation, .. } = operation.resume(ConfigReply::Done(Ok(()))) else {
        panic!("the configuration is not read again");
    };
    assert!(matches!(
        operation.resume(ConfigReply::File(Ok(Some(UserFile {
            bytes: b"config".to_vec(),
            mode: 0o644,
        })))),
        Step::Finished(Ok(()))
    ));
    let mut changed = captured(None).config;
    changed.bytes.push(1);
    assert!(matches!(apply_config(changed), Step::Finished(Err(_))));
}

fn key() -> AccountKey {
    AccountKey { environment: "eu.actual.battle.net".into(), account_id: "1:2".into() }
}

fn record(kind: RecoveryKind, state: RecoveryState) -> RecoveryRecord {
    RecoveryRecord {
        version: 1,
        id: "6a0ddc3f-3e1e-4c4b-9d0e-0b7f9c0c8a11".into(),
        kind,
        state,
        before_snapshot_id: "6a0ddc3f-3e1e-4c4b-9d0e-0b7f9c0c8a12".into(),
        candidate_snapshot_id: None,
        previous_client_was_running: true,
        created_at: 1,
    }
}

fn start_facts(record: Option<RecoveryRecord>) -> StartFacts {
    StartFacts {
        store: Ok(DataStore::open_for_macos("/Users/me/Library/Application Support")),
        hidden_accounts: Ok(HiddenAccounts::new()),
        settings: Ok(SettingsDocument { version: 1, client_executable_path: None }),
        paths: BattleNetPaths::discover(Some("/Users/me/Library/Application Support".into())),
        snapshots: Ok(()),
        recovery: Ok(()),
        record: Ok(record),
    }
}

fn service() -> MacosPlatformService {
    MacosPlatformService::new(start_facts(None)).unwrap()
}

#[test]
fn unfinished_operations_are_announced() {
    assert!(service().startup_notice.is_none());
    for (kind, state, announced) in [
        (RecoveryKind::Switch, RecoveryState::Prepared, true),
        (RecoveryKind::Login, RecoveryState::AwaitingUser, true),
        (RecoveryKind::Login, RecoveryState::Committed, false),
    ] {
        let service =
            MacosPlatformService::new(start_facts(Some(record(kind, state)))).unwrap();
        assert_eq!(service.startup_notice.is_some(), announced);
    }
    let broken =
        StartFacts { recovery: Err(AppError::StateUnavailable), ..start_facts(None) };
    assert!(matches!(MacosPlatformService::new(broken), Err(AppError::StateUnavailable)));
}

fn shown(service: &MacosPlatformService) -> bnetswitchlite::contracts::AppSnapshot {
    service
        .snapshot_from_catalog(
            Err(AppError::AccountDatabaseMissing),
            SnapshotFacts {
                version: "1.0.0".into(),
                client: Ok(Some(ShownClient { bundle: "/A.app".into(), running: Ok(true) })),
                login_session: Ok(None),
                now: 3,
            },
            |_: &AccountKey| (SnapshotStatus::Missing, None, None),
        )
        .unwrap()
}

#[test]
fn application_is_shown() {
    let snapshot = shown(&service());
    assert_eq!(snapshot.platform, "macos");
    assert_eq!(snapshot.client.executable_path, "/A.app");
    assert!(snapshot.client.detected_automatically);
    assert_eq!(snapshot.notice.as_deref(), Some("登录战网后点击刷新账号。"));
    assert_eq!(snapshot.updated_at, 3);
}

/// Gives the answers in turn, and says what was asked and reported.
fn switch_with(replies: Vec<ServiceReply>, service: &mut MacosPlatformService) -> (Vec<u8>, String) {
    let mut operation = service.switch_account(&key());
    let mut progress = Vec::new();
    for reply in replies {
        match operation.resume(service, reply) {
            Step::Perform { operation: next, report } => {
                progress.extend(report.map(|event| event.progress));
                operation = next;
            }
            Step::Finished(Ok(snapshot)) => return (progress, snapshot.platform),
            Step::Finished(Err(error)) => return (progress, error.message()),
        }
    }
    match operation {
        SwitchAccount::Undoing { error, .. } => (progress, format!("undo {}", error.message())),
        other => panic!("not finished: {other:?}"),
    }
}

fn switch_replies() -> Vec<ServiceReply> {
    vec![
        ServiceReply::Done(Ok(())),
        ServiceReply::Record(Ok(None)),
        ServiceReply::Payload(Ok(captured(Some(key())))),
        ServiceReply::Client(Ok(client())),
        ServiceReply::Flag(Ok(true)),
        ServiceReply::Flag(Ok(true)),
        ServiceReply::Done(Ok(())),
        ServiceReply::Done(Ok(())),
        ServiceReply::Done(Ok(())),
        ServiceReply::Payload(Ok(captured(None))),
        ServiceReply::Recorded(Ok(record(RecoveryKind::Switch, RecoveryState::Prepared))),
        ServiceReply::Done(Ok(())),
        ServiceReply::Done(Ok(())),
        ServiceReply::Done(Ok(())),
        ServiceReply::Done(Ok(())),
    ]
}

#[test]
fn switch_is_carried_out_and_reported() {
    let mut service = service();
    let mut replies = switch_replies();
    replies.push(ServiceReply::Committed(Ok(CleanupOutcome::Pending("busy".into()))));
    replies.push(ServiceReply::Snapshot(Ok(shown(&service))));
    let (progress, end) = switch_with(replies, &mut service);
    assert_eq!(progress, vec![8, 56, 76, 88, 100]);
    assert_eq!(end, "macos");
    assert_eq!(
        service.startup_notice.as_deref(),
        Some("账号已切换，临时恢复文件将在下次启动时继续清理：busy")
    );
}

#[test]
fn failed_switch_is_undone() {
    let mut service = service();
    for at in 11..15 {
        let mut replies = switch_replies();
        replies.truncate(at);
        replies.push(ServiceReply::Done(Err(AppError::Message("失败".into()))));
        let (_, end) = switch_with(replies, &mut service);
        assert_eq!(end, "undo 失败");
    }
    let mut replies = switch_replies();
    replies.truncate(1);
    replies.push(ServiceReply::Record(Ok(Some(record(
        RecoveryKind::Login,
        RecoveryState::AwaitingUser,
    )))));
    assert_eq!(switch_with(replies, &mut service).1, "请先完成或取消当前账号操作");
}

#[test]
fn undoing_a_failed_operation_ends_in_its_error() {
    let begin = || {
        app_service::rollback_after_failure(
            "id".into(),
            client(),
            AppError::Transaction("失败".into()),
        )
    };
    let run = |replies: Vec<ServiceReply>| {
        let mut operation = begin();
        for reply in replies {
            match operation.resume(reply) {
                Step::Perform { operation: next, .. } => operation = next,
                Step::Finished(result) => return result.unwrap_err().nested_message(),
            }
        }
        panic!("not finished");
    };
    let done = || ServiceReply::Done(Ok(()));
    assert_eq!(
        run(vec![ServiceReply::Flag(Ok(true)), done(), done(), done()]),
        "失败；已恢复操作前的战网状态"
    );
    assert_eq!(
        run(vec![
            ServiceReply::Flag(Ok(true)),
            ServiceReply::Done(Err(AppError::Message("不停".into()))),
        ]),
        "失败；客户端仍在运行，恢复材料已保留：不停"
    );
    assert_eq!(
        run(vec![
            ServiceReply::Flag(Ok(false)),
            done(),
            ServiceReply::Done(Err(AppError::Message("坏".into()))),
        ]),
        "失败；自动恢复未完成：坏。请勿启动战网，重新打开本工具继续恢复"
    );
    assert!(matches!(
        begin().resume(ServiceReply::Flag(Ok(false))),
        Step::Perform { operation: RollbackAfterFailure::ConfirmingStopped { .. }, .. }
    ));
}

#[test]
fn payload_is_put_in_place_only_while_stopped() {
    let operation = app_service::apply_payload(captured(None));
    assert!(matches!(operation, ApplyPayload::ConfirmingStopped { .. }));
    assert!(matches!(
        operation.resume(ServiceReply::Done(Err(AppError::ClientStopTimeout))),
        Step::Finished(Err(AppError::ClientStopTimeout))
    ));
    let mut operation = app_service::apply_payload(captured(None));
    for _ in 0..2 {
        match operation.resume(ServiceReply::Done(Ok(()))) {
            Step::Perform { operation: next, .. } => operation = next,
            Step::Finished(_) => panic!("ended too early"),
        }
    }
    assert!(matches!(operation.resume(ServiceReply::Done(Ok(()))), Step::Finished(Ok(()))));
}

fn catalog(current: Option<AccountKey>) -> AccountCatalog {
    AccountCatalog { accounts: vec![], current_account_key: current }
}

#[test]
fn target_is_confirmed_by_two_samples_in_a_row() {
    let mut watch = app_service::wait_for_target_health(&key());
    for current in [Some(key()), None, Some(key())] {
        match watch.resume(HealthSample::Catalog(Ok(catalog(current)))) {
            Step::Perform { operation, .. } => watch = operation,
            Step::Finished(_) => panic!("ended too early"),
        }
    }
    assert!(matches!(
        watch.resume(HealthSample::Catalog(Ok(catalog(Some(key()))))),
        Step::Finished(Ok(()))
    ));
    assert!(matches!(
        app_service::wait_for_target_health(&key()).resume(HealthSample::NotRunning),
        Step::Finished(Err(AppError::Transaction(message)))
            if message == "Battle.net 在账号确认前已退出"
    ));
    assert!(matches!(
        app_service::wait_for_target_health(&key()).resume(HealthSample::OutOfTime),
        Step::Finished(Err(AppError::Transaction(message)))
            if message == "客户端未通过目标账号自动确认，已停止等待"
    ));
}

#[test]
fn configuration_settles() {
    let Step::Perform { operation, .. } =
        app_service::wait_for_stable_config().resume(SettleReply::Present(true))
    else {
        panic!("a configuration is there");
    };
    let mut operation = operation;
    for size in [1, 2, 2] {
        match operation.resume(SettleReply::Stamp(Ok(app_service::config_fingerprint(size, 1)))) {
            Step::Perform { operation: next, .. } => operation = next,
            Step::Finished(_) => panic!("settled too early"),
        }
    }
    assert!(matches!(
        operation.resume(SettleReply::Stamp(Ok(app_service::config_fingerprint(2, 1)))),
        Step::Finished(Ok(()))
    ));
    assert!(matches!(
        app_service::wait_for_stable_config().resume(SettleReply::Present(false)),
        Step::Finished(Err(AppError::Snapshot(_)))
    ));
}

#[test]
fn login_is_begun_for_the_region_of_the_account() {
    let service = service();
    let mut operation =
        service.begin_login(LoginIntent::Reauthenticate { account_key: key() });
    let replies = vec![
        ServiceReply::Done(Ok(())),
        ServiceReply::Record(Ok(None)),
        ServiceReply::Client(Ok(client())),
        ServiceReply::Flag(Ok(false)),
        ServiceReply::Flag(Ok(false)),
        ServiceReply::Done(Ok(())),
        ServiceReply::Payload(Ok(captured(None))),
        ServiceReply::Recorded(Ok(record(RecoveryKind::Login, RecoveryState::Prepared))),
        ServiceReply::Done(Ok(())),
        ServiceReply::Recorded(Ok(record(RecoveryKind::Login, RecoveryState::AwaitingUser))),
    ];
    let mut progress = Vec::new();
    for reply in replies {
        match operation.resume(reply) {
            Step::Perform { operation: next, report } => {
                progress.extend(report.map(|event| event.progress));
                operation = next;
            }
            Step::Finished(_) => panic!("ended too early"),
        }
    }
    assert_eq!(progress, vec![8, 24]);
    let StartLogin::Launching { prepared } = operation else {
        panic!("the client is not started");
    };
    assert_eq!(prepared.region, Some(LoginRegion::Europe));
    assert!(matches!(
        StartLogin::Launching { prepared }
            .resume(ServiceReply::Done(Err(AppError::ClientLaunch("x".into())))),
        Step::Perform { operation: StartLogin::Undoing { .. }, .. }
    ));
}

/// A completion up to the claim of the commit.
fn complete_until_commit(
    service: &mut MacosPlatformService,
    current: Option<AccountKey>,
) -> Result<CompleteAfterLock, AppError> {
    let id = "6a0ddc3f-3e1e-4c4b-9d0e-0b7f9c0c8a11";
    let mut operation = service.complete_login_after_lock(id);
    let replies = vec![
        ServiceReply::Record(Ok(Some(record(RecoveryKind::Login, RecoveryState::AwaitingUser)))),
        ServiceReply::Context(Ok(RecoveryEnvelope {
            before: captured(None),
            context: RecoveryContext::Login {
                intent: LoginIntent::Reauthenticate { account_key: key() },
                previous_account: None,
            },
        })),
        ServiceReply::Client(Ok(client())),
        ServiceReply::Answer(false),
        ServiceReply::Answer(false),
        ServiceReply::Evidence { ready: Ok(false), now_ms: 1 },
        ServiceReply::Flag(Ok(true)),
        ServiceReply::Slept,
        ServiceReply::Answer(false),
        ServiceReply::Evidence { ready: Ok(true), now_ms: 2 },
        ServiceReply::Flag(Ok(false)),
        ServiceReply::Done(Ok(())),
        ServiceReply::Answer(false),
        ServiceReply::Done(Ok(())),
        ServiceReply::Catalog(Ok(catalog(current))),
        ServiceReply::Flag(Ok(true)),
        ServiceReply::Answer(false),
        ServiceReply::Payload(Ok(captured(Some(key())))),
        ServiceReply::Recorded(Ok(record(RecoveryKind::Login, RecoveryState::AwaitingUser))),
    ];
    for reply in replies {
        match operation.resume(service, reply) {
            Step::Perform { operation: next, .. } => operation = next,
            Step::Finished(result) => {
                return Err(result.unwrap_err());
            }
        }
    }
    Ok(operation)
}

#[test]
fn login_of_another_account_is_not_committed() {
    let mut service = service();
    let operation = complete_until_commit(&mut service, Some(key())).unwrap();
    assert!(matches!(operation, CompleteAfterLock::BeginningCommit { .. }));
    let other = AccountKey { environment: "eu.actual.battle.net".into(), account_id: "9".into() };
    assert!(matches!(
        complete_until_commit(&mut service, Some(other)),
        Err(AppError::Login(message)) if message.contains("与目标账号不一致")
    ));
}

#[test]
fn cancelled_login_is_not_committed() {
    let mut service = service();
    let operation = complete_until_commit(&mut service, Some(key())).unwrap();
    let Step::Perform { operation, .. } =
        operation.resume(&mut service, ServiceReply::Answer(false))
    else {
        panic!("a cancellation is taken up first");
    };
    assert!(matches!(
        operation.resume(&mut service, ServiceReply::Answer(true)),
        Step::Perform { operation: CompleteAfterLock::Cancelling { .. }, .. }
    ));
}

#[test]
fn failing_probe_is_given_ten_seconds() {
    let mut service = service();
    let job = || bnetswitchlite::platform::macos::completing::CompletionJob {
        session_id: "id".into(),
        target: key(),
        client: client(),
    };
    let probe = |failing_since, now_ms| {
        let mut service = self::service();
        CompleteAfterLock::Probing { job: job(), failing_since }.resume(
            &mut service,
            ServiceReply::Evidence {
                ready: Err(AppError::AccountDatabase("x".into())),
                now_ms,
            },
        )
    };
    assert!(matches!(
        probe(None, 5),
        Step::Perform { operation: CompleteAfterLock::Sleeping { failing_since: Some(5), .. }, .. }
    ));
    assert!(matches!(probe(Some(5), 10004), Step::Perform { .. }));
    assert!(matches!(probe(Some(5), 10005), Step::Finished(Err(AppError::AccountDatabase(_)))));
    assert!(matches!(
        CompleteAfterLock::Probing { job: job(), failing_since: None }.resume(
            &mut service,
            ServiceReply::Evidence {
                ready: Err(AppError::AccountDatabaseIncompatible("x".into())),
                now_ms: 1,
            },
        ),
        Step::Finished(Err(AppError::AccountDatabaseIncompatible(_)))
    ));
}

#[test]
fn client_is_not_opened_over_a_prepared_operation() {
    let prepared = record(RecoveryKind::Switch, RecoveryState::Prepared);
    assert!(matches!(
        OpenClient::CheckingRecord.resume(ServiceReply::Record(Ok(Some(prepared)))),
        Step::Finished(Err(AppError::Transaction(_)))
    ));
    assert!(matches!(
        OpenClient::CheckingRecord.resume(ServiceReply::Record(Ok(None))),
        Step::Perform { operation: OpenClient::ResolvingClient, .. }
    ));
}

#[test]
fn client_is_resolved_from_the_settings_first() {
    let other = || ValidatedClient { bundle: "/Other.app".into(), ..client() };
    assert_eq!(
        app_service::resolved_client(Some(Ok(client())), Some(Ok(other()))).unwrap().unwrap().bundle,
        "/Applications/Battle.net.app"
    );
    assert_eq!(
        app_service::resolved_client(
            Some(Err(AppError::InvalidClientExecutable)),
            Some(Ok(other()))
        )
        .unwrap()
        .unwrap()
        .bundle,
        "/Other.app"
    );
    assert!(app_service::resolved_client(Some(Err(AppError::InvalidClientExecutable)), None).is_err());
    assert!(matches!(
        app_service::require_client(app_service::resolved_client(None, None)),
        Err(AppError::ClientExecutableMissing)
    ));
}

#[test]
fn directories_and_names_are_taken_from_paths() {
    for (path, directory, name) in [
        ("/a/b", Some("/a"), Some("b")),
        ("/a", Some("/"), Some("a")),
        ("/", None, None),
        ("a/b", Some("a"), Some("b")),
        ("./b", Some("."), Some("b")),
        ("a", None, Some("a")),
        ("", None, None),
        ("/a/..", Some("/a"), None),
        ("/a/b/", Some("/a"), Some("b")),
    ] {
        match secure_fs::parent(path) {
            Ok(found) => assert_eq!(Some(found.as_str()), directory, "{path}"),
            Err(AppError::Snapshot(message)) => {
                assert_eq!(message, "安全路径没有父目录");
                assert!(directory.is_none(), "{path}");
            }
            Err(_) => panic!("{path}"),
        }
        match secure_fs::file_name(path) {
            Ok(found) => assert_eq!(Some(found.as_str()), name, "{path}"),
            Err(AppError::Snapshot(message)) => {
                assert_eq!(message, "安全路径没有文件名");
                assert!(name.is_none(), "{path}");
            }
            Err(_) => panic!("{path}"),
        }
    }
}

#[test]
fn both_scopes_of_the_preferences_are_checked() {
    let whole = dictionary(&[("key", "value")]);
    assert!(check_dictionaries(&whole, &whole).is_ok());
    assert!(matches!(
        check_dictionaries(&ReadPreferences::Invalid, &ReadPreferences::NotDictionary),
        Err(AppError::Snapshot(message)) if message == "认证快照中的偏好域格式无效"
    ));
    assert!(matches!(
        check_dictionaries(&whole, &ReadPreferences::NotDictionary),
        Err(AppError::Snapshot(message)) if message == "认证快照中的偏好域不是字典"
    ));
    assert!(same_in_both(Ok(true), Ok(true)).unwrap());
    assert!(!same_in_both(Ok(true), Ok(false)).unwrap());
    assert!(!same_in_both(Ok(false), Err(AppError::OperationBusy)).unwrap());
    assert!(same_in_both(Ok(true), Err(AppError::OperationBusy)).is_err());
    assert!(same_in_both(Err(AppError::OperationBusy), Ok(true)).is_err());
    assert!(process::process_is_gone(&None, &None));
    assert!(!process::process_is_gone(&Some(b"Battle.net".to_vec()), &None));
    assert!(!process::process_is_gone(&None, &Some("/a".into())));
}
