//! The rules of the Windows side.

use bnetswitchlite::contracts::AccountCatalog;
use bnetswitchlite::contracts::AccountKey;
use bnetswitchlite::contracts::LoginIntent;
use bnetswitchlite::contracts::LoginRegion;
use bnetswitchlite::contracts::SnapshotStatus;
use bnetswitchlite::error::AppError;
use bnetswitchlite::ordered::TextMap;
use bnetswitchlite::platform::windows::app_service::classify_login_evidence;
use bnetswitchlite::platform::windows::app_service::combine_errors;
use bnetswitchlite::platform::windows::app_service::resolve_login_account;
use bnetswitchlite::platform::windows::app_service::resolved_client_path;
use bnetswitchlite::platform::windows::app_service::saved_status;
use bnetswitchlite::platform::windows::app_service::validate_login_identity;
use bnetswitchlite::platform::windows::app_service::wait_for_account;
use bnetswitchlite::platform::windows::app_service::AccountSample;
use bnetswitchlite::platform::windows::app_service::LoginEvidence;
use bnetswitchlite::platform::windows::authentication::enumerate_values;
use bnetswitchlite::platform::windows::authentication::read_registry_values;
use bnetswitchlite::platform::windows::authentication::value_fingerprint;
use bnetswitchlite::platform::windows::authentication::AuthenticationBaseline;
use bnetswitchlite::platform::windows::authentication::RegistryRead;
use bnetswitchlite::platform::windows::authentication::RegistryReadError;
use bnetswitchlite::platform::windows::authentication::RegistryReply;
use bnetswitchlite::platform::windows::config::clear_saved_account_names;
use bnetswitchlite::platform::windows::config::saved_account_names_present;
use bnetswitchlite::platform::windows::operation_lock;
use bnetswitchlite::platform::windows::operation_lock::is_lock_conflict;
use bnetswitchlite::platform::windows::operation_lock::AcquireGuard;
use bnetswitchlite::platform::windows::operation_lock::GuardReply;
use bnetswitchlite::platform::windows::operation_lock::SidFacts;
use bnetswitchlite::platform::windows::paths;
use bnetswitchlite::platform::windows::paths::BattleNetPaths;
use bnetswitchlite::platform::windows::paths::ExecutableFacts;
use bnetswitchlite::platform::windows::paths::FileFacts;
use bnetswitchlite::platform::windows::paths::VersionFacts;
use bnetswitchlite::platform::windows::paths::VersionNames;
use bnetswitchlite::platform::windows::process;
use bnetswitchlite::platform::windows::process::hresult_from_win32;
use bnetswitchlite::platform::windows::process::is_process_list_end;
use bnetswitchlite::platform::windows::process::ClientProcess;
use bnetswitchlite::platform::windows::process::GracefulStop;
use bnetswitchlite::platform::windows::process::ProcessEntry;
use bnetswitchlite::platform::windows::process::ProcessListing;
use bnetswitchlite::platform::windows::process::ProcessSample;
use bnetswitchlite::platform::windows::process::StopReply;
use bnetswitchlite::platform::windows::process::SystemError;
use bnetswitchlite::platform::windows::restore::ensure_available_space;
use bnetswitchlite::platform::windows::snapshot::account_directory_name;
use bnetswitchlite::platform::windows::snapshot::hash_bytes;
use bnetswitchlite::platform::windows::snapshot::validate_account_key;
use bnetswitchlite::platform::windows::snapshot::validate_file_name;
use bnetswitchlite::platform::windows::snapshot::ManifestFile;
use bnetswitchlite::platform::windows::snapshot::SnapshotSummary;
use bnetswitchlite::platform::windows::snapshot_store::cleanup_old_generations;
use bnetswitchlite::platform::windows::snapshot_store::GenerationEntry;
use bnetswitchlite::platform::windows::window_icon::taskbar_icon_size;
use bnetswitchlite::platform::windows::window_icon::WindowIconManager;
use bnetswitchlite::step::Step;

fn key(environment: &str, account_id: &str) -> AccountKey {
    AccountKey { environment: environment.into(), account_id: account_id.into() }
}

fn intent(account_key: AccountKey) -> LoginIntent {
    LoginIntent::Reauthenticate { account_key }
}

#[test]
fn reauthentication_must_match_the_requested_environment_and_account() {
    let requested = key("kr.actual.battle.net", "1");
    let intent = intent(requested.clone());
    assert!(validate_login_identity(&intent, &requested).is_ok());
    assert!(validate_login_identity(&intent, &key("kr.actual.battle.net", "2")).is_err());
    assert!(validate_login_identity(&intent, &key("us.actual.battle.net", "1")).is_err());
}

#[test]
fn unfinished_login_without_an_active_account_is_rejected() {
    assert!(resolve_login_account(&intent(key("cn.actual.battlenet.com.cn", "1")), None).is_err());
}

#[test]
fn completed_reauthentication_resolves_the_requested_account() {
    let current = key("cn.actual.battlenet.com.cn", "2");
    assert_eq!(
        resolve_login_account(&intent(current.clone()), Some(current.clone())).unwrap(),
        current
    );
}

#[test]
fn login_evidence_requires_fresh_authentication_marker_and_exact_target() {
    let target = key("cn.actual.battlenet.com.cn", "2");
    let intent = intent(target.clone());
    assert!(matches!(
        classify_login_evidence(true, false, Some(target.clone()), &intent),
        LoginEvidence::Pending
    ));
    assert!(matches!(
        classify_login_evidence(false, true, Some(target.clone()), &intent),
        LoginEvidence::Pending
    ));
    assert!(matches!(
        classify_login_evidence(true, true, Some(target.clone()), &intent),
        LoginEvidence::Ready(account) if account == target
    ));
    assert!(matches!(
        classify_login_evidence(
            true,
            true,
            Some(key("cn.actual.battlenet.com.cn", "other")),
            &intent
        ),
        LoginEvidence::WrongAccount
    ));
}

fn baseline(entries: &[(&str, &str)]) -> AuthenticationBaseline {
    let mut values = TextMap::new();
    for (name, value) in entries {
        values = values.with((*name).to_owned(), (*value).to_owned());
    }
    AuthenticationBaseline::of(values)
}

#[test]
fn deletion_alone_is_not_fresh_authentication() {
    let before = baseline(&[("A", "one"), ("B", "two")]);
    let after = baseline(&[("A", "one")]);
    assert!(!before.has_fresh_value_since(&after));
}

#[test]
fn new_or_replaced_value_is_fresh_authentication() {
    let before = baseline(&[("A", "one")]);
    let replaced = baseline(&[("A", "updated")]);
    let added = baseline(&[("A", "one"), ("B", "new")]);
    assert!(before.has_fresh_value_since(&replaced));
    assert!(before.has_fresh_value_since(&added));
}

#[test]
fn baseline_is_captured_once_two_reads_agree() {
    let map = |value: &str| TextMap::new().with("A".into(), value.into());
    let mut capture = AuthenticationBaseline::capture();
    for value in ["one", "two", "three"] {
        match capture.resume(Ok(map(value))) {
            Step::Perform { operation, .. } => capture = operation,
            Step::Finished(_) => panic!("ended too early"),
        }
    }
    let Step::Finished(Ok(captured)) = capture.resume(Ok(map("three"))) else {
        panic!("two equal reads were not taken");
    };
    assert_eq!(captured.values().get("A").unwrap(), "three");

    let mut capture = AuthenticationBaseline::capture();
    let mut reads = 0;
    let error = loop {
        reads += 1;
        match capture.resume(Ok(map(&reads.to_string()))) {
            Step::Perform { operation, .. } => capture = operation,
            Step::Finished(result) => break result.unwrap_err(),
        }
    };
    assert_eq!(reads, 6);
    assert!(matches!(error, AppError::Login(message) if message.contains("暂时无法稳定读取")));
}

fn registry_read(status: i32, name: &str, data: &[u8]) -> RegistryRead {
    RegistryRead { status, name: name.encode_utf16().collect(), value_type: 3, data: data.to_vec() }
}

#[test]
fn registry_values_are_fingerprinted_under_upper_case_names() {
    let values = enumerate_values(
        0,
        2,
        &vec![registry_read(0, "wow", b"a"), registry_read(0, "d3", b"b"), registry_read(259, "", b"")],
    )
    .unwrap();
    assert_eq!(values.entries().len(), 2);
    let expected = bnetswitchlite::outside::sha256(&vec![3, 0, 0, 0, b'a']);
    assert_eq!(values.get("WOW").unwrap(), &expected);
    assert_eq!(value_fingerprint(3, &b"a".to_vec()), expected);
    assert!(matches!(
        enumerate_values(0, 1, &vec![registry_read(234, "", b"")]),
        Err(RegistryReadError::Changed)
    ));
    assert!(matches!(
        enumerate_values(0, 1, &vec![registry_read(5, "", b"")]),
        Err(RegistryReadError::Status(5))
    ));
    assert!(matches!(enumerate_values(6, 0, &vec![]), Err(RegistryReadError::Status(6))));
    let unpaired =
        RegistryRead { status: 0, name: vec![0xd800], value_type: 1, data: vec![] };
    assert!(matches!(
        enumerate_values(0, 1, &vec![unpaired]),
        Err(RegistryReadError::Status(234))
    ));
}

#[test]
fn missing_registry_key_has_no_values() {
    let Step::Finished(Ok(values)) = read_registry_values().resume(RegistryReply::Opened { status: 2 })
    else {
        panic!("a missing key is no error");
    };
    assert!(values.entries().is_empty());
    assert!(matches!(
        read_registry_values().resume(RegistryReply::Opened { status: 5 }),
        Step::Finished(Err(AppError::Login(message)))
            if message == "无法打开战网认证注册表（Windows 错误 5）"
    ));
    let mut step = read_registry_values().resume(RegistryReply::Opened { status: 0 });
    let mut tries = 0;
    let error = loop {
        match step {
            Step::Perform { operation, .. } => {
                tries += 1;
                step = operation.resume(RegistryReply::Values(Err(RegistryReadError::Changed)));
            }
            Step::Finished(result) => break result.unwrap_err(),
        }
    };
    assert_eq!(tries, 3);
    assert!(matches!(error, AppError::Login(message) if message.contains("暂时无法建立登录基线")));
}

#[test]
fn only_lock_conflicts_are_reported_as_busy() {
    let sharing = hresult_from_win32(32);
    let denied = hresult_from_win32(5);
    assert!(is_lock_conflict(sharing));
    assert!(!is_lock_conflict(denied));
}

fn acquire(mutex: u32, file: GuardReply) -> Result<(), AppError> {
    let mut operation = operation_lock::acquire();
    let mut file = Some(file);
    loop {
        let reply = match &operation {
            AcquireGuard::CreatingMutex => GuardReply::Created(Ok(())),
            AcquireGuard::WaitingForMutex => GuardReply::Waited { status: mutex },
            AcquireGuard::ClosingMutex { .. } => GuardReply::Closed,
            AcquireGuard::OpeningFile => file.take().unwrap_or(GuardReply::Opened),
            AcquireGuard::Pausing => GuardReply::Paused,
            AcquireGuard::ReleasingMutex { .. } => GuardReply::Released,
        };
        match operation.resume(reply) {
            Step::Perform { operation: next, .. } => operation = next,
            Step::Finished(result) => return result,
        }
    }
}

fn refused(code: u32, in_time: bool) -> GuardReply {
    GuardReply::OpenFailed {
        path: "C:\\Tool\\.operation.lock".into(),
        code: hresult_from_win32(code),
        message: "denied".into(),
        in_time,
    }
}

#[test]
fn file_lock_prevents_a_second_operation() {
    assert!(acquire(0, GuardReply::Opened).is_ok());
    assert!(acquire(0x80, GuardReply::Opened).is_ok());
    assert!(matches!(acquire(258, GuardReply::Opened), Err(AppError::OperationBusy)));
    assert!(matches!(acquire(0, refused(32, false)), Err(AppError::OperationBusy)));
    assert!(matches!(acquire(0, refused(33, false)), Err(AppError::OperationBusy)));
    assert!(acquire(0, refused(32, true)).is_ok());
    assert!(matches!(
        acquire(0, refused(5, true)),
        Err(AppError::DataStorage(message))
            if message == "无法打开操作锁 C:\\Tool\\.operation.lock：denied"
    ));
    assert!(matches!(
        acquire(7, GuardReply::Opened),
        Err(AppError::Transaction(message)) if message == "无法获取操作互斥锁（Windows 状态 7）"
    ));
}

#[test]
fn lock_is_named_after_the_user() {
    let sid = vec![1, 5, 0, 0];
    let hash = bnetswitchlite::outside::sha256(&sid);
    let facts = SidFacts::Sid(sid);
    assert_eq!(
        operation_lock::mutex_name(&facts).unwrap(),
        format!("Global\\BnetSwitchLite.Operation.{hash}")
    );
    assert!(operation_lock::mutex_name(&SidFacts::NoSize).is_err());
    assert_eq!(operation_lock::current_user_sid_hash(&facts).unwrap(), hash);
    assert!(operation_lock::current_user_sid_hash(&SidFacts::Sid(vec![])).is_err());
    assert!(operation_lock::current_user_sid_hash(&SidFacts::NoSize).is_err());
    assert!(operation_lock::current_user_sid_hash(&SidFacts::NoToken("x".into())).is_err());
    assert!(operation_lock::current_user_sid_hash(&SidFacts::Unreadable("x".into())).is_err());
    assert_eq!(operation_lock::wait_millis(1000), 1000);
    assert_eq!(operation_lock::wait_millis(u64::MAX), u32::MAX);
}

#[test]
fn only_the_standard_client_is_a_launch_target() {
    assert!(paths::is_client_executable_name("Battle.net.exe"));
    assert!(!paths::is_client_executable_name("Battle.net Launcher.exe"));
}

fn file_facts() -> FileFacts {
    FileFacts { is_file: true, is_directory: false, attributes: 0x20 }
}

fn executable() -> ExecutableFacts {
    ExecutableFacts {
        metadata: Some(file_facts()),
        name: Some("battle.NET.exe".into()),
        identity: true,
        components: vec![Some(0x20), Some(0x10)],
        canonical: Some("\\\\?\\C:\\Battle.net\\Battle.net.exe".into()),
    }
}

#[test]
fn client_executable_has_to_be_a_plain_identified_file() {
    assert_eq!(
        paths::validate_client_executable(executable()).unwrap(),
        "\\\\?\\C:\\Battle.net\\Battle.net.exe"
    );
    let refused = [
        ExecutableFacts { metadata: None, ..executable() },
        ExecutableFacts {
            metadata: Some(FileFacts { is_file: false, ..file_facts() }),
            ..executable()
        },
        ExecutableFacts {
            metadata: Some(FileFacts { attributes: 0x420, ..file_facts() }),
            ..executable()
        },
        ExecutableFacts { name: None, ..executable() },
        ExecutableFacts { name: Some("Other.exe".into()), ..executable() },
        ExecutableFacts { identity: false, ..executable() },
        ExecutableFacts { components: vec![Some(0x20), Some(0x410)], ..executable() },
        ExecutableFacts { components: vec![Some(0x20), None], ..executable() },
        ExecutableFacts { canonical: None, ..executable() },
    ];
    for facts in refused {
        assert!(matches!(
            paths::validate_client_executable(facts),
            Err(AppError::InvalidClientExecutable)
        ));
    }
}

fn wide(text: &str) -> Option<Vec<u16>> {
    Some(text.encode_utf16().collect())
}

#[test]
fn client_is_identified_by_its_version() {
    let named = |company: &str, product: &str| {
        Some(VersionFacts {
            translation_bytes: 4,
            names: vec![VersionNames { company: wide(company), product: wide(product) }],
        })
    };
    assert!(paths::has_battle_net_version_identity(&named("Blizzard Entertainment", " Battle.net ")));
    assert!(!paths::has_battle_net_version_identity(&named("Other", "Battle.net")));
    assert!(!paths::has_battle_net_version_identity(&named("Blizzard", "Other")));
    assert!(!paths::has_battle_net_version_identity(&None));
    assert!(!paths::has_battle_net_version_identity(&Some(VersionFacts {
        translation_bytes: 3,
        names: vec![],
    })));
    assert_eq!(
        paths::version_key(0x0409, 0x04b0, "CompanyName"),
        "\\StringFileInfo\\040904b0\\CompanyName"
    );
    assert_eq!(paths::translation_count(10), 2);
}

#[test]
fn client_is_looked_for_in_the_configuration_first() {
    let config = br#"{"A":{"Path":"E:\\Games"},"List":[{"Path":"  "},{"Path":"F:\\Bnet"}]}"#;
    assert_eq!(
        paths::client_candidates(
            &Some(config.to_vec()),
            &Some("C:\\Program Files (x86)".into()),
            &None,
        ),
        vec![
            "E:\\Games",
            "F:\\Bnet",
            "C:\\Program Files (x86)\\Battle.net",
            "C:\\Battle.net",
            "D:\\Battle.net",
        ]
    );
    assert_eq!(paths::candidate_executable("C:\\Battle.net", false), "C:\\Battle.net\\Battle.net.exe");
    assert_eq!(paths::candidate_executable("C:\\x.exe", true), "C:\\x.exe");
    let found = BattleNetPaths::discover(Some("L"), Some("R")).unwrap();
    assert_eq!(found.cached_data_db, "L\\Battle.net\\CachedData.db");
    assert_eq!(found.roaming_config, "R\\Battle.net\\Battle.net.config");
    assert!(BattleNetPaths::discover(None, Some("R")).is_err());
    assert!(BattleNetPaths::discover(Some("L"), None).is_err());
}

fn entry(process_id: u32, name: &str) -> ProcessEntry {
    let mut exe_file: Vec<u16> = name.encode_utf16().collect();
    exe_file.push(0);
    exe_file.push(77);
    ProcessEntry { process_id, exe_file }
}

fn listing(entries: Vec<ProcessEntry>, end: u32) -> ProcessListing {
    ProcessListing {
        entries,
        end: SystemError { code: hresult_from_win32(end), message: "end".into() },
        closed: Ok(()),
    }
}

#[test]
fn can_enumerate_client_processes() {
    let found = process::client_processes(Ok(listing(
        vec![entry(4, "explorer.exe"), entry(9, "battle.net.exe"), entry(11, "Battle.net Helper.exe")],
        18,
    )));
    assert_eq!(process::client_process_ids(found).unwrap(), vec![9, 11]);
}

#[test]
fn only_no_more_files_finishes_process_enumeration() {
    let finished = hresult_from_win32(18);
    let denied = hresult_from_win32(5);
    assert!(is_process_list_end(finished));
    assert!(!is_process_list_end(denied));
    assert!(process::client_processes(Ok(listing(vec![], 5))).is_err());
    assert!(process::client_processes(Err("no list".into())).is_err());
    let unclosed = ProcessListing { closed: Err("open".into()), ..listing(vec![], 18) };
    assert!(process::client_processes(Ok(unclosed)).is_err());
}

#[test]
fn login_region_is_passed_as_one_argument() {
    assert_eq!(process::login_region_argument(LoginRegion::China), "--setregion=CN");
    assert_eq!(process::login_region_argument(LoginRegion::Asia), "--setregion=KR");
    assert_eq!(process::launch_for_login(Some(LoginRegion::China)), vec!["--setregion=CN"]);
    assert!(process::launch_for_login(None).is_empty());
    assert!(process::launch().is_empty());
}

#[test]
fn client_is_started_in_its_own_directory() {
    let program = r"\\?\C:\Program Files (x86)\Battle.net\Battle.net.exe";
    let command = process::launch_command(Ok(program.into()), Some(LoginRegion::Asia)).unwrap();
    assert_eq!(command.program, program);
    assert_eq!(command.directory, r"\\?\C:\Program Files (x86)\Battle.net");
    assert_eq!(command.arguments, vec!["--setregion=KR"]);
    let command = process::launch_command(Ok(r"\\?\D:\Battle.net.exe".into()), None).unwrap();
    assert_eq!(command.directory, r"\\?\D:\");
    assert!(command.arguments.is_empty());
    assert!(matches!(
        process::launch_command(Err(AppError::InvalidClientExecutable), None),
        Err(AppError::InvalidClientExecutable)
    ));
    assert!(matches!(
        process::launch_command(Ok(r"\\?\C:\".into()), None),
        Err(AppError::ClientLaunch(message)) if message == "无法确定 Battle.net.exe 的所在目录"
    ));
    assert!(process::launch_outcome(Ok(())).is_ok());
    assert!(matches!(
        process::launch_outcome(Err("denied".into())),
        Err(AppError::ClientLaunch(message)) if message == "denied"
    ));
}

#[test]
fn directories_hold_what_is_below_the_volume() {
    for (path, directory) in [
        (r"\\?\UNC\server\share\Battle.net\Battle.net.exe", Some(r"\\?\UNC\server\share\Battle.net")),
        (r"\\?\UNC\server\share\Battle.net.exe", Some(r"\\?\UNC\server\share\")),
        (r"\\?\UNC\server\share\", None),
        (r"\\server\share\a\b", Some(r"\\server\share\a")),
        (r"\\server\share", None),
        (r"C:\a\b", Some(r"C:\a")),
        (r"C:\a", Some(r"C:\")),
        (r"C:\", None),
        ("C:", None),
        (r"\a", Some(r"\")),
        (r"\", None),
        ("a", Some("")),
        ("", None),
    ] {
        assert_eq!(paths::parent_directory(path).as_deref(), directory, "{path}");
    }
}

fn client(process_id: u32, name: &str) -> ClientProcess {
    ClientProcess { process_id, name: name.into() }
}

#[test]
fn client_is_stopped_after_two_empty_samples() {
    let check = process::ensure_client_stopped();
    let empty = || ProcessSample::Processes(Ok(vec![]));
    let Step::Perform { operation: check, .. } = check.resume(empty()) else {
        panic!("one sample is not enough");
    };
    assert!(matches!(check.resume(empty()), Step::Finished(Ok(()))));
    let running = ProcessSample::Processes(Ok(vec![client(1, "Agent.exe")]));
    assert!(matches!(
        process::ensure_client_stopped().resume(running),
        Step::Finished(Err(_))
    ));
}

#[test]
fn client_windows_are_asked_to_close() {
    let step = process::graceful_stop()
        .resume(StopReply::Listed(Ok(vec![client(5, "Battle.net.exe"), client(6, "Agent.exe")])));
    let Step::Perform { operation: GracefulStop::Closing { windows }, .. } = step else {
        panic!("the client's window was not asked to close");
    };
    assert_eq!(windows, vec![5]);
    let step = GracefulStop::Closing { windows }.resume(StopReply::Asked(Ok(())));
    let Step::Perform { operation, .. } = step else { panic!("nothing is waited for") };
    assert!(matches!(
        operation.resume(StopReply::Sampled(ProcessSample::OutOfTime)),
        Step::Finished(Err(AppError::ClientStopTimeout))
    ));
    assert!(matches!(
        process::graceful_stop().resume(StopReply::Listed(Ok(vec![]))),
        Step::Finished(Ok(()))
    ));
    assert_eq!(process::message_timeout_ms(0), 1);
    assert_eq!(process::message_timeout_ms(9000), 5000);
    assert_eq!(process::stop_pause_ms(100), 100);
    assert_eq!(process::stop_pause_ms(1000), 250);
    assert!(process::is_main_client_running(&vec![client(5, "Battle.net.exe")]));
    assert!(!process::is_main_client_running(&vec![client(5, "Agent.exe")]));
    assert!(process::is_client_running(&vec![client(5, "Agent.exe")]));
}

#[test]
fn start_is_waited_for() {
    let running = ProcessSample::Processes(Ok(vec![client(5, "Battle.net.exe")]));
    assert!(matches!(process::wait_for_client_started(running), Some(Ok(()))));
    assert!(process::wait_for_client_started(ProcessSample::Processes(Ok(vec![]))).is_none());
    assert!(matches!(
        process::wait_for_client_started(ProcessSample::OutOfTime),
        Some(Err(AppError::ClientLaunch(message))) if message.contains("未检测到 Battle.net 进程")
    ));
}

#[test]
fn rejects_windows_path_and_stream_file_names() {
    for name in ["..\\escape", "file:stream", "trailing.", "bad?.json"] {
        assert!(validate_file_name(name).is_err(), "accepted {name}");
    }
    assert!(validate_file_name("Battle.net.config").is_ok());
}

#[test]
fn account_directories_are_told_apart() {
    let first = account_directory_name(&key("cn", "1"));
    assert_eq!(first.len(), 64);
    assert_ne!(first, account_directory_name(&key("cn", "2")));
    assert!(validate_account_key(&key("cn", "1")).is_ok());
    assert!(validate_account_key(&key(" ", "1")).is_err());
    assert!(validate_account_key(&key("cn", "")).is_err());
}

#[test]
fn one_old_generation_is_kept() {
    let generation = |name: &str, modified| GenerationEntry {
        name: Some(name.into()),
        is_directory: true,
        modified: Some(modified),
        path: format!("generations\\{name}"),
    };
    let ids: Vec<String> = (0..4).map(|_| bnetswitchlite::outside::new_id()).collect();
    let removed = cleanup_old_generations(
        &vec![
            generation(&ids[0], 10),
            generation(&ids[1], 30),
            generation(&ids[2], 20),
            generation(&ids[3], 40),
        ],
        &ids[3],
    );
    assert_eq!(removed.len(), 2);
    assert!(!removed.contains(&format!("generations\\{}", ids[1])));
    assert!(!removed.contains(&format!("generations\\{}", ids[3])));
}

#[test]
fn saved_account_names_are_cleared_and_found() {
    let config = br#"{"Client":{"SavedAccountNames":"before"},"Other":[1,2]}"#;
    assert!(saved_account_names_present(&config.to_vec()).unwrap());
    let cleared = clear_saved_account_names(&config.to_vec()).unwrap();
    let text = String::from_utf8(cleared.clone()).unwrap();
    assert!(text.contains("\"SavedAccountNames\": \"\""));
    assert!(text.contains("\"Other\""));
    assert!(!saved_account_names_present(&cleared).unwrap());
    assert_eq!(clear_saved_account_names(&cleared).unwrap(), cleared);
    let nested = format!(
        r#"{{"Client":{{"SavedAccountNames":["a@b.c"],"Limits":[18446744073709551615,-9223372036854775808,0],"深":{}"ü\n"{}}}}}"#,
        "[".repeat(120),
        "]".repeat(120)
    );
    let read_back = clear_saved_account_names(&nested.clone().into_bytes()).unwrap();
    assert!(!saved_account_names_present(&read_back).unwrap());
    assert_eq!(
        serde_json::from_slice::<serde_json::Value>(&read_back).unwrap(),
        serde_json::from_str::<serde_json::Value>(&nested.replace(r#"["a@b.c"]"#, "[]")).unwrap()
    );
    assert!(clear_saved_account_names(&b"{}".to_vec()).is_err());
    assert!(clear_saved_account_names(&b"not json".to_vec()).is_err());
    let twice = br#"{"A":{"SavedAccountNames":"one"},"B":{"SavedAccountNames":"two"}}"#;
    assert!(clear_saved_account_names(&twice.to_vec()).is_err());
}

#[test]
fn free_space_has_to_hold_the_files_and_a_reserve() {
    let files = vec![ManifestFile { name: "a".into(), size: 1, sha256: "".into() }];
    assert!(ensure_available_space(Ok(8388609), &files).is_ok());
    assert!(matches!(
        ensure_available_space(Ok(8388608), &files),
        Err(AppError::Transaction(message))
            if message == "战网配置盘可用空间不足，至少需要 9 MiB"
    ));
    assert!(ensure_available_space(Err("x".into()), &files).is_err());
    let huge = vec![ManifestFile { name: "a".into(), size: u64::MAX, sha256: "".into() }];
    assert!(matches!(
        ensure_available_space(Ok(u64::MAX), &huge),
        Err(AppError::Transaction(message)) if message == "目标账号快照大小无效"
    ));
    assert_eq!(hash_bytes(&b"abc".to_vec()).0, 3);
}

#[test]
fn taskbar_icon_grows_with_the_dpi() {
    assert_eq!(taskbar_icon_size(96), 24);
    assert_eq!(taskbar_icon_size(120), 30);
    assert_eq!(taskbar_icon_size(144), 36);
    assert_eq!(taskbar_icon_size(98), 25);
    let manager = WindowIconManager { dpi: 96 };
    assert_eq!(manager.refresh(96), None);
    assert_eq!(manager.refresh(192), Some(48));
}

#[test]
fn account_is_confirmed_by_two_samples_in_a_row() {
    let expected = key("cn", "1");
    let sample = |current: Option<AccountKey>| {
        AccountSample::Catalog(Ok(AccountCatalog { accounts: vec![], current_account_key: current }))
    };
    let mut watch = wait_for_account(&expected);
    for current in [Some(expected.clone()), None, Some(expected.clone())] {
        match watch.resume(sample(current)) {
            Step::Perform { operation, .. } => watch = operation,
            Step::Finished(_) => panic!("ended too early"),
        }
    }
    assert!(matches!(watch.resume(sample(Some(expected.clone()))), Step::Finished(Ok(()))));
    assert!(matches!(
        wait_for_account(&expected).resume(AccountSample::NotRunning),
        Step::Finished(Err(_))
    ));
    assert!(matches!(
        wait_for_account(&expected).resume(AccountSample::OutOfTime),
        Step::Finished(Err(_))
    ));
}

#[test]
fn saved_accounts_are_ready_expired_or_missing() {
    let summary = SnapshotSummary { last_saved_at: 3 };
    assert_eq!(saved_status(Ok(Some(summary)), Ok(())), (SnapshotStatus::Ready, Some(3), None));
    assert_eq!(saved_status(Ok(None), Ok(())).0, SnapshotStatus::Missing);
    let broken = saved_status(Ok(Some(summary)), Err(AppError::Snapshot("坏".into())));
    assert_eq!(broken.0, SnapshotStatus::Expired);
    assert_eq!(broken.1, Some(3));
    assert!(broken.2.unwrap().contains("坏"));
    assert_eq!(saved_status(Err(AppError::OperationBusy), Ok(())).0, SnapshotStatus::Expired);
    assert_eq!(
        resolved_client_path(Some(Ok("C:\\a".into())), Some("C:\\b".into())).as_deref(),
        Some("C:\\a")
    );
    assert_eq!(
        resolved_client_path(Some(Err(AppError::InvalidClientExecutable)), Some("C:\\b".into()))
            .as_deref(),
        Some("C:\\b")
    );
    assert_eq!(resolved_client_path(None, None), None);
    assert!(combine_errors(AppError::Login("一".into()), AppError::Login("二".into()))
        .message()
        .contains("二"));
}

#[test]
fn long_configurations_are_searched_and_cleared() {
    let items = vec!["{\"Path\":\"C:\\\\Battle.net\"}"; 200_000].join(",");
    let config = format!("{{\"SavedAccountNames\":\"a@b\",\"list\":[{items}]}}").into_bytes();
    let mut candidates = Vec::new();
    paths::collect_config_candidates(&Some(config.clone()), &mut candidates);
    assert_eq!(candidates.len(), 200_000);
    assert_eq!(candidates[0], r"C:\Battle.net");
    assert!(saved_account_names_present(&config).unwrap());
    let cleared = clear_saved_account_names(&config).unwrap();
    assert!(!saved_account_names_present(&cleared).unwrap());
    let entries: Vec<String> = (0..200_000).map(|i| format!("\"k{i}\":{i}")).collect();
    let config = format!("{{{},\"SavedAccountNames\":[\"a@b\"]}}", entries.join(",")).into_bytes();
    assert!(saved_account_names_present(&config).unwrap());
    let cleared = clear_saved_account_names(&config).unwrap();
    assert!(!saved_account_names_present(&cleared).unwrap());
}

#[test]
fn configurations_with_fractions_name_no_account_once_cleared() {
    let config = br#"{"scale":1.1,"huge":1.7976931348623157e308,"SavedAccountNames":"a@b","x":{"y":[0.1,"t",null]}}"#;
    let cleared = clear_saved_account_names(&config.to_vec()).unwrap();
    let value: serde_json::Value = serde_json::from_slice(&cleared).unwrap();
    assert_eq!(value["SavedAccountNames"], "");
    assert_eq!(value["x"]["y"][1], "t");
    assert!(value["scale"].is_f64());
    assert!(!saved_account_names_present(&cleared).unwrap());
}
