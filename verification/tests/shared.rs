//! What both platforms share: accounts, the client's database, the kept documents and the
//! completion of a login.

use bnetswitchlite::account_reader::after_backup_step;
use bnetswitchlite::account_reader::copy_database_with_timeout;
use bnetswitchlite::account_reader::read_catalog_from_connection;
use bnetswitchlite::account_reader::value_as_id;
use bnetswitchlite::account_reader::BackupAction;
use bnetswitchlite::account_reader::BackupStep;
use bnetswitchlite::account_reader::CacheFacts;
use bnetswitchlite::account_reader::CacheRow;
use bnetswitchlite::account_reader::CellValue;
use bnetswitchlite::account_reader::IdCell;
use bnetswitchlite::account_reader::RowsError;
use bnetswitchlite::contracts::AccountCatalog;
use bnetswitchlite::contracts::AccountKey;
use bnetswitchlite::contracts::DiscoveredAccount;
use bnetswitchlite::contracts::LoginCancellationStatus;
use bnetswitchlite::contracts::LoginIntent;
use bnetswitchlite::contracts::LoginRegion;
use bnetswitchlite::contracts::SnapshotStatus;
use bnetswitchlite::data_store::reject_reparse_data_directory;
use bnetswitchlite::data_store::verify_writable;
use bnetswitchlite::data_store::write_probe_name;
use bnetswitchlite::data_store::DataStore;
use bnetswitchlite::data_store::DirectoryPart;
use bnetswitchlite::data_store::HiddenAccountKey;
use bnetswitchlite::data_store::HiddenAccounts;
use bnetswitchlite::data_store::HiddenAccountsDocument;
use bnetswitchlite::data_store::SettingsDocument;
use bnetswitchlite::data_store::StoredDocument;
use bnetswitchlite::data_store::WrittenDocument;
use bnetswitchlite::error::AppError;
use bnetswitchlite::login_completion::LoginCompletionRegistry;
use bnetswitchlite::outside::is_uuid;
use bnetswitchlite::outside::new_id;
use bnetswitchlite::outside::sha256;
use bnetswitchlite::property_list::text_in;
use bnetswitchlite::service_common::account_snapshots;
use bnetswitchlite::service_common::directory_fingerprint;
use bnetswitchlite::service_common::login_evidence_ready;
use bnetswitchlite::service_common::region_label;
use bnetswitchlite::service_common::FileStamp;
use bnetswitchlite::service_common::Stability;
use bnetswitchlite::service_common::StabilityWatch;
use bnetswitchlite::service_common::WatchedEntry;
use bnetswitchlite::text;
use rusqlite::types::ValueRef;
use rusqlite::Connection;

fn account(environment: &str, account_id: &str) -> AccountKey {
    AccountKey { environment: environment.into(), account_id: account_id.into() }
}

fn hidden_key(environment: &str, account_id: &str) -> HiddenAccountKey {
    HiddenAccountKey { environment: environment.into(), account_id: account_id.into() }
}

fn columns_of(connection: &Connection, table: &str) -> Result<Vec<String>, String> {
    let mut statement = connection
        .prepare(&format!("PRAGMA table_info({table})"))
        .map_err(|error| error.to_string())?;
    let columns = statement
        .query_map([], |row| row.get::<_, String>(1))
        .map_err(|error| error.to_string())?
        .collect::<Result<Vec<_>, _>>()
        .map_err(|error| error.to_string());
    columns
}

fn id_cell(row: &rusqlite::Row<'_>, index: usize, name: &str) -> Result<IdCell, rusqlite::Error> {
    let value = row.get_ref(index)?;
    let type_error =
        rusqlite::Error::InvalidColumnType(index, name.into(), value.data_type()).to_string();
    let value = match value {
        ValueRef::Integer(value) => CellValue::Integer(value),
        ValueRef::Real(value) if value.fract() == 0.0 => {
            CellValue::Real(Some(format!("{value:.0}")))
        }
        ValueRef::Real(_) => CellValue::Real(None),
        ValueRef::Text(bytes) => {
            CellValue::Text(std::str::from_utf8(bytes).ok().map(str::to_owned))
        }
        _ => CellValue::Other,
    };
    Ok(IdCell { value, type_error })
}

fn text_column(row: &rusqlite::Row<'_>, index: usize) -> Result<Option<String>, String> {
    row.get::<_, Option<String>>(index).map_err(|error| error.to_string())
}

fn cached_rows(connection: &Connection) -> Result<Vec<Result<CacheRow, String>>, RowsError> {
    let mut statement = connection
        .prepare(
            "SELECT name, environment, battle_tag, account_id_hi, account_id_lo FROM login_cache",
        )
        .map_err(|error| RowsError::Unsupported(error.to_string()))?;
    let rows = statement
        .query_map([], |row| {
            Ok(CacheRow {
                account_id_hi: id_cell(row, 3, "account_id_hi")?,
                account_id_lo: id_cell(row, 4, "account_id_lo")?,
                environment: text_column(row, 1),
                name: text_column(row, 0),
                battle_tag: text_column(row, 2),
            })
        })
        .map_err(|error| RowsError::Failed(error.to_string()))?;
    Ok(rows.map(|row| row.map_err(|error| error.to_string())).collect())
}

fn active_values(connection: &Connection) -> Result<Vec<Result<String, String>>, String> {
    let mut statement = connection
        .prepare("SELECT value FROM key_value_store WHERE key = 'features_cached_data_points'")
        .map_err(|error| error.to_string())?;
    let values = statement
        .query_map([], |row| row.get::<_, String>(0))
        .map_err(|error| error.to_string())?;
    Ok(values.map(|value| value.map_err(|error| error.to_string())).collect())
}

fn read_catalog(connection: &Connection) -> Result<AccountCatalog, AppError> {
    read_catalog_from_connection(&CacheFacts {
        login_columns: columns_of(connection, "login_cache"),
        store_columns: columns_of(connection, "key_value_store"),
        rows: cached_rows(connection),
        active_values: active_values(connection),
    })
}

fn database(rows: &str) -> Connection {
    let connection = Connection::open_in_memory().unwrap();
    connection
        .execute_batch(
            "CREATE TABLE login_cache(name TEXT, environment TEXT, battle_tag TEXT, account_id_hi INTEGER, account_id_lo INTEGER);\
             CREATE TABLE key_value_store(key TEXT, value TEXT);",
        )
        .unwrap();
    connection.execute_batch(rows).unwrap();
    connection
}

#[test]
fn reads_accounts_and_active_account_from_fixture() {
    let connection = database(
        "INSERT INTO login_cache VALUES('one', 'cn', 'Test#1234', 7, 42);\
         INSERT INTO key_value_store VALUES('features_cached_data_points', '{\"account_id\":42}');",
    );

    let catalog = read_catalog(&connection).unwrap();
    assert_eq!(catalog.accounts.len(), 1);
    assert_eq!(catalog.accounts[0].battle_tag, "Test#1234");
    assert_eq!(catalog.current_account_key.unwrap().account_id, "7:42");
}

#[test]
fn rejects_ambiguous_active_account_across_environments() {
    let connection = database(
        "INSERT INTO login_cache VALUES('one', 'CN', 'One#1', 7, 42);\
         INSERT INTO login_cache VALUES('two', 'global', 'Two#2', 8, 42);\
         INSERT INTO key_value_store VALUES('features_cached_data_points', '{\"account_id\":42}');",
    );

    assert!(read_catalog(&connection).is_err());
}

#[test]
fn rejects_conflicting_active_account_rows() {
    let connection = database(
        "INSERT INTO login_cache VALUES('one', 'cn', 'One#1', 7, 42);\
         INSERT INTO login_cache VALUES('two', 'cn', 'Two#2', 8, 43);\
         INSERT INTO key_value_store VALUES('features_cached_data_points', '{\"account_id\":42}');\
         INSERT INTO key_value_store VALUES('features_cached_data_points', '{\"account_id\":43}');",
    );

    assert!(read_catalog(&connection).is_err());
}

#[test]
fn accepts_duplicate_identical_active_account_rows() {
    let connection = database(
        "INSERT INTO login_cache VALUES('one', 'cn', 'One#1', 7, 42);\
         INSERT INTO key_value_store VALUES('features_cached_data_points', '{\"account_id\":42}');\
         INSERT INTO key_value_store VALUES('features_cached_data_points', '{\"account_id\":42}');",
    );

    let catalog = read_catalog(&connection).unwrap();
    assert_eq!(catalog.current_account_key.unwrap().account_id, "7:42");
}

#[test]
fn backup_has_a_total_deadline() {
    let error = copy_database_with_timeout(0, 0).unwrap_err().message();
    assert!(error.contains("数据库正忙"));
    assert!(copy_database_with_timeout(499, 500).is_ok());
    assert!(copy_database_with_timeout(500, 500).is_err());
}

#[test]
fn backup_steps_lead_to_actions() {
    assert_eq!(after_backup_step(Ok(BackupStep::Done)).unwrap(), BackupAction::Finish);
    assert_eq!(after_backup_step(Ok(BackupStep::More)).unwrap(), BackupAction::Continue);
    assert_eq!(after_backup_step(Ok(BackupStep::Busy)).unwrap(), BackupAction::Pause);
    assert_eq!(after_backup_step(Ok(BackupStep::Locked)).unwrap(), BackupAction::Pause);
    assert!(matches!(
        after_backup_step(Ok(BackupStep::Unknown)),
        Err(AppError::AccountDatabase(message)) if message.contains("不支持的备份状态")
    ));
    assert!(matches!(
        after_backup_step(Err("disk".into())),
        Err(AppError::AccountDatabase(message)) if message == "disk"
    ));
}

#[test]
fn catalog_is_ordered_and_leaves_out_unusable_rows() {
    let connection = database(
        "INSERT INTO login_cache VALUES('later', ' US ', 'Later#1', 1, 2);\
         INSERT INTO login_cache VALUES('zero', 'cn', 'Zero#1', 1, 0);\
         INSERT INTO login_cache VALUES('blank', '  ', 'Blank#1', 1, 3);\
         INSERT INTO login_cache VALUES(NULL, 'cn', '  ', 5, 9);\
         INSERT INTO login_cache VALUES(' again ', 'CN', ' Again#7 ', '5', '9');",
    );
    let catalog = read_catalog(&connection).unwrap();
    assert_eq!(catalog.accounts.len(), 2);
    assert_eq!(catalog.accounts[0].key, account("cn", "5:9"));
    assert_eq!(catalog.accounts[0].internal_name, "again");
    assert_eq!(catalog.accounts[0].battle_tag, "Again#7");
    assert_eq!(catalog.accounts[1].key, account("us", "1:2"));
    assert!(catalog.current_account_key.is_none());
}

#[test]
fn database_without_the_tables_is_incompatible() {
    let connection = Connection::open_in_memory().unwrap();
    assert!(matches!(
        read_catalog(&connection),
        Err(AppError::AccountDatabaseIncompatible(message)) if message == "表 login_cache 缺少必要字段"
    ));
    connection
        .execute_batch(
            "CREATE TABLE login_cache(name TEXT, environment TEXT, battle_tag TEXT, account_id_hi INTEGER, account_id_lo INTEGER);\
             CREATE TABLE key_value_store(key TEXT);",
        )
        .unwrap();
    assert!(matches!(
        read_catalog(&connection),
        Err(AppError::AccountDatabaseIncompatible(message)) if message == "表 key_value_store 缺少必要字段"
    ));
}

#[test]
fn active_account_has_to_be_valid_json() {
    let connection = database(
        "INSERT INTO login_cache VALUES('one', 'cn', 'One#1', 7, 42);\
         INSERT INTO key_value_store VALUES('features_cached_data_points', 'not json');",
    );
    assert!(matches!(
        read_catalog(&connection),
        Err(AppError::AccountDatabaseIncompatible(message))
            if message.starts_with("当前账号字段不是有效 JSON：")
    ));
    let connection = database(
        "INSERT INTO login_cache VALUES('one', 'cn', 'One#1', 7, 42);\
         INSERT INTO key_value_store VALUES('features_cached_data_points', '{\"account_id\":\"42\"}');\
         INSERT INTO key_value_store VALUES('features_cached_data_points', '{\"other\":1}');",
    );
    assert!(matches!(
        read_catalog(&connection),
        Err(AppError::AccountDatabaseIncompatible(message)) if message.contains("互相矛盾")
    ));
}

#[test]
fn ids_are_read_from_numbers_and_texts() {
    assert_eq!(value_as_id(&CellValue::Integer(-7)).unwrap(), "-7");
    assert_eq!(value_as_id(&CellValue::Integer(i64::MIN)).unwrap(), "-9223372036854775808");
    assert_eq!(value_as_id(&CellValue::Text(Some("x".into()))).unwrap(), "x");
    assert_eq!(value_as_id(&CellValue::Real(Some("12".into()))).unwrap(), "12");
    assert!(value_as_id(&CellValue::Real(None)).is_none());
    assert!(value_as_id(&CellValue::Other).is_none());
}

#[test]
fn login_regions_match_battle_net_environment_hosts() {
    for (environment, expected) in [
        ("cn.actual.battlenet.com.cn", LoginRegion::China),
        ("kr.actual.battle.net", LoginRegion::Asia),
        ("eu.actual.battle.net", LoginRegion::Europe),
        ("us.actual.battle.net", LoginRegion::Americas),
    ] {
        assert_eq!(LoginRegion::from_environment(environment), Some(expected));
        assert!(expected.matches_environment(environment));
    }
    assert_eq!(LoginRegion::from_environment("global"), None);
    assert_eq!(LoginRegion::from_environment("tw.actual.battle.net"), None);
    assert_eq!(LoginRegion::from_environment("kr.invalid.example"), None);
    assert_eq!(LoginRegion::from_environment("us.anything"), None);
}

#[test]
fn reauthentication_derives_the_login_region_from_the_account_key() {
    let intent = LoginIntent::Reauthenticate { account_key: account("eu.actual.battle.net", "1:2") };
    assert_eq!(intent.requested_region(), Some(LoginRegion::Europe));

    let legacy = LoginIntent::Reauthenticate { account_key: account("global", "1:2") };
    assert_eq!(legacy.requested_region(), None);
}

#[test]
fn settings_round_trip_in_executable_directory() {
    let store = DataStore::open_for_windows("C:\\Tool");
    assert_eq!(store.data_directory(), "C:\\Tool\\BnetSwitchLiteData");
    let saved = SettingsDocument {
        version: 1,
        client_executable_path: Some("C:\\Battle.net\\Battle.net.exe".into()),
    };
    assert!(store.saved_settings(&WrittenDocument::Done).is_ok());

    let settings = store.load_settings(StoredDocument::Present(saved)).unwrap();
    assert_eq!(
        settings.client_executable_path.as_deref(),
        Some("C:\\Battle.net\\Battle.net.exe")
    );
}

#[test]
fn data_directory_is_always_next_to_executable() {
    let store = DataStore::open_for_windows("D:\\Apps");
    assert_eq!(store.data_directory(), "D:\\Apps\\BnetSwitchLiteData");
}

#[test]
fn detecting_accounts_restores_only_accounts_still_in_battle_net() {
    let store = DataStore::open_for_windows("C:\\Tool");
    let present = hidden_key("us.actual.battle.net", "1:2");
    let absent = hidden_key("cn.actual.battlenet.com.cn", "3:4");
    let hidden = HiddenAccounts::new().with(present.clone()).with(absent.clone());
    let document = store.save_hidden_accounts(&hidden);

    let remaining = store
        .restore_detected_accounts(&vec![present.clone()], &StoredDocument::Present(document))
        .unwrap();

    assert!(remaining.hidden.contains(&absent));
    assert!(!remaining.hidden.contains(&present));
    let loaded = store
        .load_hidden_accounts(&StoredDocument::Present(remaining.document.unwrap()))
        .unwrap();
    assert_eq!(loaded.to_sorted(), vec![absent]);
}

#[test]
fn hidden_accounts_are_kept_in_order_and_read_back() {
    let store = DataStore::open_for_macos("/Users/me/Library/Application Support");
    let hidden = HiddenAccounts::new()
        .with(hidden_key("us", "2"))
        .with(hidden_key("cn", "9"))
        .with(hidden_key("us", "1"))
        .with(hidden_key("cn", "9"));
    let document = store.save_hidden_accounts(&hidden);
    assert_eq!(
        document.accounts,
        vec![hidden_key("cn", "9"), hidden_key("us", "1"), hidden_key("us", "2")]
    );
    let loaded = store.load_hidden_accounts(&StoredDocument::Present(document)).unwrap();
    assert_eq!(loaded.to_sorted(), hidden.to_sorted());
    assert_eq!(loaded.without(&hidden_key("us", "1")).to_sorted().len(), 2);
}

#[test]
fn nothing_is_written_where_no_hidden_account_was_detected() {
    let store = DataStore::open_for_windows("C:\\Tool");
    let document = store.save_hidden_accounts(&HiddenAccounts::new().with(hidden_key("cn", "1")));
    let restored = store
        .restore_detected_accounts(
            &vec![hidden_key("us", "1")],
            &StoredDocument::Present(document),
        )
        .unwrap();
    assert!(restored.document.is_none());
    assert!(restored.hidden.contains(&hidden_key("cn", "1")));
}

#[test]
fn documents_that_cannot_be_read_are_reported() {
    let store = DataStore::open_for_windows("C:\\Tool");
    assert!(store.load_hidden_accounts(&StoredDocument::Missing).unwrap().to_sorted().is_empty());
    assert!(store.load_hidden_accounts(&StoredDocument::Unreadable("no".into())).is_err());
    assert!(store.load_hidden_accounts(&StoredDocument::Invalid("bad".into())).is_err());
    let newer = HiddenAccountsDocument { version: 2, accounts: vec![] };
    assert!(store.load_hidden_accounts(&StoredDocument::Present(newer)).is_err());

    let settings = store.load_settings(StoredDocument::Missing).unwrap();
    assert_eq!(settings.version, 1);
    assert!(settings.client_executable_path.is_none());
    assert_eq!(
        store.load_settings(StoredDocument::Unreadable("no".into())).unwrap_err(),
        "无法读取设置：no"
    );
    assert_eq!(
        store.load_settings(StoredDocument::Invalid("bad".into())).unwrap_err(),
        "设置文件格式无效：bad"
    );
    assert_eq!(
        store
            .load_settings(StoredDocument::Present(SettingsDocument {
                version: 7,
                client_executable_path: None,
            }))
            .unwrap_err(),
        "不支持的设置文件版本：7"
    );
    assert!(store.saved_settings(&WrittenDocument::NotGenerated("a".into())).is_err());
    assert!(store.saved_settings(&WrittenDocument::NotWritten("b".into())).is_err());
    assert!(store.saved_hidden_accounts(&WrittenDocument::NotWritten("b".into())).is_err());
    assert!(store.saved_hidden_accounts(&WrittenDocument::Done).is_ok());
}

#[test]
fn data_directory_may_not_lie_behind_a_link() {
    let plain = |attributes| DirectoryPart { path: "C:\\Tool".into(), attributes };
    assert!(reject_reparse_data_directory(&vec![plain(Ok(0x10))]).is_ok());
    assert!(reject_reparse_data_directory(&vec![plain(Ok(0x10)), plain(Ok(0x410))]).is_err());
    assert!(reject_reparse_data_directory(&vec![plain(Err("denied".into()))]).is_err());
    assert!(verify_writable("C:\\Tool", "请移动", Ok(())).is_ok());
    assert_eq!(
        verify_writable("C:\\Tool", "请移动", Err("denied".into())).unwrap_err(),
        "应用数据目录不可写。请移动：C:\\Tool（denied）"
    );
    assert!(write_probe_name(12, 34).contains("12"));
    assert!(write_probe_name(12, 34).contains("34"));
}

#[test]
fn starting_cancellation_is_accepted_and_prevents_commit() {
    let mut registry = LoginCompletionRegistry::default();
    let token = registry.begin("login-1".into()).unwrap();

    assert!(matches!(
        registry.request_cancellation("login-1").unwrap(),
        LoginCancellationStatus::Accepted
    ));
    token.activate(&mut registry).unwrap();
    assert!(token.cancellation_requested(&registry));
    assert!(!token.begin_commit(&mut registry));
    assert!(token.begin_rollback(&mut registry));
    assert!(token.was_cancelled(&registry));
    registry.finish(&token).unwrap();
}

#[test]
fn commit_point_rejects_late_cancellation() {
    let mut registry = LoginCompletionRegistry::default();
    let token = registry.begin("login-1".into()).unwrap();

    token.activate(&mut registry).unwrap();
    assert!(token.begin_commit(&mut registry));
    assert!(matches!(
        registry.request_cancellation("login-1").unwrap(),
        LoginCancellationStatus::TooLate
    ));
    registry.finish(&token).unwrap();
}

#[test]
fn cancellation_is_scoped_to_the_active_session() {
    let mut registry = LoginCompletionRegistry::default();
    let token = registry.begin("login-1".into()).unwrap();

    token.activate(&mut registry).unwrap();
    assert!(matches!(
        registry.request_cancellation("login-2").unwrap(),
        LoginCancellationStatus::TooLate
    ));
    assert!(!token.cancellation_requested(&registry));
    registry.finish(&token).unwrap();
}

#[test]
fn cancellation_waits_for_completion_registration() {
    let mut registry = LoginCompletionRegistry::default();

    assert!(matches!(
        registry.request_cancellation("login-1").unwrap(),
        LoginCancellationStatus::Starting
    ));
}

#[test]
fn cancellation_wins_a_precommit_error_race() {
    let mut registry = LoginCompletionRegistry::default();
    let token = registry.begin("login-1".into()).unwrap();
    token.activate(&mut registry).unwrap();
    assert!(matches!(
        registry.request_cancellation("login-1").unwrap(),
        LoginCancellationStatus::Accepted
    ));

    assert!(token.resolve_precommit_error(&mut registry));
    assert!(token.was_cancelled(&registry));
    registry.finish(&token).unwrap();
}

#[test]
fn precommit_error_rejects_a_late_cancellation() {
    let mut registry = LoginCompletionRegistry::default();
    let token = registry.begin("login-1".into()).unwrap();
    token.activate(&mut registry).unwrap();

    assert!(!token.resolve_precommit_error(&mut registry));
    assert!(matches!(
        registry.request_cancellation("login-1").unwrap(),
        LoginCancellationStatus::TooLate
    ));
    registry.finish(&token).unwrap();
}

#[test]
fn operation_failure_claims_the_precommit_rollback_once() {
    let mut registry = LoginCompletionRegistry::default();
    let token = registry.begin("login-1".into()).unwrap();
    token.activate(&mut registry).unwrap();

    assert!(token.begin_failure_rollback(&mut registry));
    assert!(!token.begin_failure_rollback(&mut registry));
    assert!(matches!(
        registry.request_cancellation("login-1").unwrap(),
        LoginCancellationStatus::Accepted
    ));
    registry.finish(&token).unwrap();
}

#[test]
fn one_completion_at_a_time() {
    let mut registry = LoginCompletionRegistry::default();
    let token = registry.begin("login-1".into()).unwrap();
    assert!(registry.begin("login-2".into()).is_err());
    registry.finish(&token).unwrap();
    let next = registry.begin("login-2".into()).unwrap();
    assert!(!token.begin_commit(&mut registry));
    next.activate(&mut registry).unwrap();
    assert!(next.begin_commit(&mut registry));
    registry.finish(&next).unwrap();
}

#[test]
fn login_evidence_requires_authentication_and_exact_target() {
    let expected = account("us.actual.battle.net", "2");
    assert!(login_evidence_ready(true, Some(&expected), &expected));
    assert!(!login_evidence_ready(false, Some(&expected), &expected));
    assert!(!login_evidence_ready(true, None, &expected));
    assert!(!login_evidence_ready(true, Some(&account("us.actual.battle.net", "3")), &expected));
    assert!(!login_evidence_ready(true, Some(&account("eu.actual.battle.net", "2")), &expected));
}

#[test]
fn region_labels_cover_shared_battle_net_environments() {
    assert_eq!(region_label("cn.actual.battlenet.com.cn"), "国服");
    assert_eq!(region_label("cn.actual.battle.net.cn"), "国服");
    assert_eq!(region_label("global"), "国际服");
    assert_eq!(region_label("kr.actual.battle.net"), "亚服");
    assert_eq!(region_label("us.actual.battle.net"), "美服");
    assert_eq!(region_label("eu.actual.battle.net"), "欧服");
    assert_eq!(region_label("tw.actual.battle.net"), "台服");
    assert_eq!(region_label("unknown.example"), "未知区服");
}

#[test]
fn hidden_accounts_are_not_shown_and_blank_tags_fall_back() {
    let found = |id: &str, tag: &str| DiscoveredAccount {
        key: account("eu.actual.battle.net", id),
        internal_name: "internal".into(),
        battle_tag: tag.into(),
    };
    let hidden = HiddenAccounts::new().with(hidden_key("eu.actual.battle.net", "2"));
    let shown = account_snapshots(
        &vec![found("1", "Tag#1"), found("2", "Tag#2"), found("3", "  ")],
        &hidden,
        |key: &AccountKey| {
            if key.account_id == "1" {
                (SnapshotStatus::Ready, Some(5), None)
            } else {
                (SnapshotStatus::Missing, None, Some("note".to_owned()))
            }
        },
    );
    assert_eq!(shown.len(), 2);
    assert_eq!(shown[0].id, "eu.actual.battle.net:1");
    assert_eq!(shown[0].battle_tag, "Tag#1");
    assert_eq!(shown[0].region, "欧服");
    assert_eq!(shown[0].snapshot_status, SnapshotStatus::Ready);
    assert_eq!(shown[0].last_saved_at, Some(5));
    assert_eq!(shown[1].battle_tag, "internal");
    assert_eq!(shown[1].note.as_deref(), Some("note"));
}

fn stamp(name: &str, size: u64) -> FileStamp {
    FileStamp { name: name.into(), size, modified: 1 }
}

#[test]
fn directory_settles_after_two_equal_samples() {
    let watch = StabilityWatch::new(vec![stamp("a", 1)]);
    assert!(watch.may_go_on(5999, 6000));
    assert!(!watch.may_go_on(6000, 6000));
    let Stability::Watching(watch) = watch.wait_for_stable(vec![stamp("a", 1)]) else {
        panic!("settled too early");
    };
    let Stability::Watching(watch) = watch.wait_for_stable(vec![stamp("a", 2)]) else {
        panic!("a change was overlooked");
    };
    let Stability::Watching(watch) = watch.wait_for_stable(vec![stamp("a", 2)]) else {
        panic!("settled too early");
    };
    assert!(matches!(watch.wait_for_stable(vec![stamp("a", 2)]), Stability::Stable));
}

#[test]
fn fingerprint_lists_files_in_order() {
    let entry = |name: &str, is_file| WatchedEntry { is_file, stamp: stamp(name, 3) };
    let left = directory_fingerprint(vec![entry("b", true), entry("dir", false), entry("a", true)]);
    let right = directory_fingerprint(vec![entry("a", true), entry("b", true)]);
    assert_eq!(left.len(), 2);
    assert_eq!(left[0].name, "a");
    assert_eq!(left[1].name, right[1].name);
}

#[test]
fn errors_are_told_and_nested() {
    assert_eq!(AppError::Message("直接".into()).message(), "直接");
    assert_eq!(AppError::Login("内层".into()).nested_message(), "内层");
    assert_ne!(AppError::Login("内层".into()).message(), "内层");
    assert!(!AppError::OperationBusy.message().is_empty());
}

#[test]
fn digests_and_ids_come_from_the_outside() {
    assert_eq!(
        sha256(&b"abc".to_vec()),
        "ba7816bf8f01cfea414140de5dae2223b00361a396177a9cb410ff61f20015ad"
    );
    let id = new_id();
    assert!(is_uuid(&id));
    assert_ne!(id, new_id());
    assert!(!is_uuid("not an id"));
}

#[test]
fn property_lists_are_read() {
    let list = br#"<?xml version="1.0" encoding="UTF-8"?>
<!DOCTYPE plist PUBLIC "-//Apple//DTD PLIST 1.0//EN" "http://www.apple.com/DTDs/PropertyList-1.0.dtd">
<plist version="1.0"><dict>
<key>CFBundleIdentifier</key><string>net.battle.app</string>
<key>Number</key><integer>3</integer>
</dict></plist>"#;
    assert_eq!(text_in(&list.to_vec(), "CFBundleIdentifier").as_deref(), Some("net.battle.app"));
    assert!(text_in(&list.to_vec(), "Number").is_none());
    assert!(text_in(&list.to_vec(), "Missing").is_none());
    assert!(text_in(&b"nothing".to_vec(), "CFBundleIdentifier").is_none());
}

#[test]
fn finishing_a_completion_makes_room_for_the_next() {
    let mut registry = LoginCompletionRegistry::default();
    let first = registry.begin("one".into()).unwrap();
    assert!(matches!(registry.begin("two".into()), Err(AppError::OperationBusy)));
    registry.finish(&first).unwrap();
    assert_eq!(registry.request_cancellation("one").unwrap(), LoginCancellationStatus::Starting);
    let second = registry.begin("two".into()).unwrap();
    registry.finish(&first).unwrap();
    assert!(second.activate(&mut registry).is_ok());
    assert_eq!(registry.request_cancellation("two").unwrap(), LoginCancellationStatus::Accepted);
}

fn list_with(middle: &str) -> Vec<u8> {
    format!(
        "<plist version=\"1.0\"><dict><key>A</key><string>first</string>{middle}<key>B</key><string>second</string></dict></plist>"
    )
    .into_bytes()
}

#[test]
fn property_lists_with_dates_are_read() {
    for date in [
        "<date>2024-05-16T11:32:06Z</date>",
        "<date>9999-12-30T23:59:59-23:59</date>",
        "<date>0001-01-01T00:00:00Z</date>",
        "<x:date>2024-05-16T11:32:06+08:00</x:date>",
        "<date >2024&#45;05-16T11:32:06Z</date>",
    ] {
        let list = list_with(&format!("<key>D</key>{date}"));
        assert_eq!(text_in(&list, "A").as_deref(), Some("first"), "{date}");
        assert_eq!(text_in(&list, "B").as_deref(), Some("second"), "{date}");
        assert!(text_in(&list, "D").is_none());
    }
    let nested = list_with("<key>D</key><dict><key>C</key><string>inside</string></dict>");
    assert_eq!(text_in(&nested, "B").as_deref(), Some("second"));
    assert!(text_in(&nested, "C").is_none());
    assert!(text_in(&nested, "D").is_none());
}

#[test]
fn property_lists_without_tags_are_read() {
    let text = "<a\"b <date>9999-12-31T23:59:59-01:00</date>";
    let mut dictionary = plist::Dictionary::new();
    dictionary.insert("A".into(), plist::Value::String(text.into()));
    let mut binary = Vec::new();
    plist::Value::Dictionary(dictionary).to_writer_binary(&mut binary).unwrap();
    assert_eq!(text_in(&binary, "A").as_deref(), Some(text));
    let ascii = b"{ A = 'x <date>9999-12-31'; B = \"<a\"; }".to_vec();
    assert_eq!(text_in(&ascii, "A").as_deref(), Some("x <date>9999-12-31"));
    assert_eq!(text_in(&ascii, "B").as_deref(), Some("<a"));
}

#[test]
fn property_lists_with_dates_past_the_last_year_give_nothing() {
    for date in [
        "<date>9999-12-31T23:59:59-01:00</date>",
        "<date>&#57;999-12-31T23:59:59-01:00</date>",
        "<date>9999<!-- -->-12-31T23:59:59-01:00</date>",
        "<date><![CDATA[]]>9999-12-31T23:59:59-01:00</date>",
        "<date a=\">\">9999-12-31T23:59:59-01:00</date>",
        "<x:date\t>9999-12-31T23:59:59-01:00</x:date>",
        "<\"x>\"y:date>9999-12-31T23:59:59-01:00</\"x>\"y:date>",
    ] {
        let list = list_with(&format!("<key>D</key>{date}"));
        assert!(text_in(&list, "A").is_none(), "{date}");
        assert!(text_in(&list, "B").is_none(), "{date}");
    }
}

#[test]
fn texts_are_handled_like_strings() {
    assert_eq!(text::trim("  a b\u{3000}"), "a b");
    assert_eq!(text::to_ascii_lowercase("ÀBc"), "Àbc");
    assert_eq!(text::decimal_text(u64::MAX), u64::MAX.to_string());
    assert_eq!(text::signed_decimal_text(-40), "-40");
    assert_eq!(text::hex4_text(0x04b0), format!("{:04x}", 0x04b0));
    assert_eq!(text::octal4_text(0o600), "0600");
    assert_eq!(text::strip_prefix("--a", "--").as_deref(), Some("a"));
    assert_eq!(text::bytes_of("战网"), "战网".as_bytes().to_vec());
    let units: Vec<u16> = "网😀".encode_utf16().collect();
    assert_eq!(text::decode_utf16(&units, None).as_deref(), Some("网😀"));
    assert!(text::decode_utf16(&vec![0xd800], None).is_none());
    assert_eq!(text::decode_utf16(&vec![0xd800], Some('?')).as_deref(), Some("?"));
    assert!(text::same_ignoring_case("Battle.NET", "battle.net"));
}

#[test]
fn account_ids_name_the_environment_and_the_account() {
    let id = |environment: &str, account_id: &str| {
        AccountKey { environment: environment.into(), account_id: account_id.into() }.stable_id()
    };
    assert_eq!(id("cn.actual.battle.net", "42"), "cn.actual.battle.net:42");
    assert_ne!(id("cn.actual.battle.net", "42"), id("cn.actual.battle.net", "43"));
    assert_ne!(id("cn.actual.battle.net", "42"), id("us.actual.battle.net", "42"));
    assert_ne!(id("a", "12"), id("a1", "2"));
}
