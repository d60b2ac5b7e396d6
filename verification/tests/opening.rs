//! Paths, and opening the directories that the application works with.

use bnetswitchlite::data_store::DataStore;
use bnetswitchlite::data_store::DirectoryPart;
use bnetswitchlite::error::AppError;
use bnetswitchlite::login_completion::LoginCompletionRegistry;
use bnetswitchlite::platform::macos::opening::OpenAccounts as MacosAccounts;
use bnetswitchlite::platform::macos::opening::OpenReply as MacosReply;
use bnetswitchlite::platform::macos::opening::OpenStore as MacosStore;
use bnetswitchlite::platform::macos::recovery::CleanupSlot;
use bnetswitchlite::platform::macos::recovery::OpenSlot as MacosSlot;
use bnetswitchlite::platform::macos::recovery::OpenSlotReply as MacosSlotReply;
use bnetswitchlite::platform::macos::recovery::RecoveryReply;
use bnetswitchlite::platform::macos::unix_path;
use bnetswitchlite::platform::macos;
use bnetswitchlite::platform::windows::opening::OpenAccounts as WindowsAccounts;
use bnetswitchlite::platform::windows::opening::OpenReply as WindowsReply;
use bnetswitchlite::platform::windows::opening::OpenRestore as WindowsRestore;
use bnetswitchlite::platform::windows::opening::OpenStore as WindowsStore;
use bnetswitchlite::platform::windows::opening::OpenStoreReply as WindowsStoreReply;
use bnetswitchlite::platform::windows::paths;
use bnetswitchlite::platform::windows::recovery::OpenSlot;
use bnetswitchlite::platform::windows::recovery::OpenSlotReply;
use bnetswitchlite::platform::windows::snapshot_store::SnapshotStore;
use bnetswitchlite::platform::windows;
use bnetswitchlite::step::Step;

/// Gives the answers in turn: the end, or the state in which an answer is awaited.
fn play<O, T, R>(
    first: O,
    replies: Vec<R>,
    resume: impl Fn(O, R) -> Step<O, T>,
) -> Result<Result<T, AppError>, O> {
    let mut state = first;
    for reply in replies {
        match resume(state, reply) {
            Step::Perform { operation, .. } => state = operation,
            Step::Finished(result) => return Ok(result),
        }
    }
    Err(state)
}

fn message<O, T>(end: Result<Result<T, AppError>, O>) -> String {
    match end {
        Ok(Err(error)) => error.message(),
        _ => panic!("did not fail"),
    }
}

#[test]
fn windows_paths_are_joined_with_one_separator() {
    assert_eq!(paths::join("C:\\App", "x"), "C:\\App\\x");
    assert_eq!(paths::join("D:\\", "x"), "D:\\x");
    assert_eq!(paths::join("D:/App/", "x"), "D:/App/x");
    assert_eq!(paths::join("", "x"), "x");
    assert_eq!(paths::join("D:", "x"), "D:x");
    assert_eq!(paths::join("d:", "x"), "d:x");
    assert_eq!(paths::join("1:", "x"), "1:\\x");
    assert_eq!(paths::join("DD:", "x"), "DD:\\x");
}

#[test]
fn unix_paths_are_joined_with_one_separator() {
    assert_eq!(unix_path::join("/Users/me", "x"), "/Users/me/x");
    assert_eq!(unix_path::join("/", "x"), "/x");
    assert_eq!(unix_path::join("/Users/", "x"), "/Users/x");
    assert_eq!(unix_path::join("", "x"), "x");
    assert_eq!(unix_path::join("D:", "x"), "D:/x");
}

#[test]
fn data_directory_in_a_drive_root_has_one_separator() {
    let store = DataStore::open_for_windows("D:\\");
    assert_eq!(store.data_directory(), "D:\\BnetSwitchLiteData");
    assert_eq!(store.settings_path(), "D:\\BnetSwitchLiteData\\settings.json");
    assert_eq!(store.hidden_accounts_path(), "D:\\BnetSwitchLiteData\\hidden-accounts.json");
    assert_eq!(DataStore::open_for_windows("D:").data_directory(), "D:BnetSwitchLiteData");
    assert_eq!(DataStore::open_for_windows("").data_directory(), "BnetSwitchLiteData");
    assert_eq!(DataStore::open_for_macos("/").data_directory(), "/BnetSwitchLite");
    assert_eq!(SnapshotStore::new("D:\\").accounts_directory(), "D:\\accounts");
}

#[test]
fn windows_store_is_opened_where_it_is_usable() {
    let run = |replies: Vec<WindowsStoreReply>| play(windows::opening::open_store(), replies, WindowsStore::resume);
    let located = || WindowsStoreReply::Located(Ok(Some("D:\\".into())));
    let part = |attributes: Result<u32, String>| {
        WindowsStoreReply::Parts(vec![DirectoryPart { path: "D:\\".into(), attributes }])
    };
    let store = run(vec![located(), WindowsStoreReply::Io(Ok(())), part(Ok(0x10)), WindowsStoreReply::Io(Ok(()))]).unwrap().unwrap();
    assert_eq!(store.data_directory(), "D:\\BnetSwitchLiteData");
    assert_eq!(
        message(run(vec![WindowsStoreReply::Located(Err("why".into()))])),
        AppError::DataStorage("无法确定程序所在目录：why".into()).message()
    );
    assert_eq!(
        message(run(vec![WindowsStoreReply::Located(Ok(None))])),
        AppError::DataStorage("无法确定程序所在目录".into()).message()
    );
    assert_eq!(
        message(run(vec![located(), WindowsStoreReply::Io(Err("full".into()))])),
        AppError::DataStorage("无法创建应用数据目录 D:\\BnetSwitchLiteData：full".into()).message()
    );
    assert_eq!(
        message(run(vec![located(), WindowsStoreReply::Io(Ok(())), part(Ok(0x400))])),
        AppError::DataStorage("程序目录或应用数据目录不能经过符号链接或联接点：D:\\".into()).message()
    );
    assert_eq!(
        message(run(vec![located(), WindowsStoreReply::Io(Ok(())), part(Ok(0x10)), WindowsStoreReply::Io(Err("no".into()))])),
        AppError::DataStorage(
            "应用数据目录不可写。请将 BnetSwitchLite 完整目录移动到可写位置后重试：D:\\BnetSwitchLiteData（no）".into()
        )
        .message()
    );
}

#[test]
fn macos_store_is_opened_where_it_is_usable() {
    let run = |replies: Vec<MacosReply>| play(macos::opening::open_store(), replies, MacosStore::resume);
    let located = || MacosReply::Located(Some("/Users/me".into()));
    let opened = run(vec![located(), MacosReply::Secured(Ok(())), MacosReply::Excluded(Ok(())), MacosReply::Written(Ok(()))]);
    assert_eq!(opened.unwrap().unwrap().data_directory(), "/Users/me/BnetSwitchLite");
    assert_eq!(
        message(run(vec![MacosReply::Located(None)])),
        AppError::DataStorage("无法确定当前用户的 Application Support 目录".into()).message()
    );
    assert_eq!(
        message(run(vec![MacosReply::Located(Some("Users/me".into()))])),
        AppError::DataStorage("系统返回了无效的 Application Support 路径".into()).message()
    );
    let unsafe_error = AppError::Message("open".into());
    let reason = unsafe_error.message();
    assert_eq!(
        message(run(vec![located(), MacosReply::Secured(Err(unsafe_error))])),
        AppError::DataStorage(format!("无法安全打开应用数据目录：{reason}")).message()
    );
    assert_eq!(
        message(run(vec![located(), MacosReply::Secured(Ok(())), MacosReply::Excluded(Err("kept".into()))])),
        AppError::DataStorage("kept".into()).message()
    );
    assert_eq!(
        message(run(vec![
            located(),
            MacosReply::Secured(Ok(())),
            MacosReply::Excluded(Ok(())),
            MacosReply::Written(Err("no".into())),
        ])),
        AppError::DataStorage(
            "应用数据目录不可写。请检查当前用户的 Application Support 目录权限：/Users/me/BnetSwitchLite（no）".into()
        )
        .message()
    );
}

#[test]
fn windows_slot_is_opened_after_the_paths_were_checked() {
    let run = |replies: Vec<WindowsReply>| play(WindowsRestore::Creating, replies, WindowsRestore::resume);
    let slot = || {
        vec![
            WindowsReply::Slot(OpenSlotReply::Io(Ok(()))),
            WindowsReply::Slot(OpenSlotReply::Checked(Ok(()))),
            WindowsReply::Slot(OpenSlotReply::Exists(true)),
        ]
    };
    for start in [
        vec![WindowsReply::Io(Ok(())), WindowsReply::Checked(Ok(())), WindowsReply::Exists(false)],
        vec![WindowsReply::Io(Ok(())), WindowsReply::Checked(Ok(())), WindowsReply::Exists(true), WindowsReply::Checked(Ok(()))],
    ] {
        let mut replies = start;
        replies.extend(slot());
        assert!(run(replies).unwrap().is_ok());
    }
    assert!(matches!(
        run(vec![WindowsReply::Io(Ok(())), WindowsReply::Checked(Ok(())), WindowsReply::Exists(false)]),
        Err(WindowsRestore::OpeningSlot { slot: OpenSlot::Creating })
    ));
    assert_eq!(
        message(run(vec![WindowsReply::Io(Err("full".into()))])),
        AppError::Transaction("无法创建便携数据目录：full".into()).message()
    );
    let link = || AppError::Snapshot("link".into());
    assert_eq!(message(run(vec![WindowsReply::Io(Ok(())), WindowsReply::Checked(Err(link()))])), link().message());
    assert_eq!(
        message(run(vec![WindowsReply::Io(Ok(())), WindowsReply::Checked(Ok(())), WindowsReply::Exists(true), WindowsReply::Checked(Err(link()))])),
        link().message()
    );
    let mut replies = vec![WindowsReply::Io(Ok(())), WindowsReply::Checked(Ok(())), WindowsReply::Exists(false)];
    replies.push(WindowsReply::Slot(OpenSlotReply::Io(Err("slot".into()))));
    assert!(message(run(replies)).contains("无法创建恢复目录：slot"));
}

#[test]
fn directories_of_saved_accounts_are_opened() {
    let on_windows = |replies: Vec<WindowsReply>| play(WindowsAccounts::Creating, replies, WindowsAccounts::resume);
    assert!(on_windows(vec![WindowsReply::Io(Ok(())), WindowsReply::Checked(Ok(()))]).unwrap().is_ok());
    assert_eq!(
        message(on_windows(vec![WindowsReply::Io(Err("full".into()))])),
        AppError::Snapshot("无法创建快照目录：full".into()).message()
    );
    let on_macos = |replies: Vec<MacosReply>| play(MacosAccounts::Securing, replies, MacosAccounts::resume);
    assert!(on_macos(vec![MacosReply::Secured(Ok(())), MacosReply::Excluded(Ok(()))]).unwrap().is_ok());
    assert_eq!(
        message(on_macos(vec![MacosReply::Secured(Ok(())), MacosReply::Excluded(Err("kept".into()))])),
        AppError::Snapshot("kept".into()).message()
    );
}

#[test]
fn opening_the_macos_slot_keeps_a_recorded_operation() {
    let run = |replies: Vec<MacosSlotReply>| play(macos::recovery::open_slot(), replies, MacosSlot::resume);
    let start = || vec![MacosSlotReply::Secured(Ok(())), MacosSlotReply::Excluded(Ok(()))];
    let then = |more: Vec<MacosSlotReply>| {
        let mut replies = start();
        replies.extend(more);
        run(replies)
    };
    assert!(then(vec![MacosSlotReply::Exists(Ok(true))]).unwrap().is_ok());
    assert!(matches!(
        then(vec![MacosSlotReply::Exists(Ok(false))]),
        Err(MacosSlot::Cleaning { cleanup: CleanupSlot::RemovingOrphanedBefore })
    ));
    let done = || MacosSlotReply::Cleanup(RecoveryReply::Done(Ok(())));
    let names = || MacosSlotReply::Cleanup(RecoveryReply::Names(Ok((vec![], None))));
    assert!(then(vec![MacosSlotReply::Exists(Ok(false)), done(), done(), names()]).unwrap().is_ok());
    assert_eq!(
        message(run(vec![MacosSlotReply::Secured(Ok(())), MacosSlotReply::Excluded(Err("kept".into()))])),
        AppError::Transaction("kept".into()).message()
    );
    let failed = MacosSlotReply::Cleanup(RecoveryReply::Done(Err(AppError::Transaction("in use".into()))));
    assert_eq!(
        message(then(vec![MacosSlotReply::Exists(Ok(false)), failed])),
        AppError::Transaction("in use".into()).message()
    );
}

#[test]
fn commit_is_claimed_only_after_activation() {
    let mut registry = LoginCompletionRegistry::default();
    let token = registry.begin("session".into()).unwrap();
    assert!(!token.begin_commit(&mut registry));
    token.activate(&mut registry).unwrap();
    assert!(token.begin_commit(&mut registry));
    assert!(!token.begin_commit(&mut registry));
}
