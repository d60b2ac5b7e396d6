//! Private files, directories and preferences on macOS, with the disk played by the tests.

use bnetswitchlite::error::AppError;
use bnetswitchlite::platform::macos::preferences;
use bnetswitchlite::platform::macos::preferences::ClearAuthentication;
use bnetswitchlite::platform::macos::preferences::HostScope;
use bnetswitchlite::platform::macos::preferences::PreferenceEntry;
use bnetswitchlite::platform::macos::preferences::PreferenceKey;
use bnetswitchlite::platform::macos::preferences::PreferenceReply;
use bnetswitchlite::platform::macos::preferences::ReadPreferences;
use bnetswitchlite::platform::macos::preferences::ReplacePreferences;
use bnetswitchlite::platform::macos::secure_fs;
use bnetswitchlite::platform::macos::secure_fs::EnsureDirectory;
use bnetswitchlite::platform::macos::secure_fs::EntryFacts;
use bnetswitchlite::platform::macos::secure_fs::FileReply;
use bnetswitchlite::platform::macos::secure_fs::MoveDirectory;
use bnetswitchlite::platform::macos::secure_fs::OpenDirectory;
use bnetswitchlite::platform::macos::secure_fs::OpenReply;
use bnetswitchlite::platform::macos::secure_fs::OpenStage;
use bnetswitchlite::platform::macos::secure_fs::RemoveDirectory;
use bnetswitchlite::platform::macos::secure_fs::ReplaceFile;
use bnetswitchlite::platform::macos::secure_fs::ReplaceUserFile;
use bnetswitchlite::step::Step;

fn directory(mode: u32) -> EntryFacts {
    EntryFacts { is_file: false, is_directory: true, links: 2, owner: 501, current_user: 501, mode }
}

fn done() -> FileReply {
    FileReply::Done(Ok(()))
}

fn io() -> FileReply {
    FileReply::Io(Ok(()))
}

/// Gives the answers in turn: the end, or the state in which an answer is awaited.
fn play<O, T, R>(
    first: O,
    replies: Vec<R>,
    resume: impl Fn(O, R) -> Step<O, T>,
) -> Result<Result<T, AppError>, O> {
    let mut operation = first;
    for reply in replies {
        match resume(operation, reply) {
            Step::Perform { operation: next, .. } => operation = next,
            Step::Finished(result) => return Ok(result),
        }
    }
    Err(operation)
}

fn message<O: std::fmt::Debug, T>(end: Result<Result<T, AppError>, O>) -> String {
    match end {
        Ok(Err(error)) => error.message(),
        Ok(Ok(_)) => panic!("it succeeded"),
        Err(operation) => panic!("not finished: {operation:?}"),
    }
}

fn opening(path: &str, mode: Option<u32>) -> OpenDirectory {
    match secure_fs::open_directory(path, mode) {
        Step::Perform { operation, .. } => operation,
        Step::Finished(result) => panic!("ended at once: {result:?}"),
    }
}

#[test]
fn directory_is_opened_part_by_part_from_the_root() {
    let opened = || OpenReply::Opened(Ok(()));
    let end = play(
        opening("/Users/me", Some(0o700)),
        vec![opened(), opened(), opened()],
        OpenDirectory::resume,
    );
    let asked = end.unwrap_err();
    assert_eq!(asked.parts, vec!["Users".to_owned(), "me".to_owned()]);
    assert!(matches!(asked.stage, OpenStage::Looking));
    let looked = |facts: EntryFacts| {
        play(
            opening("/Users/me", Some(0o700)),
            vec![opened(), opened(), opened(), OpenReply::Facts(Ok(facts))],
            OpenDirectory::resume,
        )
        .unwrap()
    };
    assert!(looked(directory(0o40700)).is_ok());
    assert!(looked(directory(0o40755)).is_err());
    assert!(looked(EntryFacts { owner: 0, ..directory(0o40700) }).is_err());
    assert!(play(
        opening("/Users/me", None),
        vec![opened(), OpenReply::Opened(Err("ELOOP".into()))],
        OpenDirectory::resume,
    )
    .unwrap()
    .is_err());
    for path in ["relative", "/Users/../etc"] {
        let refused = match secure_fs::open_directory(path, None) {
            Step::Finished(result) => result.is_err(),
            Step::Perform { operation, .. } => {
                play(operation, vec![opened(), opened(), opened()], OpenDirectory::resume)
                    .is_ok_and(|end| end.is_err())
            }
        };
        assert!(refused);
    }
}

#[test]
fn private_directory_is_created_or_narrowed() {
    let ensure = |replies: Vec<FileReply>| {
        play(
            secure_fs::ensure_private_directory("/data"),
            replies,
            EnsureDirectory::resume,
        )
    };
    assert!(ensure(vec![
        done(),
        FileReply::Found(Ok(None)),
        done(),
        done(),
        done(),
        io(),
        done(),
    ])
    .unwrap()
    .is_ok());
    assert!(matches!(
        ensure(vec![done(), FileReply::Found(Ok(Some(directory(0o40755))))]),
        Err(EnsureDirectory::Narrowing { .. })
    ));
    assert!(matches!(
        ensure(vec![done(), FileReply::Found(Ok(Some(directory(0o40700))))]),
        Err(EnsureDirectory::Confirming { .. })
    ));
    let file = EntryFacts { is_file: true, is_directory: false, ..directory(0o40700) };
    assert!(ensure(vec![done(), FileReply::Found(Ok(Some(file)))]).unwrap().is_err());
    assert_eq!(
        message(ensure(vec![done(), FileReply::Found(Err("EIO".into()))])),
        "账号快照不可用：无法读取敏感目录属性：EIO"
    );
}

#[test]
fn private_file_takes_its_place_when_it_is_whole() {
    let replace = |replies: Vec<FileReply>| {
        play(
            secure_fs::write_private_file_replace("/data/record"),
            replies,
            ReplaceFile::resume,
        )
    };
    assert!(replace(vec![done(), done(), done(), io(), done(), done()]).unwrap().is_ok());
    let failed = replace(vec![done(), done(), done(), FileReply::Io(Err("EIO".into()))]);
    let Err(ReplaceFile::Removing { temporary, .. }) = &failed else {
        panic!("the file was not removed")
    };
    assert!(!temporary.is_empty());
    assert_eq!(
        message(replace(vec![
            done(),
            done(),
            done(),
            FileReply::Io(Err("EIO".into())),
            done(),
        ])),
        "账号快照不可用：无法原子发布敏感文件：EIO"
    );
    assert!(replace(vec![
        done(),
        done(),
        FileReply::Done(Err(AppError::Snapshot("满".into()))),
    ])
    .unwrap()
    .is_err());
}

#[test]
fn configuration_keeps_its_permissions() {
    let replace = |replies: Vec<FileReply>| {
        play(
            secure_fs::write_user_file_replace("/c/Battle.net.config", 0o100644),
            replies,
            ReplaceUserFile::resume,
        )
    };
    assert!(matches!(
        replace(vec![done(), done(), done()]),
        Err(ReplaceUserFile::Creating { mode: 0o644, .. })
    ));
    assert!(replace(vec![
        done(),
        done(),
        done(),
        done(),
        io(),
        done(),
        io(),
        io(),
        done(),
        done(),
    ])
    .unwrap()
    .is_ok());
    assert_eq!(
        message(replace(vec![
            done(),
            done(),
            done(),
            done(),
            io(),
            done(),
            FileReply::Io(Err("ENOSPC".into())),
            io(),
        ])),
        "账号快照不可用：无法持久化配置暂存文件：ENOSPC"
    );
}

#[test]
fn directory_is_moved_only_to_a_free_place_beside_it() {
    let rename = |to: &str, replies: Vec<FileReply>| {
        play(
            secure_fs::rename_private_directory("/data/a", to),
            replies,
            MoveDirectory::resume,
        )
    };
    assert!(rename(
        "/data/b",
        vec![done(), done(), done(), FileReply::Found(Ok(None)), io(), done(), done()],
    )
    .unwrap()
    .is_ok());
    assert_eq!(
        message(rename("/elsewhere/b", vec![done()])),
        "账号快照不可用：敏感目录只能在同一受保护目录内发布"
    );
    assert_eq!(
        message(rename(
            "/data/b",
            vec![done(), done(), done(), FileReply::Found(Ok(Some(directory(0o40700))))],
        )),
        "账号快照不可用：敏感目录发布目标已存在"
    );
}

#[test]
fn directory_that_cannot_be_removed_is_put_back() {
    let remove = |rest: Vec<FileReply>| {
        let mut replies =
            vec![done(), FileReply::Found(Ok(Some(directory(0o40700)))), done(), done(), io(), done()];
        replies.extend(rest);
        play(secure_fs::remove_private_directory("/data/a"), replies, RemoveDirectory::resume)
    };
    assert!(remove(vec![io(), io()]).unwrap().is_ok());
    assert_eq!(
        message(remove(vec![FileReply::Io(Err("EBUSY".into())), io()])),
        "账号快照不可用：无法清理敏感目录，已恢复原路径：EBUSY"
    );
    assert_eq!(
        message(remove(vec![FileReply::Io(Err("EBUSY".into())), FileReply::Io(Err("EIO".into()))])),
        "账号快照不可用：无法清理敏感目录：EBUSY；无法恢复待清理目录：EIO"
    );
    let missing = play(
        secure_fs::remove_private_directory("/data/a"),
        vec![done(), FileReply::Found(Ok(None))],
        RemoveDirectory::resume,
    );
    assert!(missing.unwrap().is_ok());
}

fn ok() -> PreferenceReply {
    PreferenceReply::Done(Ok(()))
}

fn entry(key: &str, value: u64) -> PreferenceEntry {
    PreferenceEntry { key: PreferenceKey::Text(key.into()), value }
}

#[test]
fn preferences_are_cleared_before_they_are_replaced() {
    let replace = |replies: Vec<PreferenceReply>| {
        play(preferences::replace(), replies, ReplacePreferences::resume)
    };
    assert!(matches!(
        replace(vec![ok()]),
        Err(ReplacePreferences::Clearing { scope: HostScope::Any })
    ));
    assert!(matches!(
        replace(vec![ok(), ok(), ok()]),
        Err(ReplacePreferences::Replacing { scope: HostScope::Any })
    ));
    let compared = |same: bool| {
        replace(vec![ok(), ok(), ok(), ok(), ok(), PreferenceReply::Compared(Ok(same))])
    };
    assert!(compared(true).unwrap().is_ok());
    assert_eq!(message(compared(false)), "切换事务失败：macOS 战网偏好域写入后校验不一致");
}

#[test]
fn login_is_removed_from_both_scopes_and_nothing_else() {
    let run = |replies: Vec<PreferenceReply>| {
        play(preferences::clear_authentication_only(), replies, ClearAuthentication::resume)
    };
    let before = || vec![entry("UnifiedAuth/one", 1), entry("Locale", 2)];
    match run(vec![PreferenceReply::Copied(Ok(before()))]).unwrap_err() {
        ClearAuthentication::Removing { scope: HostScope::Any, keys } => {
            assert_eq!(keys, vec!["UnifiedAuth/one".to_owned()]);
        }
        other => panic!("asked {other:?}"),
    }
    let reread = |after: Vec<PreferenceEntry>, copy: Vec<PreferenceEntry>| PreferenceReply::Reread {
        after: Ok(after),
        written: Ok((
            ReadPreferences::Dictionary(before()),
            ReadPreferences::Dictionary(copy),
        )),
    };
    let first = |answer: PreferenceReply| {
        run(vec![PreferenceReply::Copied(Ok(before())), ok(), answer])
    };
    assert!(matches!(
        first(reread(vec![entry("Locale", 2)], vec![entry("Locale", 2)])),
        Err(ClearAuthentication::Reading { scope: HostScope::Current })
    ));
    for bad in [
        reread(before(), before()),
        reread(vec![entry("Locale", 3)], vec![entry("Locale", 3)]),
        reread(vec![], vec![]),
    ] {
        assert_eq!(message(first(bad)), "登录流程失败：无法确认 macOS 战网认证偏好已清除");
    }
}
