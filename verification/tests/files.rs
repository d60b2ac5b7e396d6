//! Files and directories that are opened, copied, looked through and removed, on file
//! systems that are kept in memory; and what the front end is answered.

use std::collections::BTreeMap;

use bnetswitchlite::commands;
use bnetswitchlite::commands::ServiceClaim;
use bnetswitchlite::contracts::AppSnapshot;
use bnetswitchlite::contracts::ClientSnapshot;
use bnetswitchlite::contracts::ClientStatus;
use bnetswitchlite::data_store::WrittenDocument;
use bnetswitchlite::error::AppError;
use bnetswitchlite::ordered::TextMap;
use bnetswitchlite::outside;
use bnetswitchlite::platform::macos::private_files;
use bnetswitchlite::platform::macos::private_files::CheckTree;
use bnetswitchlite::platform::macos::private_files::OpenedFile;
use bnetswitchlite::platform::macos::private_files::RemoveFile;
use bnetswitchlite::platform::macos::private_files::WriteNewFile;
use bnetswitchlite::platform::macos::recovery as macos_recovery;
use bnetswitchlite::platform::macos::recovery::SaveRecord;
use bnetswitchlite::platform::macos::recovery::SaveRecordReply;
use bnetswitchlite::platform::macos::secure_fs;
use bnetswitchlite::platform::macos::secure_fs::EntryFacts;
use bnetswitchlite::platform::macos::secure_fs::FileReply;
use bnetswitchlite::platform::macos::secure_fs::TreeEntry;
use bnetswitchlite::platform::windows::capturing;
use bnetswitchlite::platform::windows::capturing::CaptureFiles;
use bnetswitchlite::platform::windows::capturing::CaptureReply;
use bnetswitchlite::platform::windows::capturing::CopiedFile;
use bnetswitchlite::platform::windows::capturing::CopyFile;
use bnetswitchlite::platform::windows::capturing::CopyReply;
use bnetswitchlite::platform::windows::paths::BattleNetPaths;
use bnetswitchlite::platform::windows::paths::FileFacts;
use bnetswitchlite::platform::windows::process;
use bnetswitchlite::platform::windows::process::CloseMessage;
use bnetswitchlite::platform::windows::process::ProcessWindow;
use bnetswitchlite::platform::windows::recovery;
use bnetswitchlite::platform::windows::recovery::OpenSlot;
use bnetswitchlite::platform::windows::recovery::OpenSlotReply;
use bnetswitchlite::platform::windows::reparse_tree;
use bnetswitchlite::platform::windows::reparse_tree::RejectTree;
use bnetswitchlite::platform::windows::snapshot::FileSetManifest;
use bnetswitchlite::step::Step;
use bnetswitchlite::tree_walk;
use bnetswitchlite::tree_walk::DirectoryListing;
use bnetswitchlite::tree_walk::OpenDirectories;
use bnetswitchlite::tree_walk::Visit;

const REPARSE_POINT: u32 = 0x400;

/// The digest of `abc`.
const ABC: &str = "ba7816bf8f01cfea414140de5dae2223b00361a396177a9cb410ff61f20015ad";

fn plain_file() -> FileFacts {
    FileFacts { is_file: true, is_directory: false, attributes: 0 }
}

fn copy(facts: Result<FileFacts, String>, bytes: Result<Vec<u8>, String>) -> Result<CopiedFile, AppError> {
    let mut bytes = Some(bytes);
    let mut facts = Some(facts);
    let mut written: Option<usize> = None;
    let mut operation = capturing::copy_and_hash("C:\\config\\a");
    loop {
        let reply = match &operation {
            CopyFile::Looking { source } => {
                assert_eq!(source, "C:\\config\\a");
                CopyReply::Facts(facts.take().unwrap())
            }
            CopyFile::Opening | CopyFile::Creating => CopyReply::Io(Ok(())),
            CopyFile::Reading => CopyReply::Bytes(bytes.take().unwrap()),
            CopyFile::Writing { bytes } => {
                written = Some(bytes.len());
                CopyReply::Io(Ok(()))
            }
            CopyFile::Syncing { bytes } => {
                assert_eq!(written, Some(bytes.len()));
                CopyReply::Io(Ok(()))
            }
        };
        match operation.resume(reply) {
            Step::Perform { operation: next, .. } => operation = next,
            Step::Finished(result) => return result,
        }
    }
}

#[test]
fn copied_file_is_described_by_size_and_digest() {
    let copied = copy(Ok(plain_file()), Ok(b"abc".to_vec())).unwrap();
    assert_eq!(copied.size, 3);
    assert_eq!(copied.sha256, ABC);
}

#[test]
fn only_plain_files_are_copied() {
    let link = FileFacts { attributes: REPARSE_POINT, ..plain_file() };
    assert_eq!(
        copy(Ok(link), Ok(Vec::new())).unwrap_err().message(),
        AppError::Snapshot("拒绝复制非常规文件：C:\\config\\a".into()).message()
    );
    let directory = FileFacts { is_file: false, is_directory: true, attributes: 0 };
    assert!(copy(Ok(directory), Ok(Vec::new())).is_err());
    assert!(
        matches!(copy(Err("denied".into()), Ok(Vec::new())), Err(AppError::Snapshot(text)) if text == "无法读取源文件属性：denied")
    );
    assert!(
        matches!(copy(Ok(plain_file()), Err("gone".into())), Err(AppError::Snapshot(text)) if text == "无法读取源文件：gone")
    );
}

#[test]
fn hashing_tells_opening_and_reading_apart() {
    let (size, digest) = capturing::hash_file(Ok(()), Ok(b"abc".to_vec())).unwrap();
    assert_eq!((size, digest.as_str()), (3, ABC));
    assert_eq!(
        capturing::hash_file(Err("no".into()), Ok(Vec::new())),
        Err("无法打开文件：no".to_string())
    );
    assert_eq!(
        capturing::hash_file(Ok(()), Err("no".into())),
        Err("无法读取文件：no".to_string())
    );
}

#[test]
fn written_documents_name_their_path_in_errors() {
    assert!(capturing::write_pretty_json("p", WrittenDocument::Done).is_ok());
    assert!(
        matches!(capturing::write_pretty_json("p", WrittenDocument::NotGenerated("bad".into())), Err(AppError::Snapshot(text)) if text == "无法生成 JSON：bad")
    );
    assert!(
        matches!(capturing::write_pretty_json("p", WrittenDocument::NotWritten("full".into())), Err(AppError::Snapshot(text)) if text == "无法原子写入 p：full")
    );
}

fn capture(files: &BTreeMap<&str, &[u8]>, fail_at: Option<&str>) -> Result<FileSetManifest, AppError> {
    let mut operation = capturing::capture_file_set();
    let mut copied: Vec<String> = Vec::new();
    loop {
        let reply = match &operation {
            CaptureFiles::CheckingSource => CaptureReply::Checked(Ok(())),
            CaptureFiles::CreatingOutput | CaptureFiles::CreatingFiles => CaptureReply::Io(Ok(())),
            CaptureFiles::Listing => {
                let mut listed = TextMap::new();
                for name in files.keys().rev() {
                    listed = listed.with(name.to_string(), format!("C:\\config\\{name}"));
                }
                CaptureReply::Listed(Ok(listed))
            }
            CaptureFiles::Copying { found, index, .. } => {
                let entry = &found[*index];
                assert_eq!(entry.value, format!("C:\\config\\{}", entry.key));
                copied.push(entry.key.clone());
                if fail_at == Some(entry.key.as_str()) {
                    CaptureReply::Copied(Err(AppError::Snapshot("无法读取源文件：gone".into())))
                } else {
                    let bytes = files[entry.key.as_str()].to_vec();
                    CaptureReply::Copied(Ok(CopiedFile {
                        size: bytes.len() as u64,
                        sha256: outside::sha256(&bytes),
                    }))
                }
            }
            CaptureFiles::ReadingClock { files: done } => {
                assert_eq!(done.len(), copied.len());
                CaptureReply::Time(77)
            }
        };
        match operation.resume(reply) {
            Step::Perform { operation: next, .. } => operation = next,
            Step::Finished(result) => return result,
        }
    }
}

#[test]
fn every_listed_file_is_captured_once_in_order() {
    let mut files: BTreeMap<&str, &[u8]> = BTreeMap::new();
    files.insert("b.config", b"abc");
    files.insert("Battle.net.config", b"{}");
    files.insert("a.config", b"");
    let manifest = capture(&files, None).unwrap();
    assert_eq!(manifest.version, 1);
    assert_eq!(manifest.created_at, 77);
    let names: Vec<&str> = manifest.files.iter().map(|file| file.name.as_str()).collect();
    assert_eq!(names, vec!["Battle.net.config", "a.config", "b.config"]);
    assert_eq!(manifest.files[2].sha256, ABC);
    assert_eq!(manifest.files[2].size, 3);
    assert!(capture(&files, Some("a.config")).is_err());
    assert!(capture(&BTreeMap::new(), None).unwrap().files.is_empty());
}

/// Opens the recovery slot of a data directory that holds these names.
fn open(names: &mut Vec<String>) -> Result<(), AppError> {
    let mut operation = recovery::open_slot();
    loop {
        let mut removed: Option<String> = None;
        let reply = match &operation {
            OpenSlot::Creating => OpenSlotReply::Io(Ok(())),
            OpenSlot::CheckingPath => OpenSlotReply::Checked(Ok(())),
            OpenSlot::CheckingRecord => {
                OpenSlotReply::Exists(names.iter().any(|name| name == "record.json"))
            }
            OpenSlot::RemovingBefore => {
                removed = Some("before".into());
                OpenSlotReply::Checked(Ok(()))
            }
            OpenSlot::Listing => OpenSlotReply::Names(Ok((names.clone(), None))),
            OpenSlot::Removing { names: listed, index, .. } => {
                removed = Some(listed[*index].clone());
                OpenSlotReply::Checked(Ok(()))
            }
        };
        if let Some(name) = removed {
            names.retain(|other| *other != name);
        }
        match operation.resume(reply) {
            Step::Perform { operation: next, .. } => operation = next,
            Step::Finished(result) => return result,
        }
    }
}

#[test]
fn startup_removes_orphaned_preparation_without_a_record() {
    let mut names = vec!["before".to_string()];
    open(&mut names).unwrap();
    assert_eq!(names.len(), 0);
}

#[test]
fn startup_removes_unfinished_directories_and_keeps_a_record() {
    let unfinished = format!(".preparing-{}", outside::new_id());
    let mut names = vec!["before".to_string(), unfinished.clone()];
    open(&mut names).unwrap();
    assert!(names.is_empty());

    let mut recorded = vec!["before".to_string(), "record.json".to_string(), unfinished];
    open(&mut recorded).unwrap();
    assert_eq!(recorded.len(), 3);

    let mut unknown = vec!["before".to_string(), "unknown".to_string()];
    assert!(open(&mut unknown).is_err());
    assert_eq!(unknown, vec!["unknown".to_string()]);

    assert!(recovery::check_orphan(".preparing-other").is_err());
}

#[test]
fn client_is_the_first_valid_candidate() {
    let candidates = vec![
        Err(AppError::InvalidClientExecutable),
        Ok("C:\\b\\Battle.net.exe".to_string()),
        Ok("C:\\c\\Battle.net.exe".to_string()),
    ];
    assert_eq!(
        BattleNetPaths::detect_client_executable(&candidates),
        Some("C:\\b\\Battle.net.exe".to_string())
    );
    assert_eq!(
        BattleNetPaths::detect_client_executable(&vec![Err(AppError::InvalidClientExecutable)]),
        None
    );
}

#[test]
fn windows_of_the_client_are_asked_to_close_in_turn() {
    let windows = vec![
        ProcessWindow { handle: 1, process_id: 7 },
        ProcessWindow { handle: 2, process_id: 8 },
        ProcessWindow { handle: 3, process_id: 9 },
        ProcessWindow { handle: 4, process_id: 7 },
    ];
    let found = process::collect_windows(&windows, &vec![9, 7]);
    assert_eq!(found.iter().map(|window| window.handle).collect::<Vec<u64>>(), vec![1, 3, 4]);

    let mut sent: Vec<(usize, CloseMessage)> = Vec::new();
    let mut remaining: u64 = 4;
    let mut send = process::send_close_messages(found.len());
    while let Some(close) = send {
        if remaining > 0 {
            sent.push((close.index, close.message));
        }
        send = close.resume(remaining);
        remaining = remaining.saturating_sub(1);
    }
    assert_eq!(
        sent,
        vec![
            (0, CloseMessage::QueryEndSession),
            (0, CloseMessage::EndSession),
            (1, CloseMessage::QueryEndSession),
            (1, CloseMessage::EndSession),
        ]
    );
    assert_eq!(process::send_close_messages(0), None);
}

#[test]
fn directories_are_visited_to_their_end_before_their_neighbours() {
    let inner = OpenDirectories::Inside {
        listing: DirectoryListing { entries: vec!["d/x".into(), "d/y".into()], failure: None },
        index: 0,
        above: Box::new(OpenDirectories::Inside {
            listing: DirectoryListing { entries: vec!["d".into(), "e".into()], failure: Some("cut".into()) },
            index: 1,
            above: Box::new(OpenDirectories::Outside),
        }),
    };
    let mut seen: Vec<String> = Vec::new();
    let mut open = inner;
    let end = loop {
        match tree_walk::next_entry(open) {
            Visit::Entry { path, rest } => {
                seen.push(path);
                open = rest;
            }
            other => break other,
        }
    };
    assert_eq!(seen, vec!["d/x", "d/y", "e"]);
    assert!(matches!(end, Visit::Unreadable(text) if text == "cut"));
    assert!(matches!(tree_walk::next_entry(OpenDirectories::Outside), Visit::Complete));
}

/// The entries of a directory that is kept in memory.
fn entries(tree: &BTreeMap<&str, TreeEntry>, directory: &str) -> DirectoryListing {
    let prefix = format!("{directory}/");
    DirectoryListing {
        entries: tree
            .keys()
            .filter(|path| path.starts_with(&prefix) && !path[prefix.len()..].contains('/'))
            .map(|path| path.to_string())
            .collect(),
        failure: None,
    }
}

fn check_private(tree: &BTreeMap<&str, TreeEntry>) -> (Result<(), AppError>, usize) {
    let mut looked: usize = 0;
    let mut operation = private_files::validate_private_tree("/a".to_string());
    loop {
        let reply = match &operation {
            CheckTree::CheckingDirectory { .. } | CheckTree::CheckingFile { .. } => {
                private_files::TreeReply::Done(Ok(()))
            }
            CheckTree::Listing { path, .. } => private_files::TreeReply::Listed(
                private_files::read_private_directory(Ok(entries(tree, path))),
            ),
            CheckTree::Looking { path, .. } => {
                looked += 1;
                private_files::TreeReply::Entry(Ok(tree[path.as_str()]))
            }
        };
        match operation.resume(reply) {
            Step::Perform { operation: next, .. } => operation = next,
            Step::Finished(result) => return (result, looked),
        }
    }
}

#[test]
fn private_directory_is_looked_through_to_the_end() {
    let mut tree: BTreeMap<&str, TreeEntry> = BTreeMap::new();
    tree.insert("/a/b", TreeEntry::Directory);
    tree.insert("/a/b/c", TreeEntry::File);
    tree.insert("/a/d", TreeEntry::File);
    let (result, looked) = check_private(&tree);
    assert!(result.is_ok());
    assert_eq!(looked, 3);

    tree.insert("/a/b/link", TreeEntry::Link);
    assert!(
        matches!(check_private(&tree).0, Err(AppError::Snapshot(text)) if text == "敏感目录包含符号链接：/a/b/link")
    );
    tree.insert("/a/b/link", TreeEntry::Other);
    assert!(
        matches!(check_private(&tree).0, Err(AppError::Snapshot(text)) if text == "敏感目录包含不支持的文件类型：/a/b/link")
    );
    assert!(check_private(&BTreeMap::new()).0.is_ok());
    assert!(
        matches!(private_files::read_private_directory(Err("no".into())), Err(AppError::Snapshot(text)) if text == "无法读取敏感目录：no")
    );
}

fn reject(tree: &BTreeMap<&str, TreeEntry>) -> Result<(), AppError> {
    let mut operation = reparse_tree::reject_reparse_tree("/a".to_string());
    loop {
        let reply = match &operation {
            RejectTree::Checking { .. } => reparse_tree::TreeReply::Checked(Ok(())),
            RejectTree::Listing { path, .. } => {
                reparse_tree::TreeReply::Listed(Ok(entries(tree, path)))
            }
            RejectTree::Looking { path, .. } => reparse_tree::TreeReply::Entry(Ok(
                match tree[path.as_str()] {
                    TreeEntry::Link => FileFacts { attributes: REPARSE_POINT, ..plain_file() },
                    TreeEntry::Directory => {
                        FileFacts { is_file: false, is_directory: true, attributes: 0 }
                    }
                    _ => plain_file(),
                },
            )),
        };
        match operation.resume(reply) {
            Step::Perform { operation: next, .. } => operation = next,
            Step::Finished(result) => return result,
        }
    }
}

#[test]
fn saved_account_with_a_redirection_is_not_removed() {
    let mut tree: BTreeMap<&str, TreeEntry> = BTreeMap::new();
    tree.insert("/a/b", TreeEntry::Directory);
    tree.insert("/a/b/c", TreeEntry::File);
    assert!(reject(&tree).is_ok());
    tree.insert("/a/b/link", TreeEntry::Link);
    assert!(
        matches!(reject(&tree), Err(AppError::Snapshot(text)) if text == "账号快照包含不受支持的链接或重解析点")
    );
    let unreadable = reparse_tree::reject_reparse_tree("/a".to_string())
        .resume(reparse_tree::TreeReply::Checked(Ok(())));
    let listing = match unreadable {
        Step::Perform { operation, .. } => operation,
        Step::Finished(_) => unreachable!(),
    };
    assert!(
        matches!(listing.resume(reparse_tree::TreeReply::Listed(Err("no".into()))), Step::Finished(Err(AppError::Snapshot(text))) if text == "无法读取账号快照目录：no")
    );
}

fn own_file(mode: u32) -> EntryFacts {
    EntryFacts { is_file: true, is_directory: false, links: 1, owner: 501, current_user: 501, mode }
}

#[test]
fn private_files_are_plain_files_of_the_user() {
    let private = Some(secure_fs::PRIVATE_FILE_MODE);
    let there = |opened: OpenedFile| private_files::open_owned_regular_file_optional("/f", private, opened);
    assert_eq!(there(OpenedFile::Missing).unwrap(), false);
    assert_eq!(there(OpenedFile::Opened(Ok(own_file(0o100600)))).unwrap(), true);
    assert!(
        matches!(there(OpenedFile::Opened(Ok(own_file(0o100644)))), Err(AppError::Snapshot(text)) if text == "安全文件权限必须为 0600：/f")
    );
    assert!(
        matches!(there(OpenedFile::Opened(Ok(EntryFacts { links: 2, ..own_file(0o100600) }))), Err(AppError::Snapshot(text)) if text == "安全文件必须是无硬链接的普通文件：/f")
    );
    assert!(
        matches!(there(OpenedFile::Failed("loop".into())), Err(AppError::Snapshot(text)) if text == "无法安全打开文件：loop")
    );
    assert!(
        matches!(private_files::open_owned_regular_file("/f", private, OpenedFile::Missing), Err(AppError::Snapshot(text)) if text == "无法安全打开文件：entity not found")
    );
    assert!(private_files::open_owned_regular_file("/f", None, OpenedFile::Opened(Ok(own_file(0o100644)))).is_ok());
}

#[test]
fn files_are_read_with_their_permissions() {
    assert_eq!(private_files::read_private_file(Ok(vec![1, 2])).unwrap(), vec![1, 2]);
    assert!(
        matches!(private_files::read_private_file(Err("io".into())), Err(AppError::Snapshot(text)) if text == "无法读取敏感文件：io")
    );
    let file = private_files::read_user_file_optional(Ok(0o100644), Ok(vec![3])).unwrap();
    assert_eq!((file.mode, file.bytes), (0o644, vec![3]));
    assert!(
        matches!(private_files::read_user_file_optional(Err("io".into()), Ok(vec![])), Err(AppError::Snapshot(text)) if text == "无法读取用户文件属性：io")
    );
    assert!(
        matches!(private_files::read_user_file_optional(Ok(0o600), Err("io".into())), Err(AppError::Snapshot(text)) if text == "无法读取用户文件：io")
    );
    assert!(private_files::sync_directory(Ok(())).is_ok());
    assert!(
        matches!(private_files::sync_directory(Err("io".into())), Err(AppError::Snapshot(text)) if text == "无法持久化目录：io")
    );
    let directory = EntryFacts { is_file: false, is_directory: true, ..own_file(0o40700) };
    assert_eq!(secure_fs::private_directory_exists("/d", Ok(Some(directory)), Ok(())).unwrap(), true);
    assert_eq!(secure_fs::private_directory_exists("/d", Ok(None), Ok(())).unwrap(), false);
    assert!(secure_fs::private_directory_exists("/d", Ok(Some(directory)), Err(AppError::Snapshot("wide".into()))).is_err());
}

/// Writes a new private file; the work with the given number fails.
fn write_new(failing: Option<usize>) -> (Result<(), AppError>, Vec<&'static str>) {
    let mut done: Vec<&'static str> = Vec::new();
    let mut operation = private_files::write_private_file_new("/d/f");
    loop {
        let fails = failing == Some(done.len());
        let io = if fails { Err("io".to_string()) } else { Ok(()) };
        let checked = if fails { Err(AppError::Snapshot("refused".into())) } else { Ok(()) };
        let reply = match &operation {
            WriteNewFile::OpeningParent { .. } => {
                done.push("parent");
                FileReply::Done(checked)
            }
            WriteNewFile::Creating { .. } => {
                done.push("create");
                FileReply::Io(io)
            }
            WriteNewFile::Setting { .. } => {
                done.push("set");
                FileReply::Io(io)
            }
            WriteNewFile::Checking { .. } => {
                done.push("check");
                FileReply::Done(checked)
            }
            WriteNewFile::Writing { path } => {
                assert_eq!(path, "/d/f");
                done.push("write");
                FileReply::Io(io)
            }
        };
        match operation.resume(reply) {
            Step::Perform { operation: next, .. } => operation = next,
            Step::Finished(result) => return (result, done),
        }
    }
}

#[test]
fn private_file_is_checked_before_it_is_written() {
    let (result, done) = write_new(None);
    assert!(result.is_ok());
    assert_eq!(done, vec!["parent", "create", "set", "check", "write"]);
    for (index, text) in [(1, "无法创建敏感文件：io"), (2, "无法设置敏感文件权限：io"), (4, "无法持久化敏感文件：io")] {
        let (result, done) = write_new(Some(index));
        assert_eq!(done.len(), index + 1);
        assert!(matches!(result, Err(AppError::Snapshot(message)) if message == text));
    }
    assert!(write_new(Some(0)).0.is_err());
    assert!(write_new(Some(3)).0.is_err());
}

fn remove(mut operation: RemoveFile, there: bool, removed: Result<(), String>) -> Result<(), AppError> {
    let mut removed = Some(removed);
    loop {
        let reply = match &operation {
            RemoveFile::Looking { .. } => FileReply::Exists(Ok(there)),
            RemoveFile::OpeningParent { .. } => FileReply::Done(Ok(())),
            RemoveFile::Removing { .. } => FileReply::Io(removed.take().unwrap()),
        };
        match operation.resume(reply) {
            Step::Perform { operation: next, .. } => operation = next,
            Step::Finished(result) => return result,
        }
    }
}

#[test]
fn missing_files_need_no_removal() {
    assert!(remove(private_files::remove_private_file("/f"), false, Err("never".into())).is_ok());
    assert!(remove(private_files::remove_private_file("/f"), true, Ok(())).is_ok());
    assert!(
        matches!(remove(private_files::remove_private_file("/f"), true, Err("io".into())), Err(AppError::Snapshot(text)) if text == "无法删除敏感文件：io")
    );
    assert!(
        matches!(remove(private_files::remove_user_file("/f"), true, Err("io".into())), Err(AppError::Snapshot(text)) if text == "无法删除用户文件：io")
    );
}

#[test]
fn record_that_would_not_be_read_again_is_not_saved() {
    let record = macos_recovery::RecoveryRecord {
        version: macos_recovery::RECORD_VERSION,
        id: outside::new_id(),
        kind: macos_recovery::RecoveryKind::Switch,
        state: macos_recovery::RecoveryState::Prepared,
        before_snapshot_id: outside::new_id(),
        candidate_snapshot_id: None,
        previous_client_was_running: false,
        created_at: 1,
    };
    let mut invalid = record.clone();
    invalid.id = "not-an-id".into();
    assert!(matches!(macos_recovery::save_record(invalid), Step::Finished(Err(AppError::Transaction(_)))));

    let generating = match macos_recovery::save_record(record) {
        Step::Perform { operation, .. } => operation,
        Step::Finished(_) => unreachable!(),
    };
    let writing = match generating.resume(SaveRecordReply::Generated(Ok(vec![1, 2, 3]))) {
        Step::Perform { operation, .. } => operation,
        Step::Finished(_) => unreachable!(),
    };
    assert!(matches!(&writing, SaveRecord::Writing { bytes } if *bytes == vec![1, 2, 3]));
    assert!(matches!(writing.resume(SaveRecordReply::Written(Ok(()))), Step::Finished(Ok(()))));
}

fn empty_snapshot() -> AppSnapshot {
    AppSnapshot {
        app_name: String::new(),
        version: String::new(),
        mode: String::new(),
        platform: String::new(),
        data_directory: String::new(),
        client: ClientSnapshot {
            status: ClientStatus::Stopped,
            executable_path: String::new(),
            detected_automatically: false,
        },
        accounts: Vec::new(),
        login_session: None,
        notice: None,
        updated_at: 0,
    }
}

#[test]
fn requests_are_answered_one_at_a_time() {
    assert!(commands::claim_service(ServiceClaim::Held).is_ok());
    assert!(matches!(commands::claim_service(ServiceClaim::Taken), Err(AppError::OperationBusy)));
    assert!(matches!(commands::claim_service(ServiceClaim::Broken), Err(AppError::StateUnavailable)));
}

#[test]
fn background_errors_are_answered_as_text() {
    assert!(commands::background_answer(Ok(Ok(empty_snapshot()))).is_ok());
    assert_eq!(
        commands::background_answer(Ok(Err(AppError::OperationBusy))).unwrap_err(),
        AppError::OperationBusy.message()
    );
    assert_eq!(
        commands::background_answer(Err("panicked".into())).unwrap_err(),
        "后台操作异常结束：panicked"
    );
}

#[test]
fn completed_login_says_whether_it_was_cancelled() {
    assert!(commands::login_answer(Ok(empty_snapshot()), true, Ok(())).unwrap().cancelled);
    assert!(!commands::login_answer(Ok(empty_snapshot()), false, Ok(())).unwrap().cancelled);
    assert_eq!(
        commands::login_answer(Err("failed".into()), false, Ok(())).unwrap_err(),
        "failed"
    );
    assert_eq!(
        commands::login_answer(Ok(empty_snapshot()), false, Err(AppError::StateUnavailable)).unwrap_err(),
        AppError::StateUnavailable.message()
    );
}
