//! The operations of the Windows service, with the work around them played by the tests.

use bnetswitchlite::contracts::AccountCatalog;
use bnetswitchlite::contracts::AccountKey;
use bnetswitchlite::contracts::AppSnapshot;
use bnetswitchlite::contracts::DiscoveredAccount;
use bnetswitchlite::contracts::LoginIntent;
use bnetswitchlite::contracts::LoginRegion;
use bnetswitchlite::contracts::LoginSessionSnapshot;
use bnetswitchlite::contracts::SnapshotStatus;
use bnetswitchlite::data_store::DataStore;
use bnetswitchlite::data_store::HiddenAccountKey;
use bnetswitchlite::data_store::HiddenAccounts;
use bnetswitchlite::data_store::HiddenAccountsDocument;
use bnetswitchlite::data_store::SettingsDocument;
use bnetswitchlite::data_store::StoredDocument;
use bnetswitchlite::data_store::WrittenDocument;
use bnetswitchlite::error::AppError;
use bnetswitchlite::ordered::TextMap;
use bnetswitchlite::platform::windows::app_service::LoginEvidence;
use bnetswitchlite::platform::windows::app_service::ServiceReply;
use bnetswitchlite::platform::windows::app_service::SnapshotFacts;
use bnetswitchlite::platform::windows::app_service::StartFacts;
use bnetswitchlite::platform::windows::app_service::WindowsPlatformService;
use bnetswitchlite::platform::windows::authentication::AuthenticationBaseline;
use bnetswitchlite::platform::windows::completing::CompleteAfterLock;
use bnetswitchlite::platform::windows::completing::CompleteLogin;
use bnetswitchlite::platform::windows::login_session::LoginRecoveryOutcome;
use bnetswitchlite::platform::windows::logins::StartLogin;
use bnetswitchlite::platform::windows::managing::DetectAccounts;
use bnetswitchlite::platform::windows::managing::RemoveAccount;
use bnetswitchlite::platform::windows::paths::BattleNetPaths;
use bnetswitchlite::platform::windows::restore::CommitOutcome;
use bnetswitchlite::platform::windows::restore::RecoveryOutcome;
use bnetswitchlite::platform::windows::restore::RestoreReceipt;
use bnetswitchlite::platform::windows::snapshot::ValidatedSnapshot;
use bnetswitchlite::platform::windows::switching::SwitchAccount;
use bnetswitchlite::step::Step;

type Reply = ServiceReply;

fn key() -> AccountKey {
    AccountKey { environment: "eu.actual.battle.net".into(), account_id: "1:2".into() }
}

fn other_key() -> AccountKey {
    AccountKey { environment: "eu.actual.battle.net".into(), account_id: "1:3".into() }
}

fn intent() -> LoginIntent {
    LoginIntent::Reauthenticate { account_key: key() }
}

fn service() -> WindowsPlatformService {
    WindowsPlatformService::new(StartFacts {
        store: Ok(DataStore::open_for_windows("C:\\App")),
        hidden_accounts: Ok(HiddenAccounts::new()),
        settings: Ok(SettingsDocument { version: 1, client_executable_path: None }),
        paths: Ok(BattleNetPaths {
            cached_data_db: "C:\\Local\\CachedData.db".into(),
            roaming_dir: "C:\\Roaming\\Battle.net".into(),
            roaming_config: "C:\\Roaming\\Battle.net\\Battle.net.config".into(),
        }),
        snapshots: Ok(()),
        restore: Ok(()),
        login_sessions: Ok(()),
        pending_switch: false,
    })
    .unwrap()
}

fn shown() -> AppSnapshot {
    service()
        .snapshot_from_catalog(
            Err(AppError::AccountDatabaseMissing),
            SnapshotFacts {
                version: "1.0.0".into(),
                client_path: None,
                running: Ok(false),
                login_session: Ok(None),
                now: 5,
            },
            |_: &AccountKey| (SnapshotStatus::Missing, None, None),
        )
        .unwrap()
}

fn done() -> Reply {
    Reply::Done(Ok(()))
}

fn failed(message: &str) -> Reply {
    Reply::Done(Err(AppError::Message(message.into())))
}

fn client() -> Reply {
    Reply::Client(Some("C:\\Battle.net\\Battle.net.exe".into()))
}

fn catalog(current: Option<AccountKey>) -> AccountCatalog {
    AccountCatalog { accounts: vec![], current_account_key: current }
}

fn baseline(fingerprint: &str) -> AuthenticationBaseline {
    AuthenticationBaseline::of(TextMap::new().with("A".into(), fingerprint.into()))
}

fn session() -> LoginSessionSnapshot {
    LoginSessionSnapshot { id: "session".into(), intent: intent(), created_at: 1 }
}

/// Gives the answers in turn: the progress that was reported, and the end or the state in
/// which an answer is awaited.
fn play<O, T>(
    first: O,
    replies: Vec<Reply>,
    mut resume: impl FnMut(O, Reply) -> Step<O, T>,
) -> (Vec<u8>, Result<Result<T, AppError>, O>) {
    let mut operation = first;
    let mut progress = Vec::new();
    for reply in replies {
        match resume(operation, reply) {
            Step::Perform { operation: next, report } => {
                progress.extend(report.map(|event| event.progress));
                operation = next;
            }
            Step::Finished(result) => return (progress, Ok(result)),
        }
    }
    (progress, Err(operation))
}

fn error_of<O: std::fmt::Debug, T>(played: (Vec<u8>, Result<Result<T, AppError>, O>)) -> String {
    match played.1 {
        Ok(Err(error)) => error.message(),
        Ok(Ok(_)) => panic!("it succeeded"),
        Err(operation) => panic!("not finished: {operation:?}"),
    }
}

fn switch(replies: Vec<Reply>, service: &mut WindowsPlatformService) -> (
    Vec<u8>,
    Result<Result<AppSnapshot, AppError>, SwitchAccount>,
) {
    play(service.switch_account(&key()), replies, |operation, reply| {
        operation.resume(service, reply)
    })
}

/// What a switch is answered until it is applied; the client was running or not.
fn switch_until_applied(was_running: bool) -> Vec<Reply> {
    let target = ValidatedSnapshot {
        account: key(),
        files: vec![],
        files_directory: "C:\\App\\files".into(),
    };
    let mut replies = vec![
        done(),
        done(),
        Reply::Session(Ok(None)),
        Reply::Target(Ok(target)),
        client(),
        Reply::Flag(Ok(was_running)),
    ];
    if was_running {
        replies.push(done());
    }
    replies.push(done());
    replies.push(Reply::Catalog(Ok(catalog(Some(other_key())))));
    replies.push(done());
    replies.push(Reply::Applied(Ok(RestoreReceipt {
        operation_id: "id".into(),
        previous_client_was_running: was_running,
    })));
    replies
}

#[test]
fn windows_switch_is_verified_and_committed() {
    let mut service = service();
    let mut replies = switch_until_applied(true);
    replies.extend([
        done(),
        done(),
        Reply::Committed(Ok(CommitOutcome::CleanupPending("busy".into()))),
        Reply::Snapshot(Ok(shown())),
    ]);
    let (progress, end) = switch(replies, &mut service);
    assert_eq!(progress, vec![5, 18, 58, 76, 88, 100]);
    assert_eq!(end.unwrap().unwrap().platform, "windows");
    assert_eq!(
        service.startup_notice.as_deref(),
        Some("账号已切换成功，临时事务文件将在下次启动时继续清理：busy")
    );
}

#[test]
fn windows_switch_that_fails_after_it_was_applied_is_undone() {
    let mut service = service();
    for good in 0..3 {
        let mut replies = switch_until_applied(true);
        for _ in 0..good {
            replies.push(done());
        }
        replies.push(if good == 2 {
            Reply::Committed(Err(AppError::Message("失败".into())))
        } else {
            failed("失败")
        });
        match switch(replies, &mut service).1.unwrap_err() {
            SwitchAccount::UndoChecking { undo } => {
                assert_eq!(undo.receipt.operation_id, "id");
                assert_eq!(undo.error.message(), "失败");
            }
            other => panic!("not undone: {other:?}"),
        }
    }
    for (undoing, message) in [
        (
            vec![Reply::Flag(Ok(true)), done(), done(), done(), done()],
            "切换事务失败：失败；已恢复切换前的账号配置",
        ),
        (
            vec![Reply::Flag(Ok(true)), failed("不停")],
            "切换事务失败：失败；战网客户端仍在运行，暂未覆盖文件：不停。请关闭战网并重新打开本工具以继续恢复",
        ),
        (
            vec![Reply::Flag(Ok(false)), failed("还在")],
            "切换事务失败：失败；无法确认战网客户端保持退出状态，暂未覆盖文件：还在。请关闭战网并重新打开本工具以继续恢复",
        ),
        (
            vec![Reply::Flag(Ok(false)), done(), failed("坏")],
            "切换事务失败：失败；自动恢复未完成：坏。请勿启动战网，重新打开本工具继续恢复",
        ),
        (
            vec![Reply::Flag(Ok(false)), done(), done(), failed("不启")],
            "切换事务失败：失败；原配置已恢复，但无法重新启动战网：不启",
        ),
    ] {
        let mut replies = switch_until_applied(true);
        replies.push(failed("失败"));
        replies.extend(undoing);
        assert_eq!(error_of(switch(replies, &mut service)), message);
    }
}

#[test]
fn windows_switch_that_fails_before_it_was_applied_starts_the_client_again() {
    let mut service = service();
    let mut replies = switch_until_applied(true);
    replies.pop();
    replies.push(Reply::Applied(Err(AppError::Transaction("满".into()))));
    assert!(matches!(
        switch(replies, &mut service).1,
        Err(SwitchAccount::Restarting { .. })
    ));
    let mut replies = switch_until_applied(false);
    replies.pop();
    replies.push(Reply::Applied(Err(AppError::Transaction("满".into()))));
    assert_eq!(error_of(switch(replies, &mut service)), "切换事务失败：满");
    let busy = vec![done(), done(), Reply::Session(Ok(Some(session())))];
    assert_eq!(
        error_of(switch(busy, &mut service)),
        "登录流程失败：请先完成或取消当前登录流程"
    );
}

fn login(replies: Vec<Reply>) -> (Vec<u8>, Result<Result<AppSnapshot, AppError>, StartLogin>) {
    play(service().begin_login(intent()), replies, |operation, reply| operation.resume(reply))
}

fn login_until_begun() -> Vec<Reply> {
    vec![
        done(),
        done(),
        Reply::Session(Ok(None)),
        client(),
        Reply::Flag(Ok(true)),
        Reply::Reported,
        done(),
        done(),
        Reply::Catalog(Err(AppError::AccountDatabaseMissing)),
        done(),
        Reply::Baseline(Ok(baseline("before"))),
    ]
}

#[test]
fn windows_login_is_begun_for_the_account_and_its_region() {
    let (progress, state) = login(login_until_begun());
    assert_eq!(progress, vec![8, 16, 24]);
    match state.unwrap_err() {
        StartLogin::Beginning { region, session, .. } => {
            assert_eq!(region, Some(LoginRegion::Europe));
            assert!(session.intent == intent());
            assert!(session.previous_account.is_none());
            assert!(session.previous_client_was_running);
        }
        other => panic!("not begun: {other:?}"),
    }
    let mut replies = login_until_begun();
    replies.extend([Reply::Begun(Ok(session())), done(), Reply::Snapshot(Ok(shown()))]);
    let (progress, end) = login(replies);
    assert_eq!(progress, vec![8, 16, 24, 32]);
    assert!(end.unwrap().is_ok());
}

#[test]
fn windows_login_that_cannot_be_started_is_undone() {
    let mut replies = login_until_begun();
    replies.extend([Reply::Begun(Ok(session())), failed("不启")]);
    match login(replies).1.unwrap_err() {
        StartLogin::RollingBack { id, error } => {
            assert_eq!(id, "session");
            assert_eq!(error.message(), "不启");
        }
        other => panic!("not undone: {other:?}"),
    }
    let mut replies = login_until_begun();
    replies.extend([Reply::Begun(Ok(session())), failed("不启"), failed("坏")]);
    assert_eq!(error_of(login(replies)), "登录流程失败：不启；恢复登录前配置失败：坏");
}

/// What the completion of a login is answered until the login is found to be finished.
fn completion_until_ready() -> Vec<Reply> {
    vec![
        Reply::Awaiting(Ok((intent(), None))),
        client(),
        Reply::Baseline(Ok(baseline("before"))),
        Reply::Answer(false),
        Reply::Answer(false),
        Reply::Evidence { evidence: Ok(LoginEvidence::Ready(key())), now_ms: 1 },
    ]
}

/// What it is answered from there until the commit is claimed.
fn completion_until_claimed() -> Vec<Reply> {
    let mut replies = completion_until_ready();
    replies.extend([
        Reply::Flag(Ok(true)),
        done(),
        Reply::Answer(false),
        done(),
        done(),
        Reply::Baseline(Ok(baseline("after"))),
        Reply::Catalog(Ok(catalog(Some(key())))),
        Reply::Answer(false),
    ]);
    replies
}

fn complete(replies: Vec<Reply>, service: &mut WindowsPlatformService) -> (
    Vec<u8>,
    Result<Result<AppSnapshot, AppError>, CompleteAfterLock>,
) {
    play(service.complete_login_after_lock("session"), replies, |operation, reply| {
        operation.resume(service, reply)
    })
}

fn hidden_document(keys: Vec<AccountKey>) -> StoredDocument<HiddenAccountsDocument> {
    StoredDocument::Present(HiddenAccountsDocument {
        version: 1,
        accounts: keys
            .into_iter()
            .map(|key| HiddenAccountKey {
                environment: key.environment,
                account_id: key.account_id,
            })
            .collect(),
    })
}

#[test]
fn windows_completed_login_is_saved_shown_and_committed() {
    let mut service = service();
    let mut replies = completion_until_claimed();
    replies.extend([
        Reply::Answer(true),
        done(),
        Reply::Hidden(hidden_document(vec![key(), other_key()])),
        Reply::Written(WrittenDocument::Done),
        Reply::Committed(Ok(CommitOutcome::Committed)),
        done(),
        done(),
        Reply::Snapshot(Ok(shown())),
    ]);
    let (progress, end) = complete(replies, &mut service);
    assert_eq!(progress, vec![32, 48, 68, 88, 100]);
    assert!(end.unwrap().is_ok());
    let left = service.document_without(&key());
    assert_eq!(left.accounts.len(), 1);
    assert_eq!(left.accounts[0].account_id, "1:3");
}

#[test]
fn windows_login_that_was_not_finished_is_not_saved() {
    let mut service = service();
    let stale = |position: usize, reply: Reply| {
        let mut replies = completion_until_claimed();
        replies.truncate(position);
        replies.push(reply);
        replies
    };
    assert_eq!(
        error_of(complete(stale(11, Reply::Baseline(Ok(baseline("before")))), &mut service)),
        "登录流程失败：尚未检测到本次登录产生的新认证状态"
    );
    assert!(complete(stale(12, Reply::Catalog(Ok(catalog(Some(other_key()))))), &mut service)
        .1
        .unwrap()
        .is_err());
    assert!(matches!(
        complete(stale(13, Reply::Answer(true)), &mut service).1,
        Err(CompleteAfterLock::Abandoning { .. })
    ));
    let mut refused = completion_until_claimed();
    refused.extend([Reply::Answer(false), Reply::Answer(false)]);
    assert!(matches!(
        complete(refused, &mut service).1,
        Ok(Err(AppError::StateUnavailable))
    ));
    for position in [3, 4, 8] {
        assert!(matches!(
            complete(stale(position, Reply::Answer(true)), &mut service).1,
            Err(CompleteAfterLock::Cancelling { session_id }) if session_id == "session"
        ));
    }
}

#[test]
fn windows_login_is_looked_at_until_it_fails_for_ten_seconds() {
    let mut service = service();
    let mut replies = completion_until_ready();
    replies.truncate(5);
    for now_ms in [1000, 6000, 10999] {
        replies.extend([
            Reply::Evidence { evidence: Err(AppError::AccountDatabaseMissing), now_ms },
            Reply::Slept,
            Reply::Answer(false),
        ]);
    }
    assert!(matches!(
        complete(replies, &mut service).1,
        Err(CompleteAfterLock::Probing { failing_since: Some(1000), .. })
    ));
    let probe = |reply: Reply| {
        let mut replies = completion_until_ready();
        replies.truncate(5);
        replies.extend([
            Reply::Evidence { evidence: Err(AppError::AccountDatabaseMissing), now_ms: 1000 },
            Reply::Slept,
            Reply::Answer(false),
            reply,
        ]);
        replies
    };
    let late = Reply::Evidence { evidence: Err(AppError::AccountDatabaseMissing), now_ms: 11000 };
    assert!(matches!(
        complete(probe(late), &mut service).1,
        Ok(Err(AppError::AccountDatabaseMissing))
    ));
    let unknown = Reply::Evidence {
        evidence: Err(AppError::AccountDatabaseIncompatible("x".into())),
        now_ms: 1001,
    };
    assert!(matches!(
        complete(probe(unknown), &mut service).1,
        Ok(Err(AppError::AccountDatabaseIncompatible(_)))
    ));
    let mut gone =
        probe(Reply::Evidence { evidence: Ok(LoginEvidence::WrongAccount), now_ms: 1001 });
    gone.push(Reply::Flag(Ok(false)));
    assert_eq!(
        error_of(complete(gone, &mut service)),
        "登录流程失败：Battle.net 已退出，登录未完成"
    );
}

#[test]
fn windows_failed_completion_is_undone_or_cancelled() {
    let run = |replies: Vec<Reply>| {
        play(service().complete_login("session"), replies, |operation: CompleteLogin, reply| {
            operation.resume(reply)
        })
    };
    let fail = || Reply::Snapshot(Err(AppError::Login("失败".into())));
    assert_eq!(
        error_of(run(vec![done(), done(), fail(), Reply::Answer(true), done()])),
        "登录流程失败：失败"
    );
    assert_eq!(
        error_of(run(vec![done(), done(), fail(), Reply::Answer(true), failed("坏")])),
        "登录流程失败：失败；失败后恢复登录前配置未完成：坏"
    );
    let cancelled = run(vec![
        done(),
        done(),
        fail(),
        Reply::Answer(false),
        Reply::Answer(true),
        Reply::Snapshot(Ok(shown())),
    ]);
    assert!(cancelled.1.unwrap().is_ok());
    assert_eq!(
        error_of(run(vec![
            done(),
            done(),
            fail(),
            Reply::Answer(false),
            Reply::Answer(true),
            Reply::Snapshot(Err(AppError::Login("坏".into()))),
        ])),
        "登录流程失败：失败；取消时恢复失败：坏"
    );
    assert_eq!(
        error_of(run(vec![done(), done(), fail(), Reply::Answer(false), Reply::Answer(false)])),
        "登录流程失败：失败"
    );
    assert!(matches!(
        run(vec![Reply::Done(Err(AppError::OperationBusy))]).1,
        Ok(Err(AppError::OperationBusy))
    ));
}

#[test]
fn windows_cancelled_login_brings_the_client_back() {
    let run = |restart: bool, rest: Vec<Reply>| {
        let mut replies =
            vec![done(), Reply::Flag(Ok(restart)), client(), Reply::Flag(Ok(true)), done(), done()];
        replies.extend(rest);
        play(service().cancel_login("session"), replies, |operation, reply| {
            operation.resume(reply)
        })
    };
    let (progress, end) = run(true, vec![done(), done(), done(), Reply::Snapshot(Ok(shown()))]);
    assert_eq!(progress, vec![72, 84, 94, 100]);
    assert!(end.unwrap().is_ok());
    let (progress, end) = run(false, vec![done(), Reply::Snapshot(Ok(shown()))]);
    assert_eq!(progress, vec![72, 84, 100]);
    assert!(end.unwrap().is_ok());
    assert_eq!(error_of(run(true, vec![failed("坏")])), "坏");
}

#[test]
fn windows_unfinished_switch_is_recovered_while_the_client_is_stopped() {
    let mut service = service();
    let (progress, end) = play(
        service.recover_pending(),
        vec![
            Reply::Answer(true),
            Reply::Flag(Ok(true)),
            Reply::Flag(Ok(true)),
            Reply::Flag(Ok(true)),
            done(),
            done(),
            Reply::Recovered(Ok(RecoveryOutcome::RolledBack)),
            client(),
            done(),
            Reply::Reported,
        ],
        |operation, reply| operation.resume(&mut service, reply),
    );
    assert_eq!(progress, vec![20, 64, 100]);
    assert!(end.unwrap().is_ok());
    assert_eq!(
        service.startup_notice.as_deref(),
        Some("已恢复上次未完成切换前的账号配置。")
    );
    let (progress, end) = play(
        service.recover_pending(),
        vec![
            Reply::Answer(true),
            Reply::Flag(Ok(false)),
            Reply::Reported,
            Reply::Recovered(Ok(RecoveryOutcome::CleanedCompleted)),
            Reply::Reported,
        ],
        |operation, reply| operation.resume(&mut service, reply),
    );
    assert_eq!(progress, vec![20, 64, 100]);
    assert!(end.unwrap().is_ok());
    assert_eq!(service.startup_notice.as_deref(), Some("已完成上次操作的安全清理。"));
}

#[test]
fn windows_unfinished_login_is_recovered_at_the_start() {
    let mut service = service();
    let (_, end) = play(
        service.prepare_for_use(),
        vec![
            Reply::Answer(false),
            Reply::Flag(Ok(true)),
            done(),
            Reply::Flag(Ok(true)),
            Reply::Flag(Ok(false)),
            done(),
            Reply::LoginRecovered(Ok(LoginRecoveryOutcome::RolledBack)),
        ],
        |operation, reply| operation.resume(&mut service, reply),
    );
    assert!(end.unwrap().is_ok());
    assert_eq!(
        service.startup_notice.as_deref(),
        Some("已恢复上次未完成登录前的战网配置。")
    );
    let (_, end) = play(
        service.prepare_for_use(),
        vec![Reply::Answer(false), Reply::Flag(Ok(false))],
        |operation, reply| operation.resume(&mut service, reply),
    );
    assert!(end.unwrap().is_ok());
}

#[test]
fn windows_detected_accounts_are_shown_again() {
    let mut service = service();
    let found = AccountCatalog {
        accounts: vec![DiscoveredAccount {
            key: key(),
            internal_name: "one".into(),
            battle_tag: "One#1".into(),
        }],
        current_account_key: None,
    };
    let (_, state) = play(
        service.detect_accounts(),
        vec![
            done(),
            client(),
            Reply::Catalog(Ok(found)),
            Reply::Hidden(hidden_document(vec![key(), other_key()])),
            Reply::Written(WrittenDocument::Done),
        ],
        |operation, reply| operation.resume(&mut service, reply),
    );
    assert!(matches!(state, Err(DetectAccounts::Showing { found: Ok(_) })));
    let left = service.document_with(&key());
    assert_eq!(left.accounts.len(), 2);
    let left = service.document_without(&other_key());
    assert!(left.accounts.is_empty());
}

#[test]
fn windows_removed_account_is_hidden() {
    let mut service = service();
    let (_, end) = play(
        service.remove_account(&key()),
        vec![
            done(),
            Reply::Session(Ok(None)),
            done(),
            Reply::Hidden(StoredDocument::Missing),
            Reply::Written(WrittenDocument::Done),
            Reply::Snapshot(Ok(shown())),
        ],
        |operation: RemoveAccount, reply| operation.resume(&mut service, reply),
    );
    assert!(end.unwrap().is_ok());
    let hidden = service.document_without(&other_key());
    assert_eq!(hidden.accounts.len(), 1);
    assert_eq!(hidden.accounts[0].account_id, "1:2");
}

#[test]
fn windows_client_path_is_kept_in_the_settings() {
    let mut service = service();
    let (_, end) = play(
        service.set_client_path("D:\\Battle.net.exe"),
        vec![
            done(),
            Reply::Executable(Ok("D:\\Battle.net.exe".into())),
            Reply::Settings(StoredDocument::Missing),
            Reply::Written(WrittenDocument::Done),
            Reply::Snapshot(Ok(shown())),
        ],
        |operation, reply| operation.resume(&mut service, reply),
    );
    assert!(end.unwrap().is_ok());
    assert_eq!(
        service.settings.client_executable_path.as_deref(),
        Some("D:\\Battle.net.exe")
    );
    let refused = play(
        service.set_client_path("D:\\x.exe"),
        vec![done(), Reply::Executable(Err(AppError::InvalidClientExecutable))],
        |operation, reply| operation.resume(&mut service, reply),
    );
    assert!(matches!(refused.1, Ok(Err(AppError::InvalidClientExecutable))));
}

#[test]
fn windows_client_is_opened_where_it_does_not_run() {
    let run = |replies: Vec<Reply>| {
        play(service().open_client(), replies, |operation, reply| operation.resume(reply))
    };
    let started = run(vec![
        done(),
        Reply::Flag(Ok(false)),
        client(),
        done(),
        done(),
        Reply::Snapshot(Ok(shown())),
    ]);
    assert!(started.1.unwrap().is_ok());
    let missing = run(vec![done(), Reply::Flag(Ok(false)), Reply::Client(None)]);
    assert!(matches!(missing.1, Ok(Err(AppError::ClientExecutableMissing))));
}
