//! The operations of the macOS service, with the work around them played by the tests.

use bnetswitchlite::contracts::AccountCatalog;
use bnetswitchlite::contracts::AccountKey;
use bnetswitchlite::contracts::AppSnapshot;
use bnetswitchlite::contracts::DiscoveredAccount;
use bnetswitchlite::contracts::LoginIntent;
use bnetswitchlite::contracts::SnapshotStatus;
use bnetswitchlite::data_store::DataStore;
use bnetswitchlite::data_store::HiddenAccountKey;
use bnetswitchlite::data_store::HiddenAccounts;
use bnetswitchlite::data_store::HiddenAccountsDocument;
use bnetswitchlite::data_store::SettingsDocument;
use bnetswitchlite::data_store::StoredDocument;
use bnetswitchlite::data_store::WrittenDocument;
use bnetswitchlite::error::AppError;
use bnetswitchlite::platform::macos::app_service::MacosPlatformService;
use bnetswitchlite::platform::macos::app_service::ServiceReply;
use bnetswitchlite::platform::macos::app_service::ShownClient;
use bnetswitchlite::platform::macos::app_service::SnapshotFacts;
use bnetswitchlite::platform::macos::app_service::StartFacts;
use bnetswitchlite::platform::macos::completing::CompleteAfterLock;
use bnetswitchlite::platform::macos::completing::CompleteLogin;
use bnetswitchlite::platform::macos::lifecycle;
use bnetswitchlite::platform::macos::lifecycle::EnumeratePids;
use bnetswitchlite::platform::macos::lifecycle::GracefulStop;
use bnetswitchlite::platform::macos::lifecycle::ProcessSample;
use bnetswitchlite::platform::macos::lifecycle::StopReply;
use bnetswitchlite::platform::macos::managing::DetectAccounts;
use bnetswitchlite::platform::macos::managing::PrepareForUse;
use bnetswitchlite::platform::macos::paths::BattleNetPaths;
use bnetswitchlite::platform::macos::preferences::PreferenceSnapshot;
use bnetswitchlite::platform::macos::process::RelatedProcess;
use bnetswitchlite::platform::macos::process::ValidatedClient;
use bnetswitchlite::platform::macos::recovery::CleanupOutcome;
use bnetswitchlite::platform::macos::recovery::RecoveryContext;
use bnetswitchlite::platform::macos::recovery::RecoveryEnvelope;
use bnetswitchlite::platform::macos::recovery::RecoveryKind;
use bnetswitchlite::platform::macos::recovery::RecoveryRecord;
use bnetswitchlite::platform::macos::recovery::RecoveryState;
use bnetswitchlite::platform::macos::secure_snapshot::capture_current;
use bnetswitchlite::platform::macos::secure_snapshot::SecurePayload;
use bnetswitchlite::step::Step;

type Reply = ServiceReply;

const ID: &str = "6a0ddc3f-3e1e-4c4b-9d0e-0b7f9c0c8a11";

fn key() -> AccountKey {
    AccountKey { environment: "eu.actual.battle.net".into(), account_id: "1:2".into() }
}

fn other_key() -> AccountKey {
    AccountKey { environment: "eu.actual.battle.net".into(), account_id: "1:3".into() }
}

fn service() -> MacosPlatformService {
    MacosPlatformService::new(StartFacts {
        store: Ok(DataStore::open_for_macos("/Users/me/Library/Application Support")),
        hidden_accounts: Ok(HiddenAccounts::new()),
        settings: Ok(SettingsDocument { version: 1, client_executable_path: None }),
        paths: BattleNetPaths::discover(Some("/Users/me/Library/Application Support".into())),
        snapshots: Ok(()),
        recovery: Ok(()),
        record: Ok(None),
    })
    .unwrap()
}

fn shown() -> AppSnapshot {
    service()
        .snapshot_from_catalog(
            Err(AppError::AccountDatabaseMissing),
            SnapshotFacts {
                version: "1.0.0".into(),
                client: Ok(Some(ShownClient { bundle: "/A.app".into(), running: Ok(true) })),
                login_session: Ok(None),
                now: 3,
            },
            |_: &AccountKey| (SnapshotStatus::Missing, None, None),
        )
        .unwrap()
}

fn validated() -> ValidatedClient {
    ValidatedClient {
        bundle: "/Applications/Battle.net.app".into(),
        main_executable: "/Applications/Battle.net.app/Contents/MacOS/Battle.net".into(),
        agent_root: "/Users/Shared/Battle.net/Agent".into(),
        agent_bundles: vec![],
    }
}

fn record(kind: RecoveryKind, state: RecoveryState) -> RecoveryRecord {
    RecoveryRecord {
        version: 1,
        id: ID.into(),
        kind,
        state,
        before_snapshot_id: "6a0ddc3f-3e1e-4c4b-9d0e-0b7f9c0c8a12".into(),
        candidate_snapshot_id: None,
        previous_client_was_running: true,
        created_at: 1,
    }
}

fn payload(account: Option<AccountKey>) -> SecurePayload {
    let preferences = PreferenceSnapshot { any_host: vec![1], current_host: vec![2] };
    capture_current(None, account, 1, preferences)
}

fn done() -> Reply {
    Reply::Done(Ok(()))
}

fn failed(message: &str) -> Reply {
    Reply::Done(Err(AppError::Message(message.into())))
}

fn client() -> Reply {
    Reply::Client(Ok(validated()))
}

fn catalog(current: Option<AccountKey>) -> AccountCatalog {
    AccountCatalog { accounts: vec![], current_account_key: current }
}

fn hidden_document(keys: Vec<AccountKey>) -> StoredDocument<HiddenAccountsDocument> {
    StoredDocument::Present(HiddenAccountsDocument {
        version: 1,
        accounts: keys
            .into_iter()
            .map(|key| HiddenAccountKey {
                environment: key.environment,
                account_id: key.account_id,
            })
            .collect(),
    })
}

/// Gives the answers in turn: the progress that was reported, and the end or the state in
/// which an answer is awaited.
fn play<O, T>(
    first: O,
    replies: Vec<Reply>,
    mut resume: impl FnMut(O, Reply) -> Step<O, T>,
) -> (Vec<u8>, Result<Result<T, AppError>, O>) {
    let mut operation = first;
    let mut progress = Vec::new();
    for reply in replies {
        match resume(operation, reply) {
            Step::Perform { operation: next, report } => {
                progress.extend(report.map(|event| event.progress));
                operation = next;
            }
            Step::Finished(result) => return (progress, Ok(result)),
        }
    }
    (progress, Err(operation))
}

fn error_of<O: std::fmt::Debug, T>(played: (Vec<u8>, Result<Result<T, AppError>, O>)) -> String {
    match played.1 {
        Ok(Err(error)) => error.message(),
        Ok(Ok(_)) => panic!("it succeeded"),
        Err(operation) => panic!("not finished: {operation:?}"),
    }
}

#[test]
fn macos_committed_operations_are_finished_and_others_undone_at_the_start() {
    for (kind, state, finished) in [
        (RecoveryKind::Login, RecoveryState::Committed, true),
        (RecoveryKind::Switch, RecoveryState::Committed, true),
        (RecoveryKind::Switch, RecoveryState::Prepared, false),
        (RecoveryKind::Login, RecoveryState::AwaitingUser, false),
    ] {
        let mut service = service();
        let found = Reply::Record(Ok(Some(record(kind, state))));
        let (_, asked) = play(service.prepare_for_use(), vec![found, done()], |operation, reply| {
            operation.resume(&mut service, reply)
        });
        match asked.unwrap_err() {
            PrepareForUse::Finalizing { id } => {
                assert!(finished && kind == RecoveryKind::Login && id == ID);
            }
            PrepareForUse::Cleaning { id } => {
                assert!(finished && kind == RecoveryKind::Switch && id == ID);
            }
            PrepareForUse::ResolvingClient { .. } => assert!(!finished),
            other => panic!("asked {other:?}"),
        }
    }
    let mut service = service();
    let (_, end) = play(
        service.prepare_for_use(),
        vec![
            Reply::Record(Ok(Some(record(RecoveryKind::Login, RecoveryState::Committed)))),
            done(),
            Reply::Committed(Ok(CleanupOutcome::Clean)),
        ],
        |operation, reply| operation.resume(&mut service, reply),
    );
    assert!(end.unwrap().is_ok());
    assert_eq!(service.startup_notice.as_deref(), Some("已完成上次操作的安全清理。"));
    let (_, end) = play(
        service.prepare_for_use(),
        vec![
            Reply::Record(Ok(Some(record(RecoveryKind::Switch, RecoveryState::Prepared)))),
            done(),
            Reply::Client(Err(AppError::ClientExecutableMissing)),
        ],
        |operation, reply| operation.resume(&mut service, reply),
    );
    assert!(end.unwrap().is_ok());
    assert!(service.startup_notice.unwrap().starts_with("上次操作仍需恢复"));
}

#[test]
fn macos_unfinished_operation_is_undone_while_the_client_is_stopped() {
    for (kind, progress) in
        [(RecoveryKind::Switch, vec![68, 100]), (RecoveryKind::Login, vec![68, 100])]
    {
        let mut service = service();
        let first = match service.recover_incomplete(record(kind, RecoveryState::Prepared), validated())
        {
            Step::Perform { operation, .. } => operation,
            Step::Finished(_) => panic!("ended at once"),
        };
        let mut replies = vec![Reply::Flag(Ok(true)), done(), done(), done()];
        if kind == RecoveryKind::Switch {
            replies.push(done());
        }
        replies.push(Reply::Reported);
        let (reported, end) =
            play(first, replies, |operation, reply| operation.resume(&mut service, reply));
        assert_eq!(reported, progress);
        assert!(end.unwrap().is_ok());
        assert_eq!(
            service.startup_notice.as_deref(),
            Some("已恢复上次未完成操作前的战网状态。")
        );
    }
}

#[test]
fn macos_detected_accounts_are_shown_again() {
    let mut service = service();
    let found = AccountCatalog {
        accounts: vec![DiscoveredAccount {
            key: key(),
            internal_name: "one".into(),
            battle_tag: "One#1".into(),
        }],
        current_account_key: None,
    };
    let (_, state) = play(
        service.detect_accounts(),
        vec![
            done(),
            client(),
            Reply::Catalog(Ok(found)),
            Reply::Hidden(hidden_document(vec![key(), other_key()])),
            Reply::Written(WrittenDocument::Done),
        ],
        |operation, reply| operation.resume(&mut service, reply),
    );
    assert!(matches!(state, Err(DetectAccounts::Showing { found: Ok(_) })));
    let left = service.document_with(&other_key());
    assert_eq!(left.accounts.len(), 1);
    assert_eq!(left.accounts[0].account_id, "1:3");
}

#[test]
fn macos_removed_account_is_hidden() {
    let mut service = service();
    let (_, end) = play(
        service.remove_account(&key()),
        vec![
            done(),
            Reply::Record(Ok(None)),
            done(),
            Reply::Hidden(StoredDocument::Missing),
            Reply::Written(WrittenDocument::Done),
            Reply::Snapshot(Ok(shown())),
        ],
        |operation, reply| operation.resume(&mut service, reply),
    );
    assert!(end.unwrap().is_ok());
    assert_eq!(service.document_with(&key()).accounts.len(), 1);
    let waiting = Reply::Record(Ok(Some(record(RecoveryKind::Login, RecoveryState::AwaitingUser))));
    assert_eq!(
        error_of(play(service.remove_account(&key()), vec![done(), waiting], |operation, reply| {
            operation.resume(&mut service, reply)
        })),
        "请先完成或取消当前账号操作"
    );
}

#[test]
fn macos_client_path_is_kept_and_a_prepared_operation_undone() {
    let mut service = service();
    let (_, end) = play(
        service.set_client_path("/Applications/Battle.net.app"),
        vec![
            done(),
            client(),
            Reply::Settings(StoredDocument::Missing),
            Reply::Written(WrittenDocument::Done),
            Reply::Record(Ok(Some(record(RecoveryKind::Switch, RecoveryState::Prepared)))),
            done(),
            Reply::Snapshot(Ok(shown())),
        ],
        |operation, reply| operation.resume(&mut service, reply),
    );
    assert!(end.unwrap().is_ok());
    assert_eq!(
        service.settings.client_executable_path.as_deref(),
        Some("/Applications/Battle.net.app")
    );
}

#[test]
fn macos_cancelled_login_brings_the_client_back() {
    let run = |rest: Vec<Reply>| {
        let mut replies = vec![
            done(),
            Reply::Record(Ok(Some(record(RecoveryKind::Login, RecoveryState::AwaitingUser)))),
            client(),
            Reply::Flag(Ok(true)),
            done(),
            done(),
        ];
        replies.extend(rest);
        play(service().cancel_login(ID), replies, |operation, reply| operation.resume(reply))
    };
    let (progress, end) = run(vec![done(), done(), done(), Reply::Snapshot(Ok(shown()))]);
    assert_eq!(progress, vec![72, 84, 94, 100]);
    assert!(end.unwrap().is_ok());
    assert_eq!(error_of(run(vec![failed("坏")])), "坏");
    let other = play(
        service().cancel_login("other"),
        vec![
            done(),
            Reply::Record(Ok(Some(record(RecoveryKind::Login, RecoveryState::AwaitingUser)))),
        ],
        |operation, reply| operation.resume(reply),
    );
    assert!(other.1.unwrap().is_err());
}

fn waiting() -> Reply {
    Reply::Context(Ok(RecoveryEnvelope {
        before: payload(None),
        context: RecoveryContext::Login {
            intent: LoginIntent::Reauthenticate { account_key: key() },
            previous_account: None,
        },
    }))
}

#[test]
fn macos_completed_login_is_proved_staged_and_finished() {
    let mut service = service();
    let replies = vec![
        Reply::Record(Ok(Some(record(RecoveryKind::Login, RecoveryState::AwaitingUser)))),
        waiting(),
        client(),
        Reply::Answer(false),
        Reply::Answer(false),
        Reply::Evidence { ready: Ok(true), now_ms: 1 },
        Reply::Flag(Ok(true)),
        done(),
        done(),
        Reply::Answer(false),
        done(),
        Reply::Catalog(Ok(catalog(Some(key())))),
        Reply::Flag(Ok(true)),
        Reply::Answer(false),
        Reply::Payload(Ok(payload(Some(key())))),
        Reply::Recorded(Ok(record(RecoveryKind::Login, RecoveryState::AwaitingUser))),
        Reply::Answer(true),
        Reply::Recorded(Ok(record(RecoveryKind::Login, RecoveryState::Committed))),
        Reply::Committed(Ok(CleanupOutcome::Pending("busy".into()))),
        done(),
        done(),
        Reply::Snapshot(Ok(shown())),
    ];
    let (progress, end) = play(
        service.complete_login_after_lock(ID),
        replies,
        |operation: CompleteAfterLock, reply| operation.resume(&mut service, reply),
    );
    assert_eq!(progress, vec![32, 48, 68, 88, 100]);
    assert!(end.unwrap().is_ok());
    assert_eq!(
        service.startup_notice.as_deref(),
        Some("账号已保存，临时恢复文件将在下次启动时继续清理：busy")
    );
}

#[test]
fn macos_committed_login_is_saved_and_shown() {
    let mut service = service();
    let replies = || {
        vec![
            Reply::Record(Ok(Some(record(RecoveryKind::Login, RecoveryState::Committed)))),
            Reply::Payload(Ok(payload(Some(key())))),
            done(),
            Reply::Hidden(hidden_document(vec![key(), other_key()])),
            Reply::Written(WrittenDocument::Done),
        ]
    };
    for (cleaned, expected) in [(done(), true), (failed("busy"), false)] {
        let mut all = replies();
        all.push(cleaned);
        let (_, end) = play(service.finalize_committed_login(ID), all, |operation, reply| {
            operation.resume(&mut service, reply)
        });
        match end.unwrap().unwrap() {
            CleanupOutcome::Clean => assert!(expected),
            CleanupOutcome::Pending(error) => assert!(!expected && error == "busy"),
        }
    }
    assert_eq!(service.document_with(&other_key()).accounts.len(), 1);
    for (found, message) in [
        (
            vec![Reply::Record(Ok(Some(record(RecoveryKind::Login, RecoveryState::AwaitingUser))))],
            "登录流程失败：登录结果尚未提交",
        ),
        (
            vec![
                Reply::Record(Ok(Some(record(RecoveryKind::Login, RecoveryState::Committed)))),
                Reply::Payload(Ok(payload(None))),
            ],
            "登录流程失败：登录候选快照缺少账号身份",
        ),
    ] {
        assert_eq!(
            error_of(play(service.finalize_committed_login(ID), found, |operation, reply| {
                operation.resume(&mut service, reply)
            })),
            message
        );
    }
}

#[test]
fn macos_failed_completion_is_undone_or_cancelled() {
    let run = |rest: Vec<Reply>| {
        let mut replies =
            vec![done(), done(), Reply::Snapshot(Err(AppError::Login("失败".into())))];
        replies.extend(rest);
        play(service().complete_login(ID), replies, |operation: CompleteLogin, reply| {
            operation.resume(reply)
        })
    };
    assert!(matches!(
        run(vec![Reply::Answer(true), client()]).1,
        Err(CompleteLogin::Undoing { .. })
    ));
    assert_eq!(
        error_of(run(vec![
            Reply::Answer(false),
            Reply::Answer(true),
            Reply::Snapshot(Err(AppError::Login("坏".into()))),
        ])),
        "登录流程失败：失败；取消时恢复失败：坏"
    );
    assert_eq!(
        error_of(run(vec![Reply::Answer(false), Reply::Answer(false)])),
        "登录流程失败：失败"
    );
}

#[test]
fn macos_login_is_proved_by_its_keys_and_its_account() {
    let run = |replies: Vec<Reply>| {
        play(service().login_evidence_ready(&key()), replies, |operation, reply| {
            operation.resume(reply)
        })
        .1
        .unwrap()
    };
    assert!(!run(vec![Reply::Flag(Ok(false))]).unwrap());
    assert!(run(vec![Reply::Flag(Ok(true)), Reply::Catalog(Ok(catalog(Some(key()))))]).unwrap());
    for current in [None, Some(other_key())] {
        assert!(!run(vec![Reply::Flag(Ok(true)), Reply::Catalog(Ok(catalog(current)))]).unwrap());
    }
    assert!(run(vec![Reply::Flag(Err(AppError::StateUnavailable))]).is_err());
}

fn processes(paths: &[(i32, &str)]) -> Vec<RelatedProcess> {
    paths.iter().map(|(pid, path)| RelatedProcess { pid: *pid, path: (*path).into() }).collect()
}

const MAIN: &str = "/Applications/Battle.net.app/Contents/MacOS/Battle.net";
const HELPER: &str = "/Applications/Battle.net.app/Contents/Frameworks/Helper";

#[test]
fn macos_client_is_stopped_after_two_empty_samples_in_a_row() {
    let client = validated();
    let mut check = lifecycle::ensure_client_stopped();
    for found in [processes(&[]), processes(&[(2, HELPER)]), processes(&[])] {
        match check.resume(&client, ProcessSample::Processes(Ok(found))) {
            Step::Perform { operation, .. } => check = operation,
            Step::Finished(_) => panic!("ended too early"),
        }
    }
    assert!(matches!(
        check.resume(&client, ProcessSample::Processes(Ok(processes(&[])))),
        Step::Finished(Ok(()))
    ));
    let restarted = lifecycle::ensure_client_stopped()
        .resume(&client, ProcessSample::Processes(Ok(processes(&[(1, MAIN)]))));
    assert!(matches!(restarted, Step::Finished(Err(AppError::Message(_)))));
    let late = lifecycle::ensure_client_stopped().resume(&client, ProcessSample::OutOfTime);
    assert!(matches!(late, Step::Finished(Err(AppError::Message(_)))));
}

#[test]
fn macos_only_processes_that_are_still_there_are_asked_to_end() {
    let client = validated();
    let step = lifecycle::graceful_stop()
        .resume(&client, StopReply::Listed(Ok(processes(&[(1, MAIN), (2, HELPER)]))));
    let Step::Perform { operation, .. } = step else { panic!("nothing was asked") };
    let step = operation.resume(&client, StopReply::Listed(Ok(processes(&[(1, MAIN), (2, HELPER)]))));
    let Step::Perform { operation, .. } = step else { panic!("nothing was asked") };
    match &operation {
        GracefulStop::Asking { targets, index } => assert_eq!(targets[*index].pid, 1),
        other => panic!("asked {other:?}"),
    }
    let Step::Perform { operation, .. } = operation.resume(&client, StopReply::Asked) else {
        panic!("ended too early")
    };
    let step = operation.resume(&client, StopReply::Listed(Ok(processes(&[(1, MAIN), (2, MAIN)]))));
    let Step::Perform { mut operation, .. } = step else { panic!("ended too early") };
    assert!(matches!(operation, GracefulStop::Waiting { empty_samples: 0 }));
    for _ in 0..2 {
        let sample = ProcessSample::Processes(Ok(processes(&[])));
        match operation.resume(&client, StopReply::Sampled(sample)) {
            Step::Perform { operation: next, .. } => operation = next,
            Step::Finished(result) => {
                assert!(result.is_ok());
                return;
            }
        }
    }
    panic!("not finished");
}

#[test]
fn macos_process_list_is_read_into_a_larger_buffer() {
    let Step::Perform { operation, .. } = lifecycle::enumerate_user_pids().resume(400) else {
        panic!("ended too early")
    };
    assert!(matches!(operation, EnumeratePids::Reading { capacity: 356, attempts: 0 }));
    let Step::Perform { operation, .. } = operation.resume(356 * 4) else {
        panic!("ended too early")
    };
    assert!(matches!(operation, EnumeratePids::Reading { capacity: 712, attempts: 1 }));
    assert!(matches!(operation.resume(40), Step::Finished(Ok(10))));
    assert!(matches!(
        lifecycle::enumerate_user_pids().resume(0),
        Step::Finished(Err(AppError::Message(_)))
    ));
    let pids = lifecycle::enumerate_relevant_user_pids(vec![5, 3], Some(vec![3, 1]));
    assert_eq!(pids, vec![1, 3, 5]);
    assert_eq!(lifecycle::enumerate_relevant_user_pids(vec![5, 3], None), vec![5, 3]);
}
