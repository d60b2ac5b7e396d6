//! The operations of the Windows side on files that are kept in memory.

use std::collections::BTreeMap;

use bnetswitchlite::contracts::AccountKey;
use bnetswitchlite::contracts::LoginIntent;
use bnetswitchlite::contracts::LoginSessionSnapshot;
use bnetswitchlite::data_store::WrittenDocument;
use bnetswitchlite::error::AppError;
use bnetswitchlite::ordered::TextMap;
use bnetswitchlite::platform::windows::authentication::AuthenticationBaseline;
use bnetswitchlite::platform::windows::config::clear_saved_account_names;
use bnetswitchlite::platform::windows::config::saved_account_names_present;
use bnetswitchlite::platform::windows::login_session::BeginLogin;
use bnetswitchlite::platform::windows::login_session::CompleteSession;
use bnetswitchlite::platform::windows::login_session::LoginRecoveryOutcome;
use bnetswitchlite::platform::windows::login_session::LoginSessionManager;
use bnetswitchlite::platform::windows::login_session::RecoverSession;
use bnetswitchlite::platform::windows::login_session::RollbackSession;
use bnetswitchlite::platform::windows::login_session::SessionReply;
use bnetswitchlite::platform::windows::recovery;
use bnetswitchlite::platform::windows::recovery::CleanupRecovery;
use bnetswitchlite::platform::windows::recovery::CleanupReply;
use bnetswitchlite::platform::windows::recovery::CommitRecovery;
use bnetswitchlite::platform::windows::recovery::DropRecovery;
use bnetswitchlite::platform::windows::recovery::PrepareRecovery;
use bnetswitchlite::platform::windows::recovery::PrepareReply;
use bnetswitchlite::platform::windows::recovery::RecoveryCommitOutcome;
use bnetswitchlite::platform::windows::recovery::RecoveryKind;
use bnetswitchlite::platform::windows::recovery::RecoveryRecord;
use bnetswitchlite::platform::windows::recovery::RecoveryReply;
use bnetswitchlite::platform::windows::recovery::RecoveryState;
use bnetswitchlite::platform::windows::recovery::RecoveryStore;
use bnetswitchlite::platform::windows::recovery::RollbackRecovery;
use bnetswitchlite::platform::windows::recovery::SlotFacts;
use bnetswitchlite::platform::windows::recovery::TransitionRecovery;
use bnetswitchlite::platform::windows::restore::ApplySnapshot;
use bnetswitchlite::platform::windows::restore::CommitOutcome;
use bnetswitchlite::platform::windows::restore::CommitSwitch;
use bnetswitchlite::platform::windows::restore::RecoverSwitch;
use bnetswitchlite::platform::windows::restore::RecoveryOutcome;
use bnetswitchlite::platform::windows::restore::ReplaceFiles;
use bnetswitchlite::platform::windows::restore::ReplaceReply;
use bnetswitchlite::platform::windows::restore::RestoreEngine;
use bnetswitchlite::platform::windows::restore::RestoreReceipt;
use bnetswitchlite::platform::windows::restore::RestoreReply;
use bnetswitchlite::platform::windows::restore::RollbackSwitch;
use bnetswitchlite::platform::windows::snapshot;
use bnetswitchlite::platform::windows::snapshot::AccountProfile;
use bnetswitchlite::platform::windows::snapshot::DocumentError;
use bnetswitchlite::platform::windows::snapshot::FileSetManifest;
use bnetswitchlite::platform::windows::snapshot::HashedFile;
use bnetswitchlite::platform::windows::snapshot::ManifestFile;
use bnetswitchlite::platform::windows::snapshot::SnapshotManifest;
use bnetswitchlite::platform::windows::snapshot::SnapshotSummary;
use bnetswitchlite::platform::windows::snapshot::ValidatedSnapshot;
use bnetswitchlite::platform::windows::snapshot_store::Presence;
use bnetswitchlite::platform::windows::snapshot_store::RemoveReply;
use bnetswitchlite::platform::windows::snapshot_store::RemoveSnapshot;
use bnetswitchlite::platform::windows::snapshot_store::SaveReply;
use bnetswitchlite::platform::windows::snapshot_store::SaveSnapshot;
use bnetswitchlite::platform::windows::snapshot_store::SnapshotStore;
use bnetswitchlite::platform::windows::snapshot_store::ValidateReply;
use bnetswitchlite::platform::windows::snapshot_store::ValidateSnapshot;
use bnetswitchlite::step::Step;

type Files = BTreeMap<String, Vec<u8>>;

fn files(entries: &[(&str, &[u8])]) -> Files {
    entries.iter().map(|(name, bytes)| ((*name).to_owned(), bytes.to_vec())).collect()
}

fn manifest_of(files: &Files) -> Vec<ManifestFile> {
    files
        .iter()
        .map(|(name, bytes)| {
            let (size, sha256) = snapshot::hash_bytes(bytes);
            ManifestFile { name: name.clone(), size, sha256 }
        })
        .collect()
}

fn check(expected: &Vec<ManifestFile>, files: &Files) -> Result<(), AppError> {
    let actual = files
        .iter()
        .map(|(name, bytes)| HashedFile {
            name: name.clone(),
            digest: Ok(snapshot::hash_bytes(bytes)),
        })
        .collect();
    snapshot::validate_file_set(Ok(()), expected, Ok(actual))
}

fn copy_files(expected: &Vec<ManifestFile>) -> Vec<ManifestFile> {
    expected.iter().map(|file| file.clone()).collect()
}

fn copy_record(record: &RecoveryRecord) -> RecoveryRecord {
    RecoveryRecord {
        version: record.version,
        id: record.id.clone(),
        state: record.state,
        previous_client_was_running: record.previous_client_was_running,
        kind: match &record.kind {
            RecoveryKind::Switch { target_account, previous_account } => RecoveryKind::Switch {
                target_account: target_account.clone(),
                previous_account: previous_account.clone(),
            },
            RecoveryKind::Login {
                intent,
                previous_account,
                created_at,
                authentication_baseline,
            } => RecoveryKind::Login {
                intent: intent.clone(),
                previous_account: previous_account.clone(),
                created_at: *created_at,
                authentication_baseline: authentication_baseline.clone(),
            },
        },
    }
}

fn key(id: &str) -> AccountKey {
    AccountKey { environment: "cn".into(), account_id: id.into() }
}

/// A saved account: its profile, and its generations with their manifests.
struct Saved {
    profile: Option<AccountProfile>,
    generations: BTreeMap<String, (Option<SnapshotManifest>, Files)>,
}

/// The client's files, the recovery slot and the saved accounts.
struct World {
    active: Files,
    staged: Option<(Vec<ManifestFile>, Files)>,
    before: Option<(Vec<ManifestFile>, Files)>,
    record: Option<RecoveryRecord>,
    /// How many records can still be written, where that is limited.
    writes: Option<usize>,
    /// Whether the client is stopped.
    stopped: bool,
    accounts: BTreeMap<String, Saved>,
    clock: u64,
    /// Whether a directory can be deleted.
    deletable: bool,
    aside: Option<Saved>,
}

impl World {
    fn new(active: &[(&str, &[u8])]) -> World {
        World {
            active: files(active),
            staged: None,
            before: None,
            record: None,
            writes: None,
            stopped: true,
            accounts: BTreeMap::new(),
            clock: 1,
            deletable: true,
            aside: None,
        }
    }

    fn stored(&self) -> Option<Result<RecoveryRecord, DocumentError>> {
        self.record.as_ref().map(|record| Ok(copy_record(record)))
    }

    fn read(&self) -> Result<RecoveryRecord, DocumentError> {
        match &self.record {
            Some(record) => Ok(copy_record(record)),
            None => Err(DocumentError::Unreadable("missing".into())),
        }
    }

    fn write(&mut self, record: &RecoveryRecord) -> WrittenDocument {
        match self.writes {
            Some(0) => {
                self.writes = None;
                return WrittenDocument::NotWritten("injected".into());
            }
            Some(left) => self.writes = Some(left - 1),
            None => {}
        }
        self.record = Some(copy_record(record));
        WrittenDocument::Done
    }

    fn guard(&self) -> Result<(), AppError> {
        if self.stopped {
            Ok(())
        } else {
            Err(AppError::Message("the client runs".into()))
        }
    }

    fn is_empty(&self) -> bool {
        self.record.is_none() && self.before.is_none() && self.staged.is_none()
    }

    fn prepare(&mut self, kind: RecoveryKind, running: bool) -> Result<RecoveryRecord, AppError> {
        let mut operation = RecoveryStore::prepare("active", kind, running);
        loop {
            let reply = match &operation {
                PrepareRecovery::CheckingSlot { .. } => PrepareReply::Slot(SlotFacts {
                    record_exists: self.record.is_some(),
                    entries: Ok(Ok(!self.is_empty())),
                }),
                PrepareRecovery::CheckingActive { .. } => PrepareReply::Checked(Ok(())),
                PrepareRecovery::CreatingStaging { .. } => {
                    self.staged = Some((vec![], Files::new()));
                    PrepareReply::Io(Ok(()))
                }
                PrepareRecovery::Capturing { .. } => {
                    self.staged = Some((vec![], self.active.clone()));
                    PrepareReply::Captured(Ok(snapshot::captured_file_set(
                        manifest_of(&self.active),
                        self.clock,
                    )))
                }
                PrepareRecovery::WritingManifest { manifest, .. } => {
                    self.staged.as_mut().unwrap().0 = copy_files(&manifest.files);
                    PrepareReply::Checked(Ok(()))
                }
                PrepareRecovery::CheckingFiles { manifest, .. } => PrepareReply::Checked(check(
                    &manifest.files,
                    &self.staged.as_ref().unwrap().1,
                )),
                PrepareRecovery::Publishing { .. } => {
                    self.before = self.staged.take();
                    PrepareReply::Io(Ok(()))
                }
                PrepareRecovery::RemovingStaging { .. } => {
                    self.staged = None;
                    PrepareReply::Io(Ok(()))
                }
                PrepareRecovery::WritingRecord { record } => {
                    let record = copy_record(record);
                    PrepareReply::Written(self.write(&record))
                }
                PrepareRecovery::Discarding { .. } => {
                    self.staged = None;
                    PrepareReply::Finished
                }
                PrepareRecovery::CheckingRecord { .. } => {
                    PrepareReply::Exists(self.record.is_some())
                }
                PrepareRecovery::RemovingBefore { .. } => {
                    self.before = None;
                    PrepareReply::Finished
                }
            };
            match operation.resume(reply) {
                Step::Perform { operation: next, .. } => operation = next,
                Step::Finished(result) => return result,
            }
        }
    }

    fn cleanup(&mut self) -> Result<(), AppError> {
        let mut operation = recovery::cleanup();
        loop {
            let reply = match operation {
                CleanupRecovery::RemovingRecord => {
                    self.record = None;
                    CleanupReply::Io(Ok(()))
                }
                CleanupRecovery::RemovingBefore => {
                    self.before = None;
                    CleanupReply::Checked(Ok(()))
                }
            };
            match operation.resume(reply) {
                Step::Perform { operation: next, .. } => operation = next,
                Step::Finished(result) => return result,
            }
        }
    }

    fn transition(&mut self, id: &str, state: RecoveryState) -> Result<RecoveryRecord, AppError> {
        let mut operation = TransitionRecovery::Loading { id: id.to_owned(), state };
        loop {
            let reply = match &operation {
                TransitionRecovery::Loading { .. } => RecoveryReply::Record(self.read()),
                TransitionRecovery::Writing { record } => {
                    let record = copy_record(record);
                    RecoveryReply::Written(self.write(&record))
                }
            };
            match operation.resume(reply) {
                Step::Perform { operation: next, .. } => operation = next,
                Step::Finished(result) => return result,
            }
        }
    }

    fn commit_slot(&mut self, id: &str) -> Result<RecoveryCommitOutcome, AppError> {
        let mut operation = RecoveryStore::commit(id);
        loop {
            let reply = match &operation {
                CommitRecovery::Loading { .. } => RecoveryReply::Record(self.read()),
                CommitRecovery::Writing { record } => {
                    let record = copy_record(record);
                    RecoveryReply::Written(self.write(&record))
                }
                CommitRecovery::Cleaning { .. } => RecoveryReply::Done(self.cleanup()),
            };
            match operation.resume(reply) {
                Step::Perform { operation: next, .. } => operation = next,
                Step::Finished(result) => return result,
            }
        }
    }

    fn drop_slot(&mut self, mut operation: DropRecovery) -> Result<(), AppError> {
        loop {
            let reply = match &operation {
                DropRecovery::Loading { .. } => RecoveryReply::Record(self.read()),
                DropRecovery::Cleaning => RecoveryReply::Done(self.cleanup()),
            };
            match operation.resume(reply) {
                Step::Perform { operation: next, .. } => operation = next,
                Step::Finished(result) => return result,
            }
        }
    }

    fn replace(&mut self, source: &Files, files: Vec<ManifestFile>) -> Result<(), AppError> {
        let mut operation = RestoreEngine::replace_active_file_set("source".into(), files);
        loop {
            let reply = match &operation {
                ReplaceFiles::CheckingActive { .. } => ReplaceReply::Checked(Ok(())),
                ReplaceFiles::CheckingSource { job } => {
                    ReplaceReply::Checked(check(&job.files, source))
                }
                ReplaceFiles::Listing { .. } => {
                    let mut listed = TextMap::new();
                    for name in self.active.keys() {
                        listed = listed.with(name.clone(), format!("active\\{name}"));
                    }
                    ReplaceReply::Listed(Ok(listed))
                }
                ReplaceFiles::Replacing { job, index, .. } => {
                    let name = job.files[*index].name.clone();
                    self.active.insert(name.clone(), source[&name].clone());
                    ReplaceReply::Io(Ok(()))
                }
                ReplaceFiles::Removing { stale, index, .. } => {
                    self.active.remove(stale[*index].rsplit('\\').next().unwrap());
                    ReplaceReply::Io(Ok(()))
                }
                ReplaceFiles::CheckingResult { job } => {
                    ReplaceReply::Checked(check(&job.files, &self.active))
                }
            };
            match operation.resume(reply) {
                Step::Perform { operation: next, .. } => operation = next,
                Step::Finished(result) => return result,
            }
        }
    }

    fn rollback_slot(&mut self, id: &str) -> Result<(), AppError> {
        let mut operation = RecoveryStore::rollback(id);
        loop {
            let reply = match &operation {
                RollbackRecovery::Loading { .. } => RecoveryReply::Record(self.read()),
                RollbackRecovery::CheckingBefore => RecoveryReply::Done(Ok(())),
                RollbackRecovery::ReadingManifest => {
                    let manifest = &self.before.as_ref().unwrap().0;
                    RecoveryReply::Manifest(Ok(FileSetManifest {
                        version: 1,
                        created_at: 1,
                        files: copy_files(manifest),
                    }))
                }
                RollbackRecovery::CheckingFiles { files } => {
                    RecoveryReply::Done(check(files, &self.before.as_ref().unwrap().1))
                }
                RollbackRecovery::ConfirmingStopped { .. } => RecoveryReply::Done(self.guard()),
                RollbackRecovery::Replacing { files } => {
                    let files = copy_files(files);
                    let source = self.before.as_ref().unwrap().1.clone();
                    RecoveryReply::Done(self.replace(&source, files))
                }
                RollbackRecovery::Cleaning => RecoveryReply::Done(self.cleanup()),
            };
            match operation.resume(reply) {
                Step::Perform { operation: next, .. } => operation = next,
                Step::Finished(result) => return result,
            }
        }
    }

    fn apply(
        &mut self,
        account: &AccountKey,
        previous: Option<AccountKey>,
        running: bool,
    ) -> Result<RestoreReceipt, AppError> {
        let target = self.validate(account)?;
        let source = self.generation(account);
        let mut operation = RestoreEngine::apply_snapshot(target, previous, running);
        loop {
            let reply = match &operation {
                ApplySnapshot::CheckingSlot { .. } => RestoreReply::Slot(self.stored()),
                ApplySnapshot::CheckingActive { .. } => RestoreReply::Flag(true),
                ApplySnapshot::CheckingTarget { job } => {
                    RestoreReply::Done(check(&job.target.files, &source))
                }
                ApplySnapshot::CheckingPath { .. } => RestoreReply::Done(Ok(())),
                ApplySnapshot::CheckingSpace { .. } => RestoreReply::Space(Ok(1 << 40)),
                ApplySnapshot::Preparing { job } => {
                    let kind = job.kind();
                    let running = job.previous_client_was_running;
                    RestoreReply::Prepared(self.prepare(kind, running))
                }
                ApplySnapshot::ConfirmingStopped { .. } => RestoreReply::Done(self.guard()),
                ApplySnapshot::Discarding { id, .. } => {
                    let operation = RecoveryStore::discard_prepared(id);
                    RestoreReply::Done(self.drop_slot(operation))
                }
                ApplySnapshot::Replacing { job, .. } => {
                    let files = copy_files(&job.target.files);
                    RestoreReply::Done(self.replace(&source, files))
                }
                ApplySnapshot::RollingBack { id, .. } => {
                    let id = id.clone();
                    RestoreReply::Done(self.rollback_slot(&id))
                }
            };
            match operation.resume(reply) {
                Step::Perform { operation: next, .. } => operation = next,
                Step::Finished(result) => return result,
            }
        }
    }

    fn commit(&mut self, receipt: &RestoreReceipt) -> Result<CommitOutcome, AppError> {
        let mut operation = RestoreEngine::commit(receipt);
        loop {
            let reply = match &operation {
                CommitSwitch::CheckingSlot { .. } => RestoreReply::Slot(self.stored()),
                CommitSwitch::Committing { id } => {
                    let id = id.clone();
                    RestoreReply::Committed(self.commit_slot(&id))
                }
            };
            match operation.resume(reply) {
                Step::Perform { operation: next, .. } => operation = next,
                Step::Finished(result) => return result,
            }
        }
    }

    fn rollback(&mut self, receipt: &RestoreReceipt) -> Result<(), AppError> {
        let mut operation = RestoreEngine::rollback(receipt);
        loop {
            let reply = match &operation {
                RollbackSwitch::CheckingSlot { .. } => RestoreReply::Slot(self.stored()),
                RollbackSwitch::RollingBack { id } => {
                    let id = id.clone();
                    RestoreReply::Done(self.rollback_slot(&id))
                }
            };
            match operation.resume(reply) {
                Step::Perform { operation: next, .. } => operation = next,
                Step::Finished(result) => return result,
            }
        }
    }

    fn recover_switch(&mut self) -> Result<RecoveryOutcome, AppError> {
        let mut operation = RestoreEngine::recover_pending();
        loop {
            let reply = match &operation {
                RecoverSwitch::CheckingSlot => RestoreReply::Slot(self.stored()),
                RecoverSwitch::RollingBack { id } => {
                    let id = id.clone();
                    RestoreReply::Done(self.rollback_slot(&id))
                }
                RecoverSwitch::Cleaning { id } => {
                    let operation = RecoveryStore::cleanup_committed(id);
                    RestoreReply::Done(self.drop_slot(operation))
                }
            };
            match operation.resume(reply) {
                Step::Perform { operation: next, .. } => operation = next,
                Step::Finished(result) => return result,
            }
        }
    }

    fn begin(
        &mut self,
        running: bool,
        previous: Option<AccountKey>,
    ) -> Result<LoginSessionSnapshot, AppError> {
        let mut operation = LoginSessionManager::begin(
            LoginIntent::Reauthenticate { account_key: key("before") },
            running,
            previous,
            AuthenticationBaseline::default(),
        );
        loop {
            let reply = match &operation {
                BeginLogin::CheckingSlot { .. } => SessionReply::Slot(self.stored()),
                BeginLogin::CheckingActive { .. } => SessionReply::Flag(true),
                BeginLogin::CheckingPath { .. } => SessionReply::Done(Ok(())),
                BeginLogin::ReadingClock { .. } => SessionReply::Time(self.clock),
                BeginLogin::Preparing { kind, previous_client_was_running, .. } => {
                    let running = *previous_client_was_running;
                    let RecoveryKind::Login {
                        intent,
                        previous_account,
                        created_at,
                        authentication_baseline,
                    } = kind
                    else {
                        panic!("a login was prepared as another operation");
                    };
                    let kind = RecoveryKind::Login {
                        intent: intent.clone(),
                        previous_account: previous_account.clone(),
                        created_at: *created_at,
                        authentication_baseline: authentication_baseline.clone(),
                    };
                    SessionReply::Prepared(self.prepare(kind, running))
                }
                BeginLogin::ConfirmingStopped { .. } => SessionReply::Done(self.guard()),
                BeginLogin::Discarding { id, .. } => {
                    let operation = RecoveryStore::discard_prepared(id);
                    SessionReply::Done(self.drop_slot(operation))
                }
                BeginLogin::Clearing { .. } => {
                    let cleared = clear_saved_account_names(&self.active["Battle.net.config"]);
                    SessionReply::Done(cleared.map(|bytes| {
                        self.active.insert("Battle.net.config".into(), bytes);
                    }))
                }
                BeginLogin::Moving { session } => {
                    let id = session.id.clone();
                    SessionReply::Moved(self.transition(&id, RecoveryState::AwaitingUser))
                }
                BeginLogin::RollingBack { id, .. } => {
                    let id = id.clone();
                    SessionReply::Done(self.rollback_slot(&id))
                }
            };
            match operation.resume(reply) {
                Step::Perform { operation: next, .. } => operation = next,
                Step::Finished(result) => return result,
            }
        }
    }

    fn complete(&mut self, id: &str) -> Result<CommitOutcome, AppError> {
        let mut operation = LoginSessionManager::complete(id);
        loop {
            let reply = match &operation {
                CompleteSession::CheckingSlot { .. } => SessionReply::Slot(self.stored()),
                CompleteSession::Committing { id } => {
                    let id = id.clone();
                    SessionReply::Committed(self.commit_slot(&id))
                }
            };
            match operation.resume(reply) {
                Step::Perform { operation: next, .. } => operation = next,
                Step::Finished(result) => return result,
            }
        }
    }

    fn cancel(&mut self, id: &str) -> Result<(), AppError> {
        let mut operation = LoginSessionManager::rollback(id);
        loop {
            let reply = match &operation {
                RollbackSession::CheckingSlot { .. } => SessionReply::Slot(self.stored()),
                RollbackSession::RollingBack { id } => {
                    let id = id.clone();
                    SessionReply::Done(self.rollback_slot(&id))
                }
            };
            match operation.resume(reply) {
                Step::Perform { operation: next, .. } => operation = next,
                Step::Finished(result) => return result,
            }
        }
    }

    fn recover_login(&mut self) -> Result<LoginRecoveryOutcome, AppError> {
        let mut operation = LoginSessionManager::recover_if_needed();
        loop {
            let reply = match &operation {
                RecoverSession::CheckingSlot => SessionReply::Slot(self.stored()),
                RecoverSession::RollingBack { id } => {
                    let id = id.clone();
                    SessionReply::Done(self.rollback_slot(&id))
                }
                RecoverSession::Cleaning { id } => {
                    let operation = RecoveryStore::cleanup_committed(id);
                    SessionReply::Done(self.drop_slot(operation))
                }
            };
            match operation.resume(reply) {
                Step::Perform { operation: next, .. } => operation = next,
                Step::Finished(result) => return result,
            }
        }
    }

    fn session(&self) -> Option<LoginSessionSnapshot> {
        LoginSessionManager::snapshot(self.stored()).unwrap()
    }

    fn marker(&self, id: &str) -> Result<(), AppError> {
        LoginSessionManager::require_completed_login_marker(
            id,
            self.stored(),
            saved_account_names_present(&self.active["Battle.net.config"]),
        )
    }

    fn directory(&self, account: &AccountKey) -> String {
        SnapshotStore::new("data").account_directory(account)
    }

    fn generation(&self, account: &AccountKey) -> Files {
        let saved = &self.accounts[&self.directory(account)];
        saved.generations[&saved.profile.as_ref().unwrap().active_generation].1.clone()
    }

    fn save(&mut self, account: &AccountKey, source: &Files) -> Result<SnapshotSummary, AppError> {
        let directory = self.directory(account);
        let mut staged: Option<(Option<SnapshotManifest>, Files)> = None;
        let mut step = SnapshotStore::new("data").save(account, "source");
        loop {
            let operation = match step {
                Step::Perform { operation, .. } => operation,
                Step::Finished(result) => return result,
            };
            let reply = match &operation {
                SaveSnapshot::CheckingSource { .. }
                | SaveSnapshot::CheckingAccountDirectory { .. }
                | SaveSnapshot::CheckingGenerations { .. } => SaveReply::Checked(Ok(())),
                SaveSnapshot::CreatingDirectories { .. } => {
                    self.accounts.entry(directory.clone()).or_insert_with(|| Saved {
                        profile: None,
                        generations: BTreeMap::new(),
                    });
                    SaveReply::Io(Ok(()))
                }
                SaveSnapshot::CreatingStaging { .. } => SaveReply::Io(Ok(())),
                SaveSnapshot::Capturing { .. } => {
                    staged = Some((None, source.clone()));
                    self.clock += 1;
                    SaveReply::Captured(Ok(snapshot::captured_file_set(
                        manifest_of(source),
                        self.clock,
                    )))
                }
                SaveSnapshot::WritingManifest { manifest, .. } => {
                    staged.as_mut().unwrap().0 = Some(SnapshotManifest {
                        version: manifest.version,
                        account: manifest.account.clone(),
                        generation: manifest.generation.clone(),
                        created_at: manifest.created_at,
                        files: copy_files(&manifest.files),
                    });
                    SaveReply::Checked(Ok(()))
                }
                SaveSnapshot::CheckingFiles { manifest, .. } => SaveReply::Checked(check(
                    &manifest.files,
                    &staged.as_ref().unwrap().1,
                )),
                SaveSnapshot::Publishing { job, .. } => {
                    let saved = self.accounts.get_mut(&directory).unwrap();
                    saved.generations.insert(job.generation.clone(), staged.take().unwrap());
                    SaveReply::Io(Ok(()))
                }
                SaveSnapshot::WritingProfile { profile, .. } => {
                    let saved = self.accounts.get_mut(&directory).unwrap();
                    saved.profile = Some(AccountProfile {
                        version: profile.version,
                        verified_login: profile.verified_login,
                        account: profile.account.clone(),
                        active_generation: profile.active_generation.clone(),
                        last_saved_at: profile.last_saved_at,
                    });
                    SaveReply::Checked(Ok(()))
                }
                SaveSnapshot::CleaningUp { .. } => SaveReply::Finished,
                SaveSnapshot::Discarding { .. } => {
                    staged = None;
                    SaveReply::Finished
                }
            };
            step = operation.resume(reply);
        }
    }

    fn profile(&self, account: &AccountKey) -> Option<Result<AccountProfile, DocumentError>> {
        let saved = self.accounts.get(&self.directory(account))?;
        let profile = saved.profile.as_ref()?;
        Some(Ok(AccountProfile {
            version: profile.version,
            verified_login: profile.verified_login,
            account: profile.account.clone(),
            active_generation: profile.active_generation.clone(),
            last_saved_at: profile.last_saved_at,
        }))
    }

    fn summary(&self, account: &AccountKey) -> Result<Option<SnapshotSummary>, AppError> {
        SnapshotStore::new("data").summary(account, self.profile(account))
    }

    fn validate(&self, account: &AccountKey) -> Result<ValidatedSnapshot, AppError> {
        let mut step = SnapshotStore::new("data").validate(account);
        loop {
            let operation = match step {
                Step::Perform { operation, .. } => operation,
                Step::Finished(result) => return result,
            };
            let reply = match &operation {
                ValidateSnapshot::CheckingDirectory { .. }
                | ValidateSnapshot::CheckingGeneration { .. } => ValidateReply::Checked(Ok(())),
                ValidateSnapshot::ReadingProfile { .. } => ValidateReply::Profile(
                    self.profile(account)
                        .unwrap_or(Err(DocumentError::Unreadable("missing".into()))),
                ),
                ValidateSnapshot::ReadingManifest { profile, .. } => {
                    let saved = &self.accounts[&self.directory(account)];
                    let manifest =
                        saved.generations[&profile.active_generation].0.as_ref().unwrap();
                    ValidateReply::Manifest(Ok(SnapshotManifest {
                        version: manifest.version,
                        account: manifest.account.clone(),
                        generation: manifest.generation.clone(),
                        created_at: manifest.created_at,
                        files: copy_files(&manifest.files),
                    }))
                }
                ValidateSnapshot::CheckingFiles { manifest, .. } => {
                    ValidateReply::Checked(check(&manifest.files, &self.generation(account)))
                }
            };
            step = operation.resume(reply);
        }
    }

    fn remove(&mut self, account: &AccountKey) -> Result<(), AppError> {
        let mut step = SnapshotStore::new("data").remove(account);
        loop {
            let operation = match step {
                Step::Perform { operation, .. } => operation,
                Step::Finished(result) => return result,
            };
            let reply = match &operation {
                RemoveSnapshot::CheckingRoot { .. }
                | RemoveSnapshot::CheckingTree { .. }
                | RemoveSnapshot::CheckingQuarantine { .. } => RemoveReply::Checked(Ok(())),
                RemoveSnapshot::Looking { job } => {
                    RemoveReply::Found(if self.accounts.contains_key(&job.account_directory) {
                        Presence::Present
                    } else {
                        Presence::Absent
                    })
                }
                RemoveSnapshot::Quarantining { job } => {
                    self.aside = self.accounts.remove(&job.account_directory);
                    RemoveReply::Io(Ok(()))
                }
                RemoveSnapshot::Removing { .. } => {
                    if self.deletable {
                        self.aside = None;
                        RemoveReply::Io(Ok(()))
                    } else {
                        RemoveReply::Io(Err("in use".into()))
                    }
                }
                RemoveSnapshot::Restoring { job, .. } => {
                    let saved = self.aside.take().unwrap();
                    self.accounts.insert(job.account_directory.clone(), saved);
                    RemoveReply::Io(Ok(()))
                }
            };
            step = operation.resume(reply);
        }
    }
}

fn switch_world() -> World {
    let mut world = World::new(&[("Battle.net.config", b"before"), ("old-only", b"old")]);
    world
        .save(&key("target"), &files(&[("Battle.net.config", b"target"), ("target-only", b"new")]))
        .unwrap();
    world
}

fn before_files() -> Files {
    files(&[("Battle.net.config", b"before"), ("old-only", b"old")])
}

#[test]
fn restore_and_rollback_reproduce_exact_file_sets() {
    let mut world = switch_world();
    let receipt = world.apply(&key("target"), Some(key("before")), true).unwrap();

    assert_eq!(world.active["Battle.net.config"], b"target");
    assert!(world.active.contains_key("target-only"));
    assert!(!world.active.contains_key("old-only"));

    world.rollback(&receipt).unwrap();
    assert_eq!(world.active["Battle.net.config"], b"before");
    assert!(world.active.contains_key("old-only"));
    assert!(!world.active.contains_key("target-only"));
    assert!(!RestoreEngine::has_pending_operation(world.stored()));
}

#[test]
fn write_guard_failure_leaves_active_files_untouched() {
    let mut world = switch_world();
    world.stopped = false;

    assert!(world.apply(&key("target"), None, false).is_err());
    assert_eq!(world.active, before_files());
    assert!(!RestoreEngine::has_pending_operation(world.stored()));
}

#[test]
fn startup_recovery_rolls_back_prepared_switch() {
    let mut world = switch_world();
    world.apply(&key("target"), Some(key("before")), true).unwrap();

    assert!(RestoreEngine::pending_client_restart_required(world.stored()).unwrap());
    assert_eq!(world.recover_switch().unwrap(), RecoveryOutcome::RolledBack);
    assert_eq!(world.active["Battle.net.config"], b"before");
    assert!(world.active.contains_key("old-only"));
    assert!(!RestoreEngine::has_pending_operation(world.stored()));
}

#[test]
fn commit_keeps_target_and_removes_recovery_data() {
    let mut world = switch_world();
    let receipt = world.apply(&key("target"), None, false).unwrap();

    assert!(matches!(world.commit(&receipt).unwrap(), CommitOutcome::Committed));
    assert_eq!(world.active["Battle.net.config"], b"target");
    assert!(world.is_empty());
}

#[test]
fn committed_record_is_cleaned_without_rolling_back() {
    let mut world = switch_world();
    let receipt = world.apply(&key("target"), None, false).unwrap();
    world.transition(&receipt.operation_id, RecoveryState::Committed).unwrap();

    assert!(!RestoreEngine::pending_recovery_requires_active_write(world.stored()).unwrap());
    world.stopped = false;
    assert_eq!(world.recover_switch().unwrap(), RecoveryOutcome::CleanedCompleted);
    assert_eq!(world.active["Battle.net.config"], b"target");
}

#[test]
fn failed_commit_record_write_is_not_reported_as_success() {
    let mut world = switch_world();
    let receipt = world.apply(&key("target"), None, false).unwrap();
    world.writes = Some(0);

    assert!(world.commit(&receipt).is_err());
    world.rollback(&receipt).unwrap();
    assert_eq!(world.active["Battle.net.config"], b"before");
    assert!(!RestoreEngine::has_pending_operation(world.stored()));
}

#[test]
fn second_switch_cannot_replace_the_active_recovery_record() {
    let mut world = switch_world();
    world.apply(&key("target"), None, false).unwrap();

    assert!(world.apply(&key("target"), None, false).is_err());
    assert_eq!(
        RecoveryStore::record(world.stored()).unwrap().unwrap().state,
        RecoveryState::Prepared
    );
}

#[test]
fn preparation_publishes_one_record_and_one_before_image() {
    let mut world = World::new(&[("Battle.net.config", b"before")]);
    let record = world
        .prepare(
            RecoveryKind::Switch {
                target_account: key("target"),
                previous_account: Some(key("before")),
            },
            true,
        )
        .unwrap();

    assert_eq!(record.state, RecoveryState::Prepared);
    assert!(world.record.is_some());
    assert!(world.staged.is_none());
    assert_eq!(world.before.as_ref().unwrap().1, world.active);
    assert_eq!(world.before.as_ref().unwrap().0.len(), 1);
}

#[test]
fn failed_preparation_leaves_an_empty_slot() {
    let mut world = World::new(&[("Battle.net.config", b"before")]);
    world.writes = Some(0);
    let kind =
        RecoveryKind::Switch { target_account: key("target"), previous_account: None };
    assert!(world.prepare(kind, false).is_err());
    assert!(world.is_empty());
}

#[test]
fn invalid_state_for_operation_kind_is_rejected() {
    let record = RecoveryRecord {
        version: 1,
        id: bnetswitchlite::outside::new_id(),
        state: RecoveryState::AwaitingUser,
        previous_client_was_running: false,
        kind: RecoveryKind::Switch {
            target_account: AccountKey { environment: "cn".into(), account_id: "1".into() },
            previous_account: None,
        },
    };
    assert!(recovery::validate_record_state(&record).is_err());
    assert!(RecoveryStore::record(Some(Ok(record))).is_err());
}

#[test]
fn switch_is_never_moved_to_waiting_for_the_user() {
    let mut world = World::new(&[("Battle.net.config", b"before")]);
    let kind =
        RecoveryKind::Switch { target_account: key("target"), previous_account: None };
    let record = world.prepare(kind, false).unwrap();
    assert!(world.transition(&record.id, RecoveryState::AwaitingUser).is_err());
    assert!(world.transition("other", RecoveryState::Committed).is_err());
    let committed = world.transition(&record.id, RecoveryState::Committed).unwrap();
    assert_eq!(committed.state, RecoveryState::Committed);
    assert!(world.rollback_slot(&record.id).is_err());
}

fn login_world() -> World {
    World::new(&[
        ("Battle.net.config", br#"{"Client":{"SavedAccountNames":"before"}}"#),
        ("other.config", b"before-other"),
    ])
}

fn config_text(world: &World) -> String {
    String::from_utf8(world.active["Battle.net.config"].clone()).unwrap()
}

#[test]
fn begin_clears_pointer_and_persists_awaiting_user() {
    let mut world = login_world();
    let session = world.begin(true, Some(key("before"))).unwrap();

    assert!(config_text(&world).contains("\"SavedAccountNames\": \"\""));
    assert_eq!(
        RecoveryStore::record(world.stored()).unwrap().unwrap().state,
        RecoveryState::AwaitingUser
    );
    assert!(world.before.as_ref().unwrap().1.contains_key("Battle.net.config"));
    assert_eq!(world.session().unwrap().id, session.id);
    assert!(world.marker(&session.id).is_err());
    world.active.insert(
        "Battle.net.config".into(),
        br#"{"Client":{"SavedAccountNames":["completed-login"]}}"#.to_vec(),
    );
    world.marker(&session.id).unwrap();
}

#[test]
fn cancel_restores_exact_files() {
    let mut world = login_world();
    let session = world.begin(true, None).unwrap();
    world.active.insert("new-file".into(), b"login-change".to_vec());
    world.active.insert("other.config".into(), b"changed".to_vec());

    world.cancel(&session.id).unwrap();

    assert!(!world.active.contains_key("new-file"));
    assert_eq!(world.active["other.config"], b"before-other");
    assert!(config_text(&world).contains("before"));
    assert!(world.session().is_none());
}

#[test]
fn awaiting_user_is_rolled_back_after_manager_recreation() {
    let mut world = login_world();
    world.begin(false, None).unwrap();

    assert!(LoginSessionManager::needs_automatic_recovery(world.stored()).unwrap());
    assert!(LoginSessionManager::automatic_recovery_requires_active_write(world.stored()).unwrap());
    assert_eq!(world.recover_login().unwrap(), LoginRecoveryOutcome::RolledBack);
    assert!(world.session().is_none());
    assert_eq!(world.active["other.config"], b"before-other");
}

#[test]
fn prepared_login_is_rolled_back_on_startup() {
    let mut world = login_world();
    world
        .prepare(
            RecoveryKind::Login {
                intent: LoginIntent::Reauthenticate { account_key: key("before") },
                previous_account: Some(key("before")),
                created_at: 1,
                authentication_baseline: AuthenticationBaseline::default(),
            },
            true,
        )
        .unwrap();
    world.active.insert("other.config".into(), b"partially-modified".to_vec());

    assert!(LoginSessionManager::needs_automatic_recovery(world.stored()).unwrap());
    assert_eq!(world.recover_login().unwrap(), LoginRecoveryOutcome::RolledBack);
    assert_eq!(world.active["other.config"], b"before-other");
    assert!(world.session().is_none());
}

#[test]
fn committed_login_is_cleaned_without_rewriting_active_files() {
    let mut world = login_world();
    let session = world.begin(false, None).unwrap();
    world.active.insert("other.config".into(), b"logged-in".to_vec());
    world.transition(&session.id, RecoveryState::Committed).unwrap();

    assert!(!LoginSessionManager::automatic_recovery_requires_active_write(world.stored()).unwrap());
    world.stopped = false;
    assert_eq!(world.recover_login().unwrap(), LoginRecoveryOutcome::CleanedCompleted);
    assert_eq!(world.active["other.config"], b"logged-in");
}

#[test]
fn completed_session_keeps_logged_in_files() {
    let mut world = login_world();
    let session = world.begin(false, None).unwrap();
    world.active.insert("other.config".into(), b"logged-in".to_vec());

    assert!(matches!(world.complete(&session.id).unwrap(), CommitOutcome::Committed));
    assert_eq!(world.active["other.config"], b"logged-in");
    assert!(world.session().is_none());
    assert!(world.is_empty());
}

#[test]
fn failed_awaiting_user_write_rolls_back_immediately() {
    let mut world = login_world();
    world.writes = Some(1);

    assert!(world.begin(false, None).is_err());
    assert!(config_text(&world).contains("before"));
    assert!(world.session().is_none());
}

#[test]
fn failed_commit_write_leaves_awaiting_session_retryable() {
    let mut world = login_world();
    let session = world.begin(false, None).unwrap();
    world.writes = Some(0);

    assert!(world.complete(&session.id).is_err());
    assert_eq!(world.session().unwrap().id, session.id);
    assert!(matches!(world.complete(&session.id).unwrap(), CommitOutcome::Committed));
}

#[test]
fn duplicate_saved_account_fields_are_rejected_without_changes() {
    let mut world = login_world();
    let original = br#"{"A":{"SavedAccountNames":"one"},"B":{"SavedAccountNames":"two"}}"#;
    world.active.insert("Battle.net.config".into(), original.to_vec());

    assert!(world.begin(false, None).is_err());
    assert_eq!(world.active["Battle.net.config"], original);
    assert!(world.session().is_none());
}

#[test]
fn switch_and_login_share_one_recovery_slot() {
    let mut world = login_world();
    world.save(&key("target"), &files(&[("Battle.net.config", b"target")])).unwrap();
    world.begin(false, None).unwrap();

    assert!(!RestoreEngine::has_pending_operation(world.stored()));
    assert!(world.session().is_some());
    assert!(world.apply(&key("target"), None, false).is_err());
    assert!(config_text(&world).contains("\"SavedAccountNames\": \"\""));
    assert!(world.session().is_some());
}

#[test]
fn publishes_new_generation_without_destroying_previous_snapshot() {
    let mut world = World::new(&[]);
    let first = world.save(&key("42"), &files(&[("Battle.net.config", b"first")])).unwrap();
    let second = world
        .save(&key("42"), &files(&[("Battle.net.config", b"second"), ("extra.db", b"extra")]))
        .unwrap();

    assert!(second.last_saved_at >= first.last_saved_at);
    let validated = world.validate(&key("42")).unwrap();
    assert_eq!(validated.files.len(), 2);
    assert!(validated.files_directory.ends_with("\\files"));
    assert_eq!(world.generation(&key("42"))["Battle.net.config"], b"second");
    assert_eq!(world.accounts[&world.directory(&key("42"))].generations.len(), 2);
}

#[test]
fn refuses_snapshot_without_battle_net_config() {
    let mut world = World::new(&[]);
    assert!(world.save(&key("42"), &files(&[("other.json", b"{}")])).is_err());
    assert!(world.summary(&key("42")).unwrap().is_none());
}

#[test]
fn snapshot_snapshot_without_current_verified_login_field_is_rejected() {
    let mut world = World::new(&[]);
    world.save(&key("42"), &files(&[("Battle.net.config", b"first")])).unwrap();
    let directory = world.directory(&key("42"));
    let saved = world.accounts.get_mut(&directory).unwrap();
    saved.profile.as_mut().unwrap().verified_login = false;

    assert!(world.summary(&key("42")).is_err());
    assert!(world.validate(&key("42")).is_err());
}

#[test]
fn changed_snapshot_files_are_rejected() {
    let mut world = World::new(&[]);
    world.save(&key("42"), &files(&[("Battle.net.config", b"first")])).unwrap();
    let directory = world.directory(&key("42"));
    let saved = world.accounts.get_mut(&directory).unwrap();
    for (_, generation) in saved.generations.values_mut() {
        generation.insert("Battle.net.config".into(), b"FIRST".to_vec());
    }
    assert!(world.validate(&key("42")).is_err());
}

#[test]
fn removing_one_account_deletes_all_of_its_generations_only() {
    let mut world = World::new(&[]);
    let other = AccountKey { environment: "us".into(), account_id: "84".into() };
    world.save(&key("42"), &files(&[("Battle.net.config", b"first")])).unwrap();
    world.save(&key("42"), &files(&[("Battle.net.config", b"second")])).unwrap();
    world.save(&other, &files(&[("Battle.net.config", b"second")])).unwrap();

    world.remove(&key("42")).unwrap();

    assert!(world.summary(&key("42")).unwrap().is_none());
    assert!(world.validate(&other).is_ok());
    assert_eq!(world.accounts.len(), 1);
}

#[test]
fn failed_removal_keeps_the_original_snapshot_retryable() {
    let mut world = World::new(&[]);
    world.save(&key("42"), &files(&[("Battle.net.config", b"first")])).unwrap();
    world.deletable = false;

    assert!(world.remove(&key("42")).is_err());
    assert!(world.validate(&key("42")).is_ok());
    world.deletable = true;
    world.remove(&key("42")).unwrap();
    assert!(world.accounts.is_empty());
}
