//! The recovery slot and the saved accounts of the macOS side, kept in memory.

use std::collections::BTreeMap;

use bnetswitchlite::contracts::AccountKey;
use bnetswitchlite::contracts::LoginIntent;
use bnetswitchlite::contracts::LoginRegion;
use bnetswitchlite::error::AppError;
use bnetswitchlite::outside::new_id;
use bnetswitchlite::outside::sha256;
use bnetswitchlite::platform::macos::preferences::PreferenceEntry;
use bnetswitchlite::platform::macos::preferences::PreferenceKey;
use bnetswitchlite::platform::macos::preferences::PreferenceSnapshot;
use bnetswitchlite::platform::macos::preferences::ReadPreferences;
use bnetswitchlite::platform::macos::recovery;
use bnetswitchlite::platform::macos::recovery::CleanupOutcome;
use bnetswitchlite::platform::macos::recovery::CleanupSlot;
use bnetswitchlite::platform::macos::recovery::CommitRecovery;
use bnetswitchlite::platform::macos::recovery::Identified;
use bnetswitchlite::platform::macos::recovery::MarkCommitted;
use bnetswitchlite::platform::macos::recovery::MoveRecord;
use bnetswitchlite::platform::macos::recovery::PrepareRecovery;
use bnetswitchlite::platform::macos::recovery::ReadCandidate;
use bnetswitchlite::platform::macos::recovery::RecoveryContext;
use bnetswitchlite::platform::macos::recovery::RecoveryEnvelope;
use bnetswitchlite::platform::macos::recovery::RecoveryKind;
use bnetswitchlite::platform::macos::recovery::RecoveryRecord;
use bnetswitchlite::platform::macos::recovery::RecoveryReply;
use bnetswitchlite::platform::macos::recovery::RecoveryState;
use bnetswitchlite::platform::macos::recovery::RecoveryStore;
use bnetswitchlite::platform::macos::recovery::RollbackRecovery;
use bnetswitchlite::platform::macos::recovery::StageCandidate;
use bnetswitchlite::platform::macos::recovery::StoredRecord;
use bnetswitchlite::platform::macos::secure_fs::EntryFacts;
use bnetswitchlite::platform::macos::secure_fs::FileReply;
use bnetswitchlite::platform::macos::secure_fs::RemoveDirectory;
use bnetswitchlite::platform::macos::secure_snapshot::AccountProfile;
use bnetswitchlite::platform::macos::secure_snapshot::ConfigSnapshot;
use bnetswitchlite::platform::macos::secure_snapshot::PayloadReply;
use bnetswitchlite::platform::macos::secure_snapshot::ReadPayload;
use bnetswitchlite::platform::macos::secure_snapshot::SaveSnapshot;
use bnetswitchlite::platform::macos::secure_snapshot::SecurePayload;
use bnetswitchlite::platform::macos::secure_snapshot::SnapshotCodec;
use bnetswitchlite::platform::macos::secure_snapshot::SnapshotManifest;
use bnetswitchlite::platform::macos::secure_snapshot::SnapshotStore;
use bnetswitchlite::platform::macos::secure_snapshot::SnapshotSummary;
use bnetswitchlite::platform::macos::secure_snapshot::StoreReply;
use bnetswitchlite::platform::macos::secure_snapshot::ValidateSnapshot;
use bnetswitchlite::platform::macos::secure_snapshot::WritePayload;
use bnetswitchlite::step::Step;

fn plist_dictionary(entries: &[(&str, &str)]) -> Vec<u8> {
    let mut dictionary = plist::Dictionary::new();
    for (key, value) in entries {
        dictionary.insert((*key).into(), plist::Value::String((*value).into()));
    }
    let mut bytes = Vec::new();
    plist::to_writer_binary(&mut bytes, &plist::Value::Dictionary(dictionary)).unwrap();
    bytes
}

/// What is read of preferences; a value stands for its text.
fn read_dictionary(bytes: &[u8]) -> ReadPreferences {
    match plist::from_bytes::<plist::Value>(bytes) {
        Err(_) => ReadPreferences::Invalid,
        Ok(plist::Value::Dictionary(dictionary)) => ReadPreferences::Dictionary(
            dictionary
                .iter()
                .map(|(key, value)| PreferenceEntry {
                    key: PreferenceKey::Text(key.clone()),
                    value: value
                        .as_string()
                        .unwrap_or_default()
                        .bytes()
                        .fold(7, |sum: u64, byte| sum * 257 + u64::from(byte)),
                })
                .collect(),
        ),
        Ok(_) => ReadPreferences::NotDictionary,
    }
}

fn authenticated(payload: &SecurePayload) -> Result<bool, AppError> {
    PreferenceSnapshot::has_authentication_keys(
        &read_dictionary(&payload.preferences.any_host),
        &read_dictionary(&payload.preferences.current_host),
    )
}

fn payload(account: Option<AccountKey>, authenticated: bool) -> SecurePayload {
    let preferences = if authenticated {
        plist_dictionary(&[("UnifiedAuth/test", "fixture")])
    } else {
        plist_dictionary(&[])
    };
    SecurePayload {
        version: 1,
        account,
        created_at: 1,
        config: ConfigSnapshot {
            present: true,
            bytes: b"fixture".to_vec(),
            sha256: sha256(&b"fixture".to_vec()),
            unix_mode: 0o600,
        },
        preferences: PreferenceSnapshot {
            any_host: preferences,
            current_host: plist_dictionary(&[]),
        },
    }
}

fn copy_payload(payload: &SecurePayload) -> SecurePayload {
    SecurePayload {
        version: payload.version,
        account: payload.account.clone(),
        created_at: payload.created_at,
        config: ConfigSnapshot {
            present: payload.config.present,
            bytes: payload.config.bytes.clone(),
            sha256: payload.config.sha256.clone(),
            unix_mode: payload.config.unix_mode,
        },
        preferences: PreferenceSnapshot {
            any_host: payload.preferences.any_host.clone(),
            current_host: payload.preferences.current_host.clone(),
        },
    }
}

fn copy_envelope(envelope: &RecoveryEnvelope) -> RecoveryEnvelope {
    RecoveryEnvelope {
        before: copy_payload(&envelope.before),
        context: match &envelope.context {
            RecoveryContext::Switch { target_account, previous_account } => {
                RecoveryContext::Switch {
                    target_account: target_account.clone(),
                    previous_account: previous_account.clone(),
                }
            }
            RecoveryContext::Login { intent, previous_account } => RecoveryContext::Login {
                intent: intent.clone(),
                previous_account: previous_account.clone(),
            },
        },
    }
}

fn test_account(id: &str) -> AccountKey {
    AccountKey { environment: "test.actual.battle.net".into(), account_id: id.into() }
}

fn login_envelope() -> RecoveryEnvelope {
    RecoveryEnvelope {
        before: payload(None, false),
        context: RecoveryContext::Login {
            intent: LoginIntent::Reauthenticate {
                account_key: AccountKey {
                    environment: "eu.actual.battle.net".into(),
                    account_id: "2".into(),
                },
            },
            previous_account: None,
        },
    }
}

fn switch_envelope() -> RecoveryEnvelope {
    RecoveryEnvelope {
        before: payload(None, false),
        context: RecoveryContext::Switch {
            target_account: test_account("1"),
            previous_account: None,
        },
    }
}

/// The slot: a directory in which something is written, the two directories in their
/// places, and the record.
#[derive(Default)]
struct Slot {
    preparing: Option<Identified<RecoveryEnvelope>>,
    before: Option<Identified<RecoveryEnvelope>>,
    staging: Option<Option<Identified<SecurePayload>>>,
    candidate: Option<Identified<SecurePayload>>,
    record: Option<RecoveryRecord>,
    /// The ids of the directories that were left behind.
    orphans: Vec<String>,
}

impl Slot {
    fn stored(&self) -> StoredRecord {
        StoredRecord { found: Ok(self.record.as_ref().map(|record| Ok(record.clone()))) }
    }

    fn record(&self) -> Option<RecoveryRecord> {
        RecoveryStore::record(self.stored()).unwrap()
    }

    fn envelope(&self) -> Result<Identified<RecoveryEnvelope>, AppError> {
        match &self.before {
            Some(before) => {
                Ok(Identified { id: before.id.clone(), value: copy_envelope(&before.value) })
            }
            None => Err(AppError::Snapshot("missing".into())),
        }
    }

    fn context(&self, id: &str) -> Result<RecoveryEnvelope, AppError> {
        RecoveryStore::context(id, self.stored(), self.envelope())
    }

    fn save(&mut self, record: &RecoveryRecord) -> Result<(), AppError> {
        recovery::validate_record(record)?;
        self.record = Some(record.clone());
        Ok(())
    }

    fn prepare(
        &mut self,
        kind: RecoveryKind,
        running: bool,
        envelope: RecoveryEnvelope,
    ) -> Result<RecoveryRecord, AppError> {
        let mut operation = RecoveryStore::prepare(kind, running, envelope);
        loop {
            let reply = match &operation {
                PrepareRecovery::CheckingSlot { .. } => RecoveryReply::Record(self.stored()),
                PrepareRecovery::CheckingEmpty { .. } => RecoveryReply::Empty(Ok(Ok(self
                    .before
                    .is_none()
                    && self.candidate.is_none()
                    && self.orphans.is_empty()))),
                PrepareRecovery::Creating { .. } => RecoveryReply::Done(Ok(())),
                PrepareRecovery::Writing { job, .. } => {
                    let id = new_id();
                    self.preparing =
                        Some(Identified { id: id.clone(), value: copy_envelope(&job.envelope) });
                    RecoveryReply::Written(Ok(id))
                }
                PrepareRecovery::Rereading { .. } => {
                    let written = self.preparing.as_ref().unwrap();
                    RecoveryReply::Envelope(Ok(Identified {
                        id: written.id.clone(),
                        value: copy_envelope(&written.value),
                    }))
                }
                PrepareRecovery::Publishing { .. } => {
                    self.before = self.preparing.take();
                    RecoveryReply::Done(Ok(()))
                }
                PrepareRecovery::ReadingClock { .. } => RecoveryReply::Clock(9),
                PrepareRecovery::Saving { record } => {
                    let record = record.clone();
                    RecoveryReply::Done(self.save(&record))
                }
                PrepareRecovery::RemovingStaging { .. } => {
                    self.preparing = None;
                    RecoveryReply::Done(Ok(()))
                }
                PrepareRecovery::CheckingRecord { .. } => {
                    RecoveryReply::Exists(Ok(self.record.is_some()))
                }
                PrepareRecovery::RemovingBefore { .. } => {
                    self.before = None;
                    RecoveryReply::Done(Ok(()))
                }
            };
            match operation.resume(reply) {
                Step::Perform { operation: next, .. } => operation = next,
                Step::Finished(result) => return result,
            }
        }
    }

    fn transition(&mut self, id: &str, state: RecoveryState) -> Result<RecoveryRecord, AppError> {
        let mut operation = RecoveryStore::transition(id, state);
        loop {
            let reply = match &operation {
                MoveRecord::Reading { .. } => RecoveryReply::Record(self.stored()),
                MoveRecord::Saving { record } => {
                    let record = record.clone();
                    RecoveryReply::Done(self.save(&record))
                }
            };
            match operation.resume(reply) {
                Step::Perform { operation: next, .. } => operation = next,
                Step::Finished(result) => return result,
            }
        }
    }

    fn stage(&mut self, id: &str, payload: SecurePayload) -> Result<RecoveryRecord, AppError> {
        let mut operation = RecoveryStore::stage_login_candidate(id, payload);
        loop {
            let reply = match &operation {
                StageCandidate::Reading { .. } => RecoveryReply::Record(self.stored()),
                StageCandidate::CheckingLogin { payload, .. } => {
                    RecoveryReply::Authenticated(authenticated(payload))
                }
                StageCandidate::ReadingExisting { record, .. } => {
                    RecoveryReply::Candidate(self.candidate(&record.id))
                }
                StageCandidate::RemovingOld { .. } => {
                    self.candidate = None;
                    RecoveryReply::Done(Ok(()))
                }
                StageCandidate::RemovingStale { .. } => {
                    self.staging = None;
                    RecoveryReply::Done(Ok(()))
                }
                StageCandidate::Creating { .. } => {
                    assert!(self.staging.is_none());
                    self.staging = Some(None);
                    RecoveryReply::Done(Ok(()))
                }
                StageCandidate::Writing { payload, .. } => {
                    let id = new_id();
                    self.staging =
                        Some(Some(Identified { id: id.clone(), value: copy_payload(payload) }));
                    RecoveryReply::Written(Ok(id))
                }
                StageCandidate::Rereading { .. } => {
                    let written = self.staging.as_ref().unwrap().as_ref().unwrap();
                    RecoveryReply::Payload(Ok(Identified {
                        id: written.id.clone(),
                        value: copy_payload(&written.value),
                    }))
                }
                StageCandidate::Publishing { .. } => {
                    self.candidate = self.staging.take().unwrap();
                    RecoveryReply::Done(Ok(()))
                }
                StageCandidate::Saving { record } => {
                    let record = record.clone();
                    RecoveryReply::Done(self.save(&record))
                }
                StageCandidate::RemovingStaging { .. } => {
                    self.staging = None;
                    RecoveryReply::Done(Ok(()))
                }
            };
            match operation.resume(reply) {
                Step::Perform { operation: next, .. } => operation = next,
                Step::Finished(result) => return result,
            }
        }
    }

    fn candidate(&self, id: &str) -> Result<SecurePayload, AppError> {
        let mut operation = RecoveryStore::login_candidate(id);
        loop {
            let reply = match &operation {
                ReadCandidate::Reading { .. } => RecoveryReply::Record(self.stored()),
                ReadCandidate::ReadingPayload { .. } => match &self.candidate {
                    Some(candidate) => RecoveryReply::Payload(Ok(Identified {
                        id: candidate.id.clone(),
                        value: copy_payload(&candidate.value),
                    })),
                    None => RecoveryReply::Payload(Err(AppError::Snapshot("missing".into()))),
                },
            };
            match operation.resume(reply) {
                Step::Perform { operation: next, .. } => operation = next,
                Step::Finished(result) => return result,
            }
        }
    }

    fn mark(&mut self, id: &str) -> Result<RecoveryRecord, AppError> {
        let mut operation = RecoveryStore::mark_login_committed(id);
        loop {
            let reply = match &operation {
                MarkCommitted::Reading { .. } => RecoveryReply::Record(self.stored()),
                MarkCommitted::ReadingCandidate { id } => {
                    RecoveryReply::Candidate(self.candidate(id))
                }
                MarkCommitted::Moving { id } => {
                    let id = id.clone();
                    RecoveryReply::Moved(self.transition(&id, RecoveryState::Committed))
                }
            };
            match operation.resume(reply) {
                Step::Perform { operation: next, .. } => operation = next,
                Step::Finished(result) => return result,
            }
        }
    }

    fn clean(&mut self, mut operation: CleanupSlot) -> Result<(), AppError> {
        loop {
            let reply = match &operation {
                CleanupSlot::CheckingRecord => RecoveryReply::Exists(Ok(self.record.is_some())),
                CleanupSlot::RemovingRecord => {
                    self.record = None;
                    RecoveryReply::Done(Ok(()))
                }
                CleanupSlot::RemovingCandidate | CleanupSlot::RemovingOrphanedCandidate => {
                    self.candidate = None;
                    RecoveryReply::Done(Ok(()))
                }
                CleanupSlot::RemovingBefore | CleanupSlot::RemovingOrphanedBefore => {
                    self.before = None;
                    RecoveryReply::Done(Ok(()))
                }
                CleanupSlot::Listing => RecoveryReply::Names(Ok((self.orphans.clone(), None))),
                CleanupSlot::Removing { names, index, .. } => {
                    let name = names[*index].clone();
                    self.orphans.retain(|orphan| *orphan != name);
                    RecoveryReply::Done(Ok(()))
                }
            };
            match operation.resume(reply) {
                Step::Perform { operation: next, .. } => operation = next,
                Step::Finished(result) => return result,
            }
        }
    }

    fn rollback(
        &mut self,
        id: &str,
        apply: &dyn Fn(&SecurePayload) -> Result<(), AppError>,
    ) -> Result<(), AppError> {
        let mut operation = RecoveryStore::rollback(id);
        loop {
            let reply = match &operation {
                RollbackRecovery::Reading { .. } => RecoveryReply::Record(self.stored()),
                RollbackRecovery::ReadingContext { id } => RecoveryReply::Context(self.context(id)),
                RollbackRecovery::Applying { before } => RecoveryReply::Done(apply(before)),
                RollbackRecovery::Cleaning => {
                    RecoveryReply::Done(self.clean(RecoveryStore::cleanup()))
                }
            };
            match operation.resume(reply) {
                Step::Perform { operation: next, .. } => operation = next,
                Step::Finished(result) => return result,
            }
        }
    }

    fn commit(&mut self, id: &str) -> Result<CleanupOutcome, AppError> {
        let mut operation = RecoveryStore::commit(id);
        loop {
            let reply = match &operation {
                CommitRecovery::Moving { id } => {
                    let id = id.clone();
                    RecoveryReply::Moved(self.transition(&id, RecoveryState::Committed))
                }
                CommitRecovery::Cleaning => {
                    RecoveryReply::Done(self.clean(RecoveryStore::cleanup()))
                }
            };
            match operation.resume(reply) {
                Step::Perform { operation: next, .. } => operation = next,
                Step::Finished(result) => return result,
            }
        }
    }
}

#[test]
fn reauthentication_region_survives_the_encrypted_recovery_round_trip() {
    let mut slot = Slot::default();
    let record = slot.prepare(RecoveryKind::Login, false, login_envelope()).unwrap();
    let context = slot.context(&record.id).unwrap();

    let RecoveryContext::Login { intent, .. } = context.context else {
        panic!("expected login recovery context");
    };
    assert_eq!(intent.requested_region(), Some(LoginRegion::Europe));
}

#[test]
fn before_image_id_must_match_the_durable_record() {
    let mut slot = Slot::default();
    let mut record = slot.prepare(RecoveryKind::Login, false, login_envelope()).unwrap();
    record.before_snapshot_id = new_id();
    slot.save(&record).unwrap();

    assert!(slot.context(&record.id).is_err());
}

#[test]
fn staged_candidate_is_bound_to_record_and_removed_on_rollback() {
    let mut slot = Slot::default();
    let record = slot.prepare(RecoveryKind::Login, false, login_envelope()).unwrap();
    slot.transition(&record.id, RecoveryState::AwaitingUser).unwrap();
    let selected = test_account("2");
    slot.stage(&record.id, payload(Some(selected.clone()), true)).unwrap();
    assert_eq!(slot.candidate(&record.id).unwrap().account, Some(selected));

    slot.rollback(&record.id, &|_| Ok(())).unwrap();
    assert!(slot.record().is_none());
    assert!(slot.before.is_none());
    assert!(slot.candidate.is_none());
}

#[test]
fn unauthenticated_candidate_is_rejected_without_committing() {
    let mut slot = Slot::default();
    let record = slot.prepare(RecoveryKind::Login, false, login_envelope()).unwrap();
    slot.transition(&record.id, RecoveryState::AwaitingUser).unwrap();

    assert!(slot.stage(&record.id, payload(Some(test_account("2")), false)).is_err());
    let pending = slot.record().unwrap();
    assert_eq!(pending.state, RecoveryState::AwaitingUser);
    assert!(pending.candidate_snapshot_id.is_none());
    assert!(slot.before.is_some());
}

#[test]
fn stale_candidate_staging_does_not_block_retry() {
    let mut slot = Slot::default();
    let record = slot.prepare(RecoveryKind::Login, false, login_envelope()).unwrap();
    slot.transition(&record.id, RecoveryState::AwaitingUser).unwrap();
    slot.staging = Some(None);

    slot.stage(&record.id, payload(Some(test_account("3")), true)).unwrap();
    assert!(slot.staging.is_none());
}

#[test]
fn awaiting_user_transition_stays_pending_without_a_deadline() {
    let mut slot = Slot::default();
    let record = slot.prepare(RecoveryKind::Login, false, login_envelope()).unwrap();

    let awaiting = slot.transition(&record.id, RecoveryState::AwaitingUser).unwrap();
    assert_eq!(awaiting.state, RecoveryState::AwaitingUser);
    assert_eq!(slot.record().unwrap().id, record.id);
    assert!(slot.before.is_some());
}

#[test]
fn rollback_failure_preserves_the_journal_and_before_image() {
    let mut slot = Slot::default();
    let record = slot.prepare(RecoveryKind::Login, false, login_envelope()).unwrap();
    slot.transition(&record.id, RecoveryState::AwaitingUser).unwrap();

    assert!(slot
        .rollback(&record.id, &|_| Err(AppError::Transaction("injected failure".into())))
        .is_err());
    assert_eq!(slot.record().unwrap().id, record.id);
    assert!(slot.before.is_some());
}

#[test]
fn slot_holds_one_operation() {
    let mut slot = Slot::default();
    let record = slot.prepare(RecoveryKind::Switch, true, switch_envelope()).unwrap();
    assert!(record.previous_client_was_running);
    assert!(slot.prepare(RecoveryKind::Login, false, login_envelope()).is_err());
    assert!(matches!(slot.commit(&record.id), Ok(CleanupOutcome::Clean)));
    assert!(slot.record().is_none());
    assert!(slot.before.is_none());
    slot.prepare(RecoveryKind::Login, false, login_envelope()).unwrap();
}

#[test]
fn login_is_committed_only_with_a_candidate() {
    let mut slot = Slot::default();
    let record = slot.prepare(RecoveryKind::Login, false, login_envelope()).unwrap();
    slot.transition(&record.id, RecoveryState::AwaitingUser).unwrap();
    assert!(slot.mark(&record.id).is_err());
    assert!(slot.transition(&record.id, RecoveryState::Committed).is_err());
    slot.stage(&record.id, payload(Some(test_account("2")), true)).unwrap();
    assert!(slot.stage(&record.id, payload(Some(test_account("2")), true)).is_ok());
    assert!(slot.stage(&record.id, payload(Some(test_account("9")), true)).is_err());
    assert_eq!(slot.mark(&record.id).unwrap().state, RecoveryState::Committed);
    assert!(slot.rollback(&record.id, &|_| Ok(())).is_err());
    RecoveryStore::cleanup_committed(&record.id, slot.stored()).unwrap();
    slot.clean(RecoveryStore::cleanup()).unwrap();
    assert!(slot.record().is_none());
    assert!(slot.candidate.is_none());
}

#[test]
fn orphans_are_removed_and_unknown_entries_refused() {
    let mut slot = Slot {
        orphans: vec![format!(".preparing-{}", new_id()), format!(".candidate-{}", new_id())],
        ..Slot::default()
    };
    slot.clean(RecoveryStore::cleanup_orphans()).unwrap();
    assert!(slot.orphans.is_empty());
    slot.orphans.push("unknown".into());
    assert!(slot.clean(RecoveryStore::cleanup_orphans()).is_err());
}

#[test]
fn waiting_login_is_shown() {
    let mut slot = Slot::default();
    let record = slot.prepare(RecoveryKind::Login, false, login_envelope()).unwrap();
    slot.transition(&record.id, RecoveryState::AwaitingUser).unwrap();
    let session =
        RecoveryStore::login_snapshot(slot.stored(), slot.context(&record.id)).unwrap().unwrap();
    assert_eq!(session.id, record.id);
    assert_eq!(session.created_at, 9);
    assert!(RecoveryStore::login_snapshot(
        StoredRecord { found: Ok(None) },
        Err(AppError::StateUnavailable)
    )
    .unwrap()
    .is_none());
}

#[test]
fn records_are_checked() {
    let record = RecoveryRecord {
        version: 1,
        id: new_id(),
        kind: RecoveryKind::Switch,
        state: RecoveryState::Prepared,
        before_snapshot_id: new_id(),
        candidate_snapshot_id: None,
        previous_client_was_running: false,
        created_at: 1,
    };
    assert!(recovery::validate_record(&record).is_ok());
    let mut wrong = record.clone();
    wrong.version = 2;
    assert!(recovery::validate_record(&wrong).is_err());
    let mut wrong = record.clone();
    wrong.id = "id".into();
    assert!(recovery::validate_record(&wrong).is_err());
    let mut wrong = record.clone();
    wrong.candidate_snapshot_id = Some(new_id());
    assert!(recovery::validate_record(&wrong).is_err());
    let mut wrong = record.clone();
    wrong.kind = RecoveryKind::Login;
    wrong.candidate_snapshot_id = Some(new_id());
    assert!(recovery::validate_record(&wrong).is_err());
    let mut wrong = record;
    wrong.kind = RecoveryKind::Login;
    wrong.state = RecoveryState::Committed;
    assert!(recovery::validate_record(&wrong).is_err());
}

fn account(id: &str) -> AccountKey {
    AccountKey { environment: "cn.actual.battlenet.com.cn".into(), account_id: id.into() }
}

fn account_payload(account: AccountKey) -> SecurePayload {
    SecurePayload {
        version: 1,
        account: Some(account),
        created_at: 1,
        config: ConfigSnapshot {
            present: false,
            bytes: Vec::new(),
            sha256: sha256(&Vec::new()),
            unix_mode: 0o600,
        },
        preferences: PreferenceSnapshot {
            any_host: plist_dictionary(&[("UnifiedAuth/test", "fixture")]),
            current_host: plist_dictionary(&[]),
        },
    }
}

fn copy_profile(profile: &AccountProfile) -> AccountProfile {
    AccountProfile {
        version: profile.version,
        verified_login: profile.verified_login,
        active_generation: profile.active_generation.clone(),
        last_saved_at: profile.last_saved_at,
    }
}

/// The saved accounts by their directories.
#[derive(Default)]
struct Accounts {
    saved: BTreeMap<String, (Option<AccountProfile>, BTreeMap<String, SecurePayload>)>,
}

impl Accounts {
    fn store() -> SnapshotStore {
        SnapshotStore::new("/data")
    }

    fn save(
        &mut self,
        account: &AccountKey,
        payload: SecurePayload,
    ) -> Result<SnapshotSummary, AppError> {
        let directory = Accounts::store().account_directory(account);
        let mut staged: Option<SecurePayload> = None;
        let mut generated: Option<AccountProfile> = None;
        let mut step = Accounts::store().save(account, payload);
        loop {
            let operation = match step {
                Step::Perform { operation, .. } => operation,
                Step::Finished(result) => return result,
            };
            let reply = match &operation {
                SaveSnapshot::CheckingLogin { payload, .. } => {
                    StoreReply::Authenticated(authenticated(payload))
                }
                SaveSnapshot::EnsuringAccount { .. } => {
                    self.saved.entry(directory.clone()).or_default();
                    StoreReply::Done(Ok(()))
                }
                SaveSnapshot::EnsuringGenerations { .. } | SaveSnapshot::Creating { .. } => {
                    StoreReply::Done(Ok(()))
                }
                SaveSnapshot::Excluding { .. } => StoreReply::Excluded(Ok(())),
                SaveSnapshot::Writing { payload, .. } => {
                    staged = Some(copy_payload(payload));
                    StoreReply::Done(Ok(()))
                }
                SaveSnapshot::Rereading { .. } => {
                    StoreReply::Payload(Ok(copy_payload(staged.as_ref().unwrap())))
                }
                SaveSnapshot::Publishing { job } => {
                    let saved = self.saved.get_mut(&directory).unwrap();
                    saved.1.insert(job.generation.clone(), staged.take().unwrap());
                    StoreReply::Done(Ok(()))
                }
                SaveSnapshot::Generating { profile, .. } => {
                    generated = Some(copy_profile(profile));
                    StoreReply::Generated(Ok(vec![1]))
                }
                SaveSnapshot::WritingProfile { .. } => {
                    self.saved.get_mut(&directory).unwrap().0 = generated.take();
                    StoreReply::Done(Ok(()))
                }
                SaveSnapshot::Listing { .. } => {
                    let names = self.saved[&directory].1.keys().cloned().collect();
                    StoreReply::Names(Ok((names, None)))
                }
                SaveSnapshot::Removing { names, index, .. } => {
                    let saved = self.saved.get_mut(&directory).unwrap();
                    saved.1.remove(&names[*index]);
                    StoreReply::Done(Ok(()))
                }
                SaveSnapshot::CleaningUp { .. } => {
                    staged = None;
                    StoreReply::Done(Ok(()))
                }
            };
            step = operation.resume(reply);
        }
    }

    fn profile(&self, account: &AccountKey) -> Result<Result<AccountProfile, String>, AppError> {
        match self.saved.get(&Accounts::store().account_directory(account)) {
            Some((Some(profile), _)) => Ok(Ok(copy_profile(profile))),
            _ => Err(AppError::Snapshot("missing".into())),
        }
    }

    fn summary(&self, account: &AccountKey) -> Result<Option<SnapshotSummary>, AppError> {
        let saved = self.saved.get(&Accounts::store().account_directory(account));
        SnapshotStore::summary(
            Ok(saved.is_some()),
            Ok(saved.map_or(false, |saved| saved.0.is_some())),
            self.profile(account),
        )
    }

    fn validate(&self, account: &AccountKey) -> Result<SecurePayload, AppError> {
        let directory = Accounts::store().account_directory(account);
        let mut operation = Accounts::store().validate(account);
        loop {
            let reply = match &operation {
                ValidateSnapshot::CheckingDirectory { .. } => StoreReply::Done(Ok(())),
                ValidateSnapshot::ReadingProfile { account } => {
                    StoreReply::Profile(self.profile(account))
                }
                ValidateSnapshot::Reading { generation, .. } => {
                    StoreReply::Payload(Ok(copy_payload(&self.saved[&directory].1[generation])))
                }
                ValidateSnapshot::CheckingLogin { payload } => {
                    StoreReply::Authenticated(authenticated(payload))
                }
            };
            match operation.resume(reply) {
                Step::Perform { operation: next, .. } => operation = next,
                Step::Finished(result) => return result,
            }
        }
    }

    fn remove(&mut self, account: &AccountKey) -> Result<(), AppError> {
        let mut operation = Accounts::store().remove(account);
        loop {
            let reply = match &operation {
                RemoveDirectory::CheckingChain { .. }
                | RemoveDirectory::CheckingTree { .. }
                | RemoveDirectory::OpeningParent { .. }
                | RemoveDirectory::CheckingQuarantine { .. } => FileReply::Done(Ok(())),
                RemoveDirectory::Looking { path } => {
                    FileReply::Found(Ok(self.saved.get(path).map(|_| EntryFacts {
                        is_file: false,
                        is_directory: true,
                        links: 1,
                        owner: 501,
                        current_user: 501,
                        mode: 0o040700,
                    })))
                }
                RemoveDirectory::Moving { .. }
                | RemoveDirectory::Restoring { .. }
                | RemoveDirectory::Syncing { .. } => FileReply::Io(Ok(())),
                RemoveDirectory::Deleting { path, .. } => {
                    self.saved.remove(path);
                    FileReply::Io(Ok(()))
                }
            };
            match operation.resume(reply) {
                Step::Perform { operation: next, .. } => operation = next,
                Step::Finished(result) => return result,
            }
        }
    }
}

#[test]
fn removing_one_account_keeps_other_snapshots() {
    let mut accounts = Accounts::default();
    let first = account("first");
    let second = account("second");
    accounts.save(&first, account_payload(first.clone())).unwrap();
    accounts.save(&second, account_payload(second.clone())).unwrap();

    accounts.remove(&first).unwrap();

    assert!(accounts.summary(&first).unwrap().is_none());
    assert!(accounts.validate(&second).is_ok());
    accounts.remove(&first).unwrap();
}

#[test]
fn secure_snapshot_snapshot_without_current_verified_login_field_is_rejected() {
    let mut accounts = Accounts::default();
    let target = account("target");
    accounts.save(&target, account_payload(target.clone())).unwrap();
    let directory = Accounts::store().account_directory(&target);
    let profile = accounts.saved.get_mut(&directory).unwrap().0.as_mut().unwrap();
    profile.verified_login = false;

    assert!(accounts.summary(&target).is_err());
    assert!(accounts.validate(&target).is_err());
}

#[test]
fn newest_generation_replaces_the_others() {
    let mut accounts = Accounts::default();
    let target = account("target");
    accounts.save(&target, account_payload(target.clone())).unwrap();
    let mut newer = account_payload(target.clone());
    newer.created_at = 77;
    assert_eq!(accounts.save(&target, newer).unwrap().last_saved_at, 77);
    assert_eq!(accounts.validate(&target).unwrap().created_at, 77);
    let directory = Accounts::store().account_directory(&target);
    assert_eq!(accounts.saved[&directory].1.len(), 1);
}

#[test]
fn only_an_authenticated_state_of_the_account_is_saved() {
    let mut accounts = Accounts::default();
    let target = account("target");
    assert!(accounts.save(&target, account_payload(account("other"))).is_err());
    let mut unauthenticated = account_payload(target.clone());
    unauthenticated.preferences.any_host = plist_dictionary(&[]);
    assert!(accounts.save(&target, unauthenticated).is_err());
    assert!(accounts.summary(&target).unwrap().is_none());
}

fn write(payload: &[u8]) -> (Vec<u8>, SnapshotManifest, String) {
    let mut operation = SnapshotCodec.write();
    let mut written: Option<(Vec<u8>, SnapshotManifest)> = None;
    loop {
        let reply = match &operation {
            WritePayload::Excluding => PayloadReply::Excluded(Ok(())),
            WritePayload::Generating => PayloadReply::Generated(Ok(payload.to_vec())),
            WritePayload::WritingPayload { payload, manifest } => {
                written = Some((
                    payload.clone(),
                    SnapshotManifest {
                        version: manifest.version,
                        id: manifest.id.clone(),
                        payload_length: manifest.payload_length,
                        payload_sha256: manifest.payload_sha256.clone(),
                    },
                ));
                PayloadReply::Done(Ok(()))
            }
            WritePayload::GeneratingManifest { .. } => PayloadReply::Generated(Ok(vec![0])),
            _ => PayloadReply::Done(Ok(())),
        };
        match operation.resume(reply) {
            Step::Perform { operation: next, .. } => operation = next,
            Step::Finished(result) => {
                let (bytes, manifest) = written.unwrap();
                return (bytes, manifest, result.unwrap());
            }
        }
    }
}

fn read(bytes: Vec<u8>, manifest: SnapshotManifest) -> Result<(String, Vec<u8>), AppError> {
    let mut operation = SnapshotCodec.read();
    let mut bytes = Some(bytes);
    let mut manifest = Some(manifest);
    loop {
        let reply = match &operation {
            ReadPayload::Checking => PayloadReply::Done(Ok(())),
            ReadPayload::ReadingManifest => PayloadReply::Bytes(Ok(vec![0])),
            ReadPayload::ParsingManifest { .. } => {
                PayloadReply::Manifest(Ok(manifest.take().unwrap()))
            }
            ReadPayload::ReadingPayload { .. } => PayloadReply::Bytes(Ok(bytes.take().unwrap())),
        };
        match operation.resume(reply) {
            Step::Perform { operation: next, .. } => operation = next,
            Step::Finished(result) => return result.map(|whole| (whole.id, whole.payload)),
        }
    }
}

#[test]
fn written_payload_is_read_back_and_changes_are_found() {
    let (bytes, manifest, id) = write(b"payload");
    assert_eq!(bytes, b"payload");
    assert_eq!(manifest.payload_length, 7);
    assert_eq!(read(bytes, manifest).unwrap(), (id, b"payload".to_vec()));

    let (_, manifest, _) = write(b"payload");
    assert!(matches!(
        read(b"Payload".to_vec(), manifest),
        Err(AppError::Snapshot(message)) if message == "快照完整性校验失败"
    ));
    let (bytes, mut manifest, _) = write(b"payload");
    manifest.version = 2;
    assert!(matches!(
        read(bytes, manifest),
        Err(AppError::Snapshot(message)) if message == "不支持的快照格式"
    ));
    assert_eq!(
        SnapshotCodec::account_directory_name(&account("1")),
        SnapshotCodec::account_directory_name(&account("1"))
    );
    assert_ne!(
        SnapshotCodec::account_directory_name(&account("1")),
        SnapshotCodec::account_directory_name(&account("2"))
    );
}
