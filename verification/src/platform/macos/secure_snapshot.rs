//! Saved logins on macOS: what is saved, when it counts as whole, and in which order it
//! is written.

use vstd::prelude::*;

use crate::contracts;
use crate::contracts::AccountKey;
use crate::error::AppError;
use crate::error::ErrorView;
use crate::outside;
use crate::platform::macos::preferences::PreferenceSnapshot;
use crate::platform::macos::secure_fs;
use crate::platform::macos::secure_fs::RemoveDirectory;
use crate::platform::macos::secure_fs::UserFile;
use crate::platform::macos::unix_path;
use crate::step::Moment;
use crate::step::Taken;
use crate::step;
use crate::step::Step;
use crate::step::StepView;
use crate::text;

verus! {

/// The version of all that is saved.
pub const FORMAT_VERSION: u8 = 1;

/// The state of a login: the client's configuration and its preferences, and the
/// account that they belong to, where that is known.
#[derive(Debug)]
pub struct SecurePayload {
    pub version: u8,
    pub account: Option<AccountKey>,
    pub created_at: u64,
    pub config: ConfigSnapshot,
    pub preferences: PreferenceSnapshot,
}

impl View for SecurePayload {
    type V = SecurePayload;

    open spec fn view(&self) -> SecurePayload {
        *self
    }
}

/// The client's configuration: its contents and its permissions, or that there is none.
#[derive(Debug)]
pub struct ConfigSnapshot {
    pub present: bool,
    pub bytes: Vec<u8>,
    pub sha256: String,
    pub unix_mode: u32,
}

/// What is kept beside a payload: its length and its digest.
#[derive(Debug)]
pub struct SnapshotManifest {
    pub version: u8,
    pub id: String,
    pub payload_length: u64,
    pub payload_sha256: String,
}

/// Which of an account's generations is the current one.
#[derive(Debug)]
pub struct AccountProfile {
    pub version: u8,
    pub verified_login: bool,
    pub active_generation: String,
    pub last_saved_at: u64,
}

/// What is known of a saved account without reading it.
#[derive(Clone, Copy, Debug, PartialEq, Eq, Structural)]
pub struct SnapshotSummary {
    pub last_saved_at: u64,
}

impl View for SnapshotSummary {
    type V = SnapshotSummary;

    open spec fn view(&self) -> SnapshotSummary {
        *self
    }
}

/// Reads and writes payloads with their manifests.
#[derive(Clone, Copy, Debug, PartialEq, Eq, Structural)]
pub struct SnapshotCodec;

/// Whether the manifest is the payload's.
pub open spec fn describes(manifest: SnapshotManifest, payload: Seq<u8>) -> bool {
    &&& payload.len() as u64 == manifest.payload_length
    &&& outside::sha256_hex(payload) == manifest.payload_sha256@
}

/// Whether the manifest is one that can be read.
pub open spec fn is_readable(manifest: SnapshotManifest) -> bool {
    &&& manifest.version == FORMAT_VERSION
    &&& outside::uuid_form(manifest.id@) is Some
}

/// What came of the work on a payload.
#[derive(Debug)]
pub enum PayloadReply {
    Done(Result<(), AppError>),
    Excluded(Result<(), String>),
    /// A value in the form in which it is written.
    Generated(Result<Vec<u8>, String>),
    Bytes(Result<Vec<u8>, AppError>),
    /// A manifest that was read.
    Manifest(Result<SnapshotManifest, String>),
}

/// Writing a payload: first the payload, then its manifest. The result is the payload's
/// id. Each state names the work that is to be done.
#[derive(Debug)]
pub enum WritePayload {
    /// The directory has to be a private one.
    Ensuring,
    /// The directory is to be kept out of the backups.
    Excluding,
    /// The payload is to be generated.
    Generating,
    /// The payload is to be written.
    WritingPayload { payload: Vec<u8>, manifest: SnapshotManifest },
    /// The manifest is to be generated.
    GeneratingManifest { manifest: SnapshotManifest },
    /// The manifest is to be written.
    WritingManifest { bytes: Vec<u8>, id: String },
    /// The directory is to be made durable.
    Syncing { id: String },
}

impl WritePayload {
    /// Whether the answer leads to the step.
    pub open spec fn leads_to(self, reply: PayloadReply, step: Step<WritePayload, String>) -> bool {
        match (self, reply) {
            (WritePayload::Ensuring, PayloadReply::Done(done)) => step@ == (match done {
                Err(error) => step::failing::<WritePayload, Seq<char>>(error@),
                Ok(_) => step::going(WritePayload::Excluding),
            }),
            (WritePayload::Excluding, PayloadReply::Excluded(done)) => step@ == (match done {
                Err(error) => step::failing::<WritePayload, Seq<char>>(ErrorView::Snapshot(error@)),
                Ok(_) => step::going(WritePayload::Generating),
            }),
            (WritePayload::Generating, PayloadReply::Generated(generated)) => match generated {
                Err(error) => step@ == step::failing::<WritePayload, Seq<char>>(
                    ErrorView::Snapshot("无法生成快照负载："@ + error@),
                ),
                Ok(bytes) => {
                    &&& step matches Step::Perform {
                        operation: WritePayload::WritingPayload { payload, manifest },
                        report: None,
                    }
                    &&& payload == bytes
                    &&& manifest.version == FORMAT_VERSION
                    &&& outside::uuid_form(manifest.id@) == Some(manifest.id@)
                    &&& describes(manifest, bytes@)
                },
            },
            (WritePayload::WritingPayload { manifest, .. }, PayloadReply::Done(done)) => step@ == (
            match done {
                Err(error) => step::failing::<WritePayload, Seq<char>>(error@),
                Ok(_) => step::going(WritePayload::GeneratingManifest { manifest }),
            }),
            (WritePayload::GeneratingManifest { manifest }, PayloadReply::Generated(generated)) =>
                step@ == (match generated {
                    Err(error) => step::failing::<WritePayload, Seq<char>>(
                        ErrorView::Snapshot("无法生成快照清单："@ + error@),
                    ),
                    Ok(bytes) => step::going(
                        WritePayload::WritingManifest { bytes, id: manifest.id },
                    ),
                }),
            (WritePayload::WritingManifest { id, .. }, PayloadReply::Done(done)) => step@ == (
            match done {
                Err(error) => step::failing::<WritePayload, Seq<char>>(error@),
                Ok(_) => step::going(WritePayload::Syncing { id }),
            }),
            (WritePayload::Syncing { id }, PayloadReply::Done(done)) => step@ == (match done {
                Err(error) => step::failing::<WritePayload, Seq<char>>(error@),
                Ok(_) => step::ending(id@),
            }),
            _ => step@ == step::confused::<WritePayload, Seq<char>>(),
        }
    }

    /// Takes the answer.
    pub fn resume(self, reply: PayloadReply) -> (step: Step<WritePayload, String>)
        ensures
            self.leads_to(reply, step),
    {
        match (self, reply) {
            (WritePayload::Ensuring, PayloadReply::Done(done)) => match done {
                Err(error) => step::fail(error),
                Ok(_) => step::go(WritePayload::Excluding),
            },
            (WritePayload::Excluding, PayloadReply::Excluded(done)) => match done {
                Err(error) => step::fail(AppError::Snapshot(error)),
                Ok(_) => step::go(WritePayload::Generating),
            },
            (WritePayload::Generating, PayloadReply::Generated(generated)) => match generated {
                Err(error) => step::fail(
                    AppError::Snapshot(text::joined2("无法生成快照负载：", error.as_str())),
                ),
                Ok(payload) => {
                    let manifest = SnapshotManifest {
                        version: FORMAT_VERSION,
                        id: outside::new_id(),
                        payload_length: payload.len() as u64,
                        payload_sha256: outside::sha256(&payload),
                    };
                    step::go(WritePayload::WritingPayload { payload, manifest })
                },
            },
            (WritePayload::WritingPayload { payload: _, manifest }, PayloadReply::Done(done)) =>
                match done {
                    Err(error) => step::fail(error),
                    Ok(_) => step::go(WritePayload::GeneratingManifest { manifest }),
                },
            (WritePayload::GeneratingManifest { manifest }, PayloadReply::Generated(generated)) =>
                match generated {
                    Err(error) => step::fail(
                        AppError::Snapshot(text::joined2("无法生成快照清单：", error.as_str())),
                    ),
                    Ok(bytes) => step::go(
                        WritePayload::WritingManifest { bytes, id: manifest.id },
                    ),
                },
            (WritePayload::WritingManifest { bytes: _, id }, PayloadReply::Done(done)) =>
                match done {
                    Err(error) => step::fail(error),
                    Ok(_) => step::go(WritePayload::Syncing { id }),
                },
            (WritePayload::Syncing { id }, PayloadReply::Done(done)) => match done {
                Err(error) => step::fail(error),
                Ok(_) => step::end(id),
            },
            _ => step::give_up(),
        }
    }
}

/// A payload that is whole, with its id.
#[derive(Debug)]
pub struct WholePayload {
    pub id: String,
    pub payload: Vec<u8>,
}

impl View for WholePayload {
    type V = WholePayload;

    open spec fn view(&self) -> WholePayload {
        *self
    }
}

/// Reading a payload: its manifest says what it has to be like. Each state names the
/// work that is to be done.
#[derive(Debug)]
pub enum ReadPayload {
    /// The directory has to be a private one.
    Checking,
    /// The manifest's file is to be read.
    ReadingManifest,
    /// The manifest is to be read from these bytes.
    ParsingManifest { bytes: Vec<u8> },
    /// The payload is to be read.
    ReadingPayload { manifest: SnapshotManifest },
}

impl ReadPayload {
    /// What the answer leads to.
    pub open spec fn next(self, reply: PayloadReply) -> StepView<ReadPayload, WholePayload> {
        match (self, reply) {
            (ReadPayload::Checking, PayloadReply::Done(done)) => match done {
                Err(error) => step::failing(error@),
                Ok(_) => step::going(ReadPayload::ReadingManifest),
            },
            (ReadPayload::ReadingManifest, PayloadReply::Bytes(bytes)) => match bytes {
                Err(error) => step::failing(error@),
                Ok(bytes) => step::going(ReadPayload::ParsingManifest { bytes }),
            },
            (ReadPayload::ParsingManifest { .. }, PayloadReply::Manifest(manifest)) =>
                match manifest {
                    Err(error) => step::failing(
                        ErrorView::Snapshot("快照清单格式无效："@ + error@),
                    ),
                    Ok(manifest) => if is_readable(manifest) {
                        step::going(ReadPayload::ReadingPayload { manifest })
                    } else {
                        step::failing(ErrorView::Snapshot("不支持的快照格式"@))
                    },
                },
            (ReadPayload::ReadingPayload { manifest }, PayloadReply::Bytes(bytes)) => match bytes {
                Err(error) => step::failing(error@),
                Ok(payload) => if describes(manifest, payload@) {
                    step::ending(WholePayload { id: manifest.id, payload })
                } else {
                    step::failing(ErrorView::Snapshot("快照完整性校验失败"@))
                },
            },
            _ => step::confused(),
        }
    }

    /// Takes the answer.
    pub fn resume(self, reply: PayloadReply) -> (step: Step<ReadPayload, WholePayload>)
        ensures
            step@ == self.next(reply),
    {
        match (self, reply) {
            (ReadPayload::Checking, PayloadReply::Done(done)) => match done {
                Err(error) => step::fail(error),
                Ok(_) => step::go(ReadPayload::ReadingManifest),
            },
            (ReadPayload::ReadingManifest, PayloadReply::Bytes(bytes)) => match bytes {
                Err(error) => step::fail(error),
                Ok(bytes) => step::go(ReadPayload::ParsingManifest { bytes }),
            },
            (ReadPayload::ParsingManifest { bytes: _ }, PayloadReply::Manifest(manifest)) =>
                match manifest {
                    Err(error) => step::fail(
                        AppError::Snapshot(text::joined2("快照清单格式无效：", error.as_str())),
                    ),
                    Ok(manifest) => if manifest.version == FORMAT_VERSION && outside::is_uuid(
                        manifest.id.as_str(),
                    ) {
                        step::go(ReadPayload::ReadingPayload { manifest })
                    } else {
                        step::fail(AppError::Snapshot("不支持的快照格式".to_owned()))
                    },
                },
            (ReadPayload::ReadingPayload { manifest }, PayloadReply::Bytes(bytes)) => match bytes {
                Err(error) => step::fail(error),
                Ok(payload) => {
                    let digest = outside::sha256(&payload);
                    if payload.len() as u64 == manifest.payload_length && text::same_text(
                        digest.as_str(),
                        manifest.payload_sha256.as_str(),
                    ) {
                        step::end(WholePayload { id: manifest.id, payload })
                    } else {
                        step::fail(AppError::Snapshot("快照完整性校验失败".to_owned()))
                    }
                },
            },
            _ => step::give_up(),
        }
    }
}

/// What was read cannot be used.
pub open spec fn payload_error(error: Seq<char>) -> ErrorView {
    ErrorView::Snapshot("快照负载格式无效："@ + error)
}

/// What was read cannot be used.
pub fn invalid_payload(error: &str) -> (failure: AppError)
    ensures
        failure@ == payload_error(error@),
{
    AppError::Snapshot(text::joined2("快照负载格式无效：", error))
}

impl SnapshotCodec {
    /// Begins to write a payload.
    pub fn write(&self) -> (operation: WritePayload)
        ensures
            operation == WritePayload::Ensuring,
    {
        WritePayload::Ensuring
    }

    /// Begins to read a payload.
    pub fn read(&self) -> (operation: ReadPayload)
        ensures
            operation == ReadPayload::Checking,
    {
        ReadPayload::Checking
    }

    /// The name of the directory of an account.
    pub fn account_directory_name(account: &AccountKey) -> (name: String)
        ensures
            name@ == directory_name(account@),
    {
        let id = account.stable_id();
        let preimage = text::joined2("BnetSwitchLite account path v1\0", id.as_str());
        outside::sha256(&text::bytes_of(preimage.as_str()))
    }
}

/// What the name of the directory of an account is the digest of: the account's id behind
/// a fixed text.
pub open spec fn directory_preimage(account: contracts::AccountKeyView) -> Seq<u8> {
    vstd::utf8::encode_utf8("BnetSwitchLite account path v1\0"@ + account.stable_id())
}

/// The name of the directory of an account.
pub open spec fn directory_name(account: contracts::AccountKeyView) -> Seq<char> {
    outside::sha256_hex(directory_preimage(account))
}

/// Different accounts have different directories as far as the digest tells them apart:
/// what is hashed determines the account, where no environment holds a colon.
pub proof fn law_directory_determines_account(
    first: contracts::AccountKeyView,
    second: contracts::AccountKeyView,
)
    requires
        directory_preimage(first) == directory_preimage(second),
        !first.environment.contains(':'),
        !second.environment.contains(':'),
    ensures
        first == second,
{
    let front = "BnetSwitchLite account path v1\0"@;
    let a = front + first.stable_id();
    let b = front + second.stable_id();
    vstd::utf8::encode_utf8_decode_utf8(a);
    vstd::utf8::encode_utf8_decode_utf8(b);
    assert(a == b);
    assert(first.stable_id() =~= a.subrange(front.len() as int, a.len() as int));
    assert(second.stable_id() =~= b.subrange(front.len() as int, b.len() as int));
    contracts::law_stable_id_determines_account(first, second);
}

/// What was written is read back: the manifest that is written for a payload can be
/// read, and it accepts the payload and gives its id.
pub proof fn law_written_payload_is_read_back(
    bytes: Vec<u8>,
    step: Step<WritePayload, String>,
    payload: Vec<u8>,
    manifest: SnapshotManifest,
)
    requires
        WritePayload::Generating.leads_to(PayloadReply::Generated(Ok(bytes)), step),
        step@ == step::going::<WritePayload, Seq<char>>(
            WritePayload::WritingPayload { payload, manifest },
        ),
    ensures
        (ReadPayload::ParsingManifest { bytes }).next(PayloadReply::Manifest(Ok(manifest)))
            == step::going::<ReadPayload, WholePayload>(ReadPayload::ReadingPayload { manifest }),
        (ReadPayload::ReadingPayload { manifest }).next(PayloadReply::Bytes(Ok(payload)))
            == step::ending::<ReadPayload, WholePayload>(
            WholePayload { id: manifest.id, payload: bytes },
        ),
{
}

/// Only a payload with the manifest's length and digest is ever read.
pub proof fn law_changed_payload_is_refused(manifest: SnapshotManifest, payload: Vec<u8>)
    requires
        payload@.len() as u64 != manifest.payload_length || outside::sha256_hex(payload@)
            != manifest.payload_sha256@,
    ensures
        (ReadPayload::ReadingPayload { manifest }).next(PayloadReply::Bytes(Ok(payload)))
            == step::failing::<ReadPayload, WholePayload>(
            ErrorView::Snapshot("快照完整性校验失败"@),
        ),
{
}

/// Why the saved configuration cannot be used.
pub open spec fn config_error(config: ConfigSnapshot) -> Option<ErrorView> {
    if config.present && (config.bytes.len() == 0 || outside::sha256_hex(config.bytes@)
        != config.sha256@) {
        Some(ErrorView::Snapshot("Battle.net.config 快照校验失败"@))
    } else if !config.present && config.bytes.len() > 0 {
        Some(ErrorView::Snapshot("空配置快照包含意外数据"@))
    } else {
        None
    }
}

/// Checks a saved configuration.
pub fn validate_config_snapshot(config: &ConfigSnapshot) -> (result: Result<(), AppError>)
    ensures
        match result {
            Ok(_) => config_error(*config) is None,
            Err(error) => config_error(*config) == Some(error@),
        },
{
    if config.present {
        if config.bytes.len() == 0 {
            return Err(AppError::Snapshot("Battle.net.config 快照校验失败".to_owned()));
        }
        let digest = outside::sha256(&config.bytes);
        if !text::same_text(digest.as_str(), config.sha256.as_str()) {
            return Err(AppError::Snapshot("Battle.net.config 快照校验失败".to_owned()));
        }
        return Ok(());
    }
    if config.bytes.len() > 0 {
        return Err(AppError::Snapshot("空配置快照包含意外数据".to_owned()));
    }
    Ok(())
}

/// The state of a login as it was found: the client's configuration, where there is one,
/// and its preferences.
pub fn capture_current(
    config: Option<UserFile>,
    account: Option<AccountKey>,
    created_at: u64,
    preferences: PreferenceSnapshot,
) -> (payload: SecurePayload)
    ensures
        payload.version == FORMAT_VERSION,
        payload.account == account,
        payload.created_at == created_at,
        payload.preferences == preferences,
        match config {
            Some(file) => {
                &&& payload.config.present
                &&& payload.config.bytes == file.bytes
                &&& payload.config.sha256@ == outside::sha256_hex(file.bytes@)
                &&& payload.config.unix_mode == file.mode
            },
            None => {
                &&& !payload.config.present
                &&& payload.config.bytes@ == Seq::<u8>::empty()
                &&& payload.config.sha256@ == outside::sha256_hex(Seq::empty())
                &&& payload.config.unix_mode == secure_fs::PRIVATE_FILE_MODE
            },
        },
{
    let config = match config {
        Some(file) => {
            let sha256 = outside::sha256(&file.bytes);
            ConfigSnapshot { present: true, sha256, bytes: file.bytes, unix_mode: file.mode }
        },
        None => {
            let bytes: Vec<u8> = Vec::new();
            let sha256 = outside::sha256(&bytes);
            assert(bytes@ =~= Seq::<u8>::empty());
            ConfigSnapshot {
                present: false,
                sha256,
                bytes,
                unix_mode: secure_fs::PRIVATE_FILE_MODE,
            }
        },
    };
    SecurePayload { version: FORMAT_VERSION, account, created_at, config, preferences }
}

/// Putting a saved configuration in place. Each state names the work that is to be done.
#[derive(Debug)]
pub enum ApplyConfig {
    /// The configuration is to be written, with these permissions.
    Writing { config: ConfigSnapshot, mode: u32 },
    /// The configuration is to be read again.
    Rereading { config: ConfigSnapshot },
    /// A configuration that is there is to be looked for.
    Looking,
    /// The configuration is to be removed.
    Removing,
}

/// What came of the work on the client's configuration.
#[derive(Debug)]
pub enum ConfigReply {
    Done(Result<(), AppError>),
    File(Result<Option<UserFile>, AppError>),
}

impl ApplyConfig {
    /// What the answer leads to.
    pub open spec fn next(self, reply: ConfigReply) -> StepView<ApplyConfig, ()> {
        match (self, reply) {
            (ApplyConfig::Writing { config, .. }, ConfigReply::Done(done)) => match done {
                Err(error) => step::failing(error@),
                Ok(_) => step::going(ApplyConfig::Rereading { config }),
            },
            (ApplyConfig::Rereading { config }, ConfigReply::File(file)) => match file {
                Err(error) => step::failing(error@),
                Ok(None) => step::failing(
                    ErrorView::Transaction("Battle.net.config 写入后不存在"@),
                ),
                Ok(Some(file)) => if outside::sha256_hex(file.bytes@) != config.sha256@ {
                    step::failing(ErrorView::Transaction("Battle.net.config 写入后校验失败"@))
                } else {
                    step::ending(())
                },
            },
            (ApplyConfig::Looking, ConfigReply::File(file)) => match file {
                Err(error) => step::failing(error@),
                Ok(None) => step::ending(()),
                Ok(Some(_)) => step::going(ApplyConfig::Removing),
            },
            (ApplyConfig::Removing, ConfigReply::Done(done)) => match done {
                Err(error) => step::failing(error@),
                Ok(_) => step::ending(()),
            },
            _ => step::confused(),
        }
    }

    /// Takes the answer.
    pub fn resume(self, reply: ConfigReply) -> (step: Step<ApplyConfig, ()>)
        ensures
            step@ == self.next(reply),
    {
        match (self, reply) {
            (ApplyConfig::Writing { config, mode: _ }, ConfigReply::Done(done)) => match done {
                Err(error) => step::fail(error),
                Ok(_) => step::go(ApplyConfig::Rereading { config }),
            },
            (ApplyConfig::Rereading { config }, ConfigReply::File(file)) => match file {
                Err(error) => step::fail(error),
                Ok(None) => step::fail(
                    AppError::Transaction("Battle.net.config 写入后不存在".to_owned()),
                ),
                Ok(Some(file)) => {
                    let digest = outside::sha256(&file.bytes);
                    if text::same_text(digest.as_str(), config.sha256.as_str()) {
                        step::end(())
                    } else {
                        step::fail(
                            AppError::Transaction("Battle.net.config 写入后校验失败".to_owned()),
                        )
                    }
                },
            },
            (ApplyConfig::Looking, ConfigReply::File(file)) => match file {
                Err(error) => step::fail(error),
                Ok(None) => step::end(()),
                Ok(Some(_)) => step::go(ApplyConfig::Removing),
            },
            (ApplyConfig::Removing, ConfigReply::Done(done)) => match done {
                Err(error) => step::fail(error),
                Ok(_) => step::end(()),
            },
            _ => step::give_up(),
        }
    }
}

/// Begins to put a saved configuration in place; one that cannot be used is refused.
pub fn apply_config(config: ConfigSnapshot) -> (step: Step<ApplyConfig, ()>)
    ensures
        step@ == (match config_error(config) {
            Some(error) => step::failing::<ApplyConfig, ()>(error),
            None => if config.present {
                step::going(
                    ApplyConfig::Writing {
                        config,
                        mode: secure_fs::permissions(config.unix_mode),
                    },
                )
            } else {
                step::going(ApplyConfig::Looking)
            },
        }),
{
    match validate_config_snapshot(&config) {
        Err(error) => {
            return step::fail(error);
        },
        Ok(_) => {},
    }
    if config.present {
        let mode = secure_fs::permission_mode(config.unix_mode);
        step::go(ApplyConfig::Writing { config, mode })
    } else {
        step::go(ApplyConfig::Looking)
    }
}

/// A configuration that was found can be put in place again, unless it is empty.
pub proof fn law_captured_config_can_be_applied(payload: SecurePayload, file: UserFile)
    requires
        payload.config.present,
        payload.config.bytes == file.bytes,
        payload.config.sha256@ == outside::sha256_hex(file.bytes@),
        file.bytes.len() > 0,
    ensures
        config_error(payload.config) is None,
{
}

/// Why the profile of a saved account cannot be used.
pub open spec fn profile_error(profile: AccountProfile) -> Option<ErrorView> {
    if profile.version != FORMAT_VERSION {
        Some(ErrorView::Snapshot("不支持的账号快照索引版本"@))
    } else if !profile.verified_login {
        Some(ErrorView::Snapshot("账号快照未经过登录验证"@))
    } else {
        None
    }
}

/// The profile that was read, or why there is none.
pub open spec fn profile_of(read: Result<Result<AccountProfile, String>, AppError>) -> Result<
    AccountProfile,
    ErrorView,
> {
    match read {
        Err(error) => Err(error@),
        Ok(Err(error)) => Err(ErrorView::Snapshot("账号快照索引无效："@ + error@)),
        Ok(Ok(profile)) => match profile_error(profile) {
            Some(error) => Err(error),
            None => Ok(profile),
        },
    }
}

/// The profile that was read, where it can be used.
pub fn read_profile(read: Result<Result<AccountProfile, String>, AppError>) -> (profile: Result<
    AccountProfile,
    AppError,
>)
    ensures
        match (profile, profile_of(read)) {
            (Ok(profile), Ok(expected)) => profile == expected,
            (Err(error), Err(expected)) => error@ == expected,
            _ => false,
        },
{
    match read {
        Err(error) => Err(error),
        Ok(Err(error)) => Err(
            AppError::Snapshot(text::joined2("账号快照索引无效：", error.as_str())),
        ),
        Ok(Ok(profile)) => {
            if profile.version != FORMAT_VERSION {
                return Err(AppError::Snapshot("不支持的账号快照索引版本".to_owned()));
            }
            if !profile.verified_login {
                return Err(AppError::Snapshot("账号快照未经过登录验证".to_owned()));
            }
            Ok(profile)
        },
    }
}

/// What came of the work on a saved account.
#[derive(Debug)]
pub enum StoreReply {
    Done(Result<(), AppError>),
    Excluded(Result<(), String>),
    /// Whether a login is among the preferences.
    Authenticated(Result<bool, AppError>),
    Payload(Result<SecurePayload, AppError>),
    Profile(Result<Result<AccountProfile, String>, AppError>),
    Generated(Result<Vec<u8>, String>),
    /// The names in the directory of the generations, and why there are no more of them,
    /// where that is an error.
    Names(Result<(Vec<String>, Option<String>), AppError>),
}

/// A generation that is saved.
#[derive(Debug)]
pub struct SaveJob {
    pub account: AccountKey,
    pub generation: String,
    pub created_at: u64,
}

/// Saving an account: a new generation is written beside the others, read again, moved
/// to its place and named in the profile; then the other generations are removed. Each
/// state names the work that is to be done.
#[derive(Debug)]
pub enum SaveSnapshot {
    /// It is to be found out whether a login is among the preferences.
    CheckingLogin { account: AccountKey, payload: SecurePayload },
    /// The account's directory has to be a private one.
    EnsuringAccount { account: AccountKey, payload: SecurePayload },
    /// The directory of the generations has to be a private one.
    EnsuringGenerations { account: AccountKey, payload: SecurePayload },
    /// The account's directory is to be kept out of the backups.
    Excluding { account: AccountKey, payload: SecurePayload },
    /// The directory in which the generation is written is to be created.
    Creating { job: SaveJob, payload: SecurePayload },
    /// The payload is to be written to that directory.
    Writing { job: SaveJob, payload: SecurePayload },
    /// The payload is to be read from that directory.
    Rereading { job: SaveJob },
    /// That directory is to be moved to the place of the generation.
    Publishing { job: SaveJob },
    /// The profile is to be generated.
    Generating { job: SaveJob, profile: AccountProfile },
    /// The profile is to be written.
    WritingProfile { job: SaveJob, bytes: Vec<u8> },
    /// The generations are to be listed.
    Listing { job: SaveJob },
    /// The generation with this number is to be removed, whatever comes of it.
    Removing { job: SaveJob, names: Vec<String>, index: usize, failure: Option<String> },
    /// The directory in which the generation was written is to be removed, whatever
    /// comes of it, after this error.
    CleaningUp { job: SaveJob, error: AppError },
}

/// The first of the names, from the one with the number on, that is not the
/// generation's.
pub open spec fn next_other(names: Seq<String>, index: int, generation: Seq<char>) -> int
    decreases names.len() - index,
{
    if index >= names.len() {
        names.len() as int
    } else if names[index]@ != generation {
        index
    } else {
        next_other(names, index + 1, generation)
    }
}

fn find_other(names: &Vec<String>, index: usize, generation: &str) -> (at: usize)
    requires
        index <= names.len(),
    ensures
        at == next_other(names@, index as int, generation@),
        at <= names.len(),
{
    let mut at: usize = index;
    while at < names.len() && text::same_text(names[at].as_str(), generation)
        invariant
            at <= names.len(),
            next_other(names@, index as int, generation@) == next_other(
                names@,
                at as int,
                generation@,
            ),
        decreases names.len() - at,
    {
        at = at + 1;
    }
    at
}

/// Whether the step goes on with the next of the other generations, or ends.
pub open spec fn goes_on_removing(
    job: SaveJob,
    names: Vec<String>,
    index: int,
    failure: Option<String>,
    step: Step<SaveSnapshot, SnapshotSummary>,
) -> bool {
    let at = next_other(names@, index, job.generation@);
    if at < names.len() {
        step@ == step::going::<SaveSnapshot, SnapshotSummary>(
            SaveSnapshot::Removing { job, names, index: at as usize, failure },
        )
    } else {
        match failure {
            None => step@ == step::ending::<SaveSnapshot, SnapshotSummary>(
                SnapshotSummary { last_saved_at: job.created_at },
            ),
            Some(error) => cleans_up(
                job,
                ErrorView::Snapshot("无法读取账号代际项："@ + error@),
                step,
            ),
        }
    }
}

/// Whether the step cleans up after the error.
pub open spec fn cleans_up(
    job: SaveJob,
    error: ErrorView,
    step: Step<SaveSnapshot, SnapshotSummary>,
) -> bool {
    &&& step matches Step::Perform {
        operation: SaveSnapshot::CleaningUp { job: kept, error: failure },
        report: None,
    }
    &&& kept == job
    &&& failure@ == error
}

fn remove_next(job: SaveJob, names: Vec<String>, index: usize, failure: Option<String>) -> (step: Step<
    SaveSnapshot,
    SnapshotSummary,
>)
    requires
        index <= names.len(),
    ensures
        goes_on_removing(job, names, index as int, failure, step),
        step matches Step::Perform { operation, .. } ==> operation.valid(),
{
    let at: usize = find_other(&names, index, job.generation.as_str());
    if at < names.len() {
        return step::go(SaveSnapshot::Removing { job, names, index: at, failure });
    }
    match failure {
        None => step::end(SnapshotSummary { last_saved_at: job.created_at }),
        Some(error) => step::go(
            SaveSnapshot::CleaningUp {
                job,
                error: AppError::Snapshot(text::joined2("无法读取账号代际项：", error.as_str())),
            },
        ),
    }
}

fn clean_up(job: SaveJob, error: AppError) -> (step: Step<SaveSnapshot, SnapshotSummary>)
    ensures
        cleans_up(job, error@, step),
        step matches Step::Perform { operation, .. } ==> operation.valid(),
{
    step::go(SaveSnapshot::CleaningUp { job, error })
}

impl SaveSnapshot {
    /// Whether the number is that of a name.
    pub open spec fn valid(self) -> bool {
        self matches SaveSnapshot::Removing { names, index, .. } ==> index < names.len()
    }

    /// Whether the answer leads to the step.
    pub open spec fn leads_to(
        self,
        reply: StoreReply,
        step: Step<SaveSnapshot, SnapshotSummary>,
    ) -> bool {
        match (self, reply) {
            (SaveSnapshot::CheckingLogin { account, payload }, StoreReply::Authenticated(yes)) =>
                step@ == (match yes {
                    Err(error) => step::failing::<SaveSnapshot, SnapshotSummary>(error@),
                    Ok(false) => step::failing(
                        ErrorView::Snapshot("未检测到可保存的 macOS 战网认证状态"@),
                    ),
                    Ok(true) => step::going(SaveSnapshot::EnsuringAccount { account, payload }),
                }),
            (SaveSnapshot::EnsuringAccount { account, payload }, StoreReply::Done(done)) => step@
                == (match done {
                Err(error) => step::failing::<SaveSnapshot, SnapshotSummary>(error@),
                Ok(_) => step::going(SaveSnapshot::EnsuringGenerations { account, payload }),
            }),
            (SaveSnapshot::EnsuringGenerations { account, payload }, StoreReply::Done(done)) =>
                step@ == (match done {
                    Err(error) => step::failing::<SaveSnapshot, SnapshotSummary>(error@),
                    Ok(_) => step::going(SaveSnapshot::Excluding { account, payload }),
                }),
            (SaveSnapshot::Excluding { account, payload }, StoreReply::Excluded(done)) =>
                match done {
                    Err(error) => step@ == step::failing::<SaveSnapshot, SnapshotSummary>(
                        ErrorView::Snapshot(error@),
                    ),
                    Ok(_) => {
                        &&& step matches Step::Perform {
                            operation: SaveSnapshot::Creating { job, payload: kept },
                            report: None,
                        }
                        &&& kept == payload
                        &&& job.account == account
                        &&& job.created_at == payload.created_at
                        &&& outside::uuid_form(job.generation@) == Some(job.generation@)
                    },
                },
            (SaveSnapshot::Creating { job, payload }, StoreReply::Done(done)) => step@ == (
            match done {
                Err(error) => step::failing::<SaveSnapshot, SnapshotSummary>(error@),
                Ok(_) => step::going(SaveSnapshot::Writing { job, payload }),
            }),
            (SaveSnapshot::Writing { job, .. }, StoreReply::Done(done)) => match done {
                Err(error) => cleans_up(job, error@, step),
                Ok(_) => step@ == step::going::<SaveSnapshot, SnapshotSummary>(
                    SaveSnapshot::Rereading { job },
                ),
            },
            (SaveSnapshot::Rereading { job }, StoreReply::Payload(read)) => match read {
                Err(error) => cleans_up(job, error@, step),
                Ok(verified) => if contracts::key_view(verified.account) != Some(job.account@) {
                    cleans_up(job, ErrorView::Snapshot("账号快照发布前校验失败"@), step)
                } else {
                    step@ == step::going::<SaveSnapshot, SnapshotSummary>(
                        SaveSnapshot::Publishing { job },
                    )
                },
            },
            (SaveSnapshot::Publishing { job }, StoreReply::Done(done)) => match done {
                Err(error) => cleans_up(job, error@, step),
                Ok(_) => step@ == step::going::<SaveSnapshot, SnapshotSummary>(
                    SaveSnapshot::Generating {
                        job,
                        profile: AccountProfile {
                            version: FORMAT_VERSION,
                            verified_login: true,
                            active_generation: job.generation,
                            last_saved_at: job.created_at,
                        },
                    },
                ),
            },
            (SaveSnapshot::Generating { job, .. }, StoreReply::Generated(generated)) =>
                match generated {
                    Err(error) => cleans_up(
                        job,
                        ErrorView::Snapshot("无法生成账号索引："@ + error@),
                        step,
                    ),
                    Ok(bytes) => step@ == step::going::<SaveSnapshot, SnapshotSummary>(
                        SaveSnapshot::WritingProfile { job, bytes },
                    ),
                },
            (SaveSnapshot::WritingProfile { job, .. }, StoreReply::Done(done)) => match done {
                Err(error) => cleans_up(job, error@, step),
                Ok(_) => step@ == step::going::<SaveSnapshot, SnapshotSummary>(
                    SaveSnapshot::Listing { job },
                ),
            },
            (SaveSnapshot::Listing { job }, StoreReply::Names(names)) => match names {
                Err(error) => cleans_up(job, error@, step),
                Ok(listed) => goes_on_removing(job, listed.0, 0, listed.1, step),
            },
            (SaveSnapshot::Removing { job, names, index, failure }, StoreReply::Done(_)) =>
                goes_on_removing(job, names, index + 1, failure, step),
            (SaveSnapshot::CleaningUp { error, .. }, StoreReply::Done(_)) => step@
                == step::failing::<SaveSnapshot, SnapshotSummary>(error@),
            _ => step@ == step::confused::<SaveSnapshot, SnapshotSummary>(),
        }
    }

    /// Takes the answer.
    pub fn resume(self, reply: StoreReply) -> (step: Step<SaveSnapshot, SnapshotSummary>)
        requires
            self.valid(),
        ensures
            self.leads_to(reply, step),
            step matches Step::Perform { operation, .. } ==> operation.valid(),
    {
        match (self, reply) {
            (SaveSnapshot::CheckingLogin { account, payload }, StoreReply::Authenticated(yes)) =>
                match yes {
                    Err(error) => step::fail(error),
                    Ok(false) => step::fail(
                        AppError::Snapshot("未检测到可保存的 macOS 战网认证状态".to_owned()),
                    ),
                    Ok(true) => step::go(SaveSnapshot::EnsuringAccount { account, payload }),
                },
            (SaveSnapshot::EnsuringAccount { account, payload }, StoreReply::Done(done)) =>
                match done {
                    Err(error) => step::fail(error),
                    Ok(_) => step::go(SaveSnapshot::EnsuringGenerations { account, payload }),
                },
            (SaveSnapshot::EnsuringGenerations { account, payload }, StoreReply::Done(done)) =>
                match done {
                    Err(error) => step::fail(error),
                    Ok(_) => step::go(SaveSnapshot::Excluding { account, payload }),
                },
            (SaveSnapshot::Excluding { account, payload }, StoreReply::Excluded(done)) =>
                match done {
                    Err(error) => step::fail(AppError::Snapshot(error)),
                    Ok(_) => {
                        let job = SaveJob {
                            account,
                            generation: outside::new_id(),
                            created_at: payload.created_at,
                        };
                        step::go(SaveSnapshot::Creating { job, payload })
                    },
                },
            (SaveSnapshot::Creating { job, payload }, StoreReply::Done(done)) => match done {
                Err(error) => step::fail(error),
                Ok(_) => step::go(SaveSnapshot::Writing { job, payload }),
            },
            (SaveSnapshot::Writing { job, payload: _ }, StoreReply::Done(done)) => match done {
                Err(error) => clean_up(job, error),
                Ok(_) => step::go(SaveSnapshot::Rereading { job }),
            },
            (SaveSnapshot::Rereading { job }, StoreReply::Payload(read)) => match read {
                Err(error) => clean_up(job, error),
                Ok(verified) => {
                    let same = match &verified.account {
                        Some(account) => *account == job.account,
                        None => false,
                    };
                    if same {
                        step::go(SaveSnapshot::Publishing { job })
                    } else {
                        clean_up(job, AppError::Snapshot("账号快照发布前校验失败".to_owned()))
                    }
                },
            },
            (SaveSnapshot::Publishing { job }, StoreReply::Done(done)) => match done {
                Err(error) => clean_up(job, error),
                Ok(_) => {
                    let profile = AccountProfile {
                        version: FORMAT_VERSION,
                        verified_login: true,
                        active_generation: job.generation.clone(),
                        last_saved_at: job.created_at,
                    };
                    step::go(SaveSnapshot::Generating { job, profile })
                },
            },
            (SaveSnapshot::Generating { job, profile: _ }, StoreReply::Generated(generated)) =>
                match generated {
                    Err(error) => clean_up(
                        job,
                        AppError::Snapshot(text::joined2("无法生成账号索引：", error.as_str())),
                    ),
                    Ok(bytes) => step::go(SaveSnapshot::WritingProfile { job, bytes }),
                },
            (SaveSnapshot::WritingProfile { job, bytes: _ }, StoreReply::Done(done)) => match done {
                Err(error) => clean_up(job, error),
                Ok(_) => step::go(SaveSnapshot::Listing { job }),
            },
            (SaveSnapshot::Listing { job }, StoreReply::Names(names)) => match names {
                Err(error) => clean_up(job, error),
                Ok(listed) => remove_next(job, listed.0, 0, listed.1),
            },
            (SaveSnapshot::Removing { job, names, index, failure }, StoreReply::Done(_)) =>
                remove_next(job, names, index + 1, failure),
            (SaveSnapshot::CleaningUp { job: _, error }, StoreReply::Done(_)) => step::fail(error),
            _ => step::give_up(),
        }
    }
}

/// Reading a saved account: its profile names the generation, which has to be whole, the
/// account's, and hold a login. Each state names the work that is to be done.
#[derive(Debug)]
pub enum ValidateSnapshot {
    /// The account's directory has to be a private one.
    CheckingDirectory { account: AccountKey },
    /// The profile is to be read.
    ReadingProfile { account: AccountKey },
    /// The generation with this name is to be read.
    Reading { account: AccountKey, generation: String },
    /// It is to be found out whether a login is among the preferences.
    CheckingLogin { payload: SecurePayload },
}

impl ValidateSnapshot {
    /// Whether the answer leads to the step.
    pub open spec fn leads_to(
        self,
        reply: StoreReply,
        step: Step<ValidateSnapshot, SecurePayload>,
    ) -> bool {
        match (self, reply) {
            (ValidateSnapshot::CheckingDirectory { account }, StoreReply::Done(done)) => step@ == (
            match done {
                Err(error) => step::failing::<ValidateSnapshot, SecurePayload>(error@),
                Ok(_) => step::going(ValidateSnapshot::ReadingProfile { account }),
            }),
            (ValidateSnapshot::ReadingProfile { account }, StoreReply::Profile(read)) =>
                match profile_of(read) {
                    Err(error) => step@ == step::failing::<ValidateSnapshot, SecurePayload>(error),
                    Ok(profile) => match outside::uuid_form(profile.active_generation@) {
                        None => step@ == step::failing::<ValidateSnapshot, SecurePayload>(
                            ErrorView::Snapshot("账号快照代际标识无效"@),
                        ),
                        Some(form) => {
                            &&& step matches Step::Perform {
                                operation: ValidateSnapshot::Reading { account: kept, generation },
                                report: None,
                            }
                            &&& kept == account
                            &&& generation@ == form
                        },
                    },
                },
            (ValidateSnapshot::Reading { account, .. }, StoreReply::Payload(read)) => step@ == (
            match read {
                Err(error) => step::failing::<ValidateSnapshot, SecurePayload>(error@),
                Ok(payload) => if payload.version != FORMAT_VERSION || contracts::key_view(
                    payload.account,
                ) != Some(account@) {
                    step::failing(ErrorView::Snapshot("账号快照内容与索引不一致"@))
                } else {
                    step::going(ValidateSnapshot::CheckingLogin { payload })
                },
            }),
            (ValidateSnapshot::CheckingLogin { payload }, StoreReply::Authenticated(yes)) => step@
                == (match yes {
                Err(error) => step::failing::<ValidateSnapshot, SecurePayload>(error@),
                Ok(false) => step::failing(
                    ErrorView::Snapshot("账号认证快照不包含登录状态"@),
                ),
                Ok(true) => match config_error(payload.config) {
                    Some(error) => step::failing(error),
                    None => step::ending(payload),
                },
            }),
            _ => step@ == step::confused::<ValidateSnapshot, SecurePayload>(),
        }
    }

    /// Takes the answer.
    pub fn resume(self, reply: StoreReply) -> (step: Step<ValidateSnapshot, SecurePayload>)
        ensures
            self.leads_to(reply, step),
    {
        match (self, reply) {
            (ValidateSnapshot::CheckingDirectory { account }, StoreReply::Done(done)) =>
                match done {
                    Err(error) => step::fail(error),
                    Ok(_) => step::go(ValidateSnapshot::ReadingProfile { account }),
                },
            (ValidateSnapshot::ReadingProfile { account }, StoreReply::Profile(read)) =>
                match read_profile(read) {
                    Err(error) => step::fail(error),
                    Ok(profile) => match outside::parse_uuid(profile.active_generation.as_str()) {
                        None => step::fail(
                            AppError::Snapshot("账号快照代际标识无效".to_owned()),
                        ),
                        Some(generation) => step::go(
                            ValidateSnapshot::Reading { account, generation },
                        ),
                    },
                },
            (ValidateSnapshot::Reading { account, generation: _ }, StoreReply::Payload(read)) =>
                match read {
                    Err(error) => step::fail(error),
                    Ok(payload) => {
                        let same = match &payload.account {
                            Some(saved) => *saved == account,
                            None => false,
                        };
                        if payload.version != FORMAT_VERSION || !same {
                            step::fail(
                                AppError::Snapshot("账号快照内容与索引不一致".to_owned()),
                            )
                        } else {
                            step::go(ValidateSnapshot::CheckingLogin { payload })
                        }
                    },
                },
            (ValidateSnapshot::CheckingLogin { payload }, StoreReply::Authenticated(yes)) =>
                match yes {
                    Err(error) => step::fail(error),
                    Ok(false) => step::fail(
                        AppError::Snapshot("账号认证快照不包含登录状态".to_owned()),
                    ),
                    Ok(true) => match validate_config_snapshot(&payload.config) {
                        Err(error) => step::fail(error),
                        Ok(_) => step::end(payload),
                    },
                },
            _ => step::give_up(),
        }
    }
}

/// Where the saved accounts are kept.
#[derive(Debug)]
pub struct SnapshotStore {
    pub accounts_directory: String,
}

impl SnapshotStore {
    /// The saved accounts in the application's directory.
    pub fn new(data_directory: &str) -> (store: SnapshotStore)
        ensures
            store.accounts_directory@ == unix_path::adjoined(data_directory@, "accounts"@),
    {
        SnapshotStore { accounts_directory: unix_path::join(data_directory, "accounts") }
    }

    /// The directory of the account.
    pub fn account_directory(&self, account: &AccountKey) -> (directory: String)
        ensures
            directory@ == unix_path::adjoined(
                self.accounts_directory@,
                directory_name(account@),
            ),
    {
        unix_path::join(
            self.accounts_directory.as_str(),
            SnapshotCodec::account_directory_name(account).as_str(),
        )
    }

    /// Begins to save the account; a payload that is not the account's is refused.
    pub fn save(&self, account: &AccountKey, payload: SecurePayload) -> (step: Step<
        SaveSnapshot,
        SnapshotSummary,
    >)
        ensures
            step@ == (if contracts::key_view(payload.account) != Some(account@) || payload.version
                != FORMAT_VERSION {
                step::failing::<SaveSnapshot, SnapshotSummary>(
                    ErrorView::Snapshot("账号身份与认证快照不一致"@),
                )
            } else {
                step::going(SaveSnapshot::CheckingLogin { account: *account, payload })
            }),
            step matches Step::Perform { operation, .. } ==> operation.valid(),
    {
        let same = match &payload.account {
            Some(saved) => *saved == *account,
            None => false,
        };
        if !same || payload.version != FORMAT_VERSION {
            return step::fail(AppError::Snapshot("账号身份与认证快照不一致".to_owned()));
        }
        step::go(SaveSnapshot::CheckingLogin { account: account.clone(), payload })
    }

    /// What is known of a saved account, where there is one: whether its directory and
    /// its profile are there, and what was read of the profile.
    pub fn summary(
        directory_exists: Result<bool, AppError>,
        profile_exists: Result<bool, AppError>,
        profile: Result<Result<AccountProfile, String>, AppError>,
    ) -> (summary: Result<Option<SnapshotSummary>, AppError>)
        ensures
            match (directory_exists, profile_exists) {
                (Err(error), _) => summary == Err::<Option<SnapshotSummary>, AppError>(error),
                (Ok(false), _) => summary == Ok::<Option<SnapshotSummary>, AppError>(None),
                (Ok(true), Err(error)) => summary == Err::<Option<SnapshotSummary>, AppError>(
                    error,
                ),
                (Ok(true), Ok(false)) => summary == Ok::<Option<SnapshotSummary>, AppError>(None),
                (Ok(true), Ok(true)) => match profile_of(profile) {
                    Err(error) => summary is Err && summary->Err_0@ == error,
                    Ok(profile) => summary == Ok::<Option<SnapshotSummary>, AppError>(
                        Some(SnapshotSummary { last_saved_at: profile.last_saved_at }),
                    ),
                },
            },
    {
        match directory_exists {
            Err(error) => {
                return Err(error);
            },
            Ok(false) => {
                return Ok(None);
            },
            Ok(true) => {},
        }
        match profile_exists {
            Err(error) => {
                return Err(error);
            },
            Ok(false) => {
                return Ok(None);
            },
            Ok(true) => {},
        }
        match read_profile(profile) {
            Err(error) => Err(error),
            Ok(profile) => Ok(Some(SnapshotSummary { last_saved_at: profile.last_saved_at })),
        }
    }

    /// Begins to read the saved account.
    pub fn validate(&self, account: &AccountKey) -> (operation: ValidateSnapshot)
        ensures
            operation == (ValidateSnapshot::CheckingDirectory { account: *account }),
    {
        ValidateSnapshot::CheckingDirectory { account: account.clone() }
    }

    /// Begins to remove the saved account.
    pub fn remove(&self, account: &AccountKey) -> (operation: RemoveDirectory)
        ensures
            operation matches RemoveDirectory::CheckingChain { path } && path@
                == unix_path::adjoined(self.accounts_directory@, directory_name(account@)),
    {
        let directory = self.account_directory(account);
        secure_fs::remove_private_directory(directory.as_str())
    }
}

/// A saved account that can be used is the account's own, holds a login, and its
/// configuration is whole.
pub proof fn law_validated_payload_is_the_accounts(
    account: AccountKey,
    generation: String,
    payload: SecurePayload,
    read: Step<ValidateSnapshot, SecurePayload>,
    checked: Step<ValidateSnapshot, SecurePayload>,
    yes: Result<bool, AppError>,
)
    requires
        (ValidateSnapshot::Reading { account, generation }).leads_to(
            StoreReply::Payload(Ok(payload)),
            read,
        ),
        read@ is Perform,
        (ValidateSnapshot::CheckingLogin { payload }).leads_to(
            StoreReply::Authenticated(yes),
            checked,
        ),
        checked matches Step::Finished(Ok(_)),
    ensures
        contracts::key_view(payload.account) == Some(account@),
        yes == Ok::<bool, AppError>(true),
        config_error(payload.config) is None,
        checked@ == step::ending::<ValidateSnapshot, SecurePayload>(payload),
{
}

/// A new generation is moved to its place only after it was read again and found to be
/// the account's; the profile names a generation only after it is in its place; and
/// other generations are removed only after that.
pub proof fn law_profile_follows_publication(
    operation: SaveSnapshot,
    reply: StoreReply,
    step: Step<SaveSnapshot, SnapshotSummary>,
)
    requires
        operation.leads_to(reply, step),
    ensures
        step matches Step::Perform { operation: SaveSnapshot::Publishing { job }, .. } ==> operation
            == (SaveSnapshot::Rereading { job }) && (reply matches StoreReply::Payload(Ok(read))
            && contracts::key_view(read.account) == Some(job.account@)),
        step matches Step::Perform { operation: SaveSnapshot::Generating { job, profile }, .. } ==> {
            &&& operation == (SaveSnapshot::Publishing { job })
            &&& reply matches StoreReply::Done(Ok(_))
            &&& profile.active_generation == job.generation
        },
        step matches Step::Perform {
            operation: SaveSnapshot::Removing { job, names, index, .. },
            ..
        } ==> (operation is Listing || operation is Removing) && names@[index as int]@
            != job.generation@,
{
    match (operation, reply) {
        (SaveSnapshot::Listing { job }, StoreReply::Names(Ok(listed))) => {
            lemma_next_other(listed.0@, 0, job.generation@);
        },
        (SaveSnapshot::Removing { job, names, index, failure }, StoreReply::Done(_)) => {
            lemma_next_other(names@, index + 1, job.generation@);
        },
        _ => {},
    }
}

proof fn lemma_next_other(names: Seq<String>, index: int, generation: Seq<char>)
    requires
        0 <= index,
    ensures
        next_other(names, index, generation) < names.len() ==> index <= next_other(
            names,
            index,
            generation,
        ) && names[next_other(names, index, generation)]@ != generation,
    decreases names.len() - index,
{
    if index < names.len() && names[index]@ == generation {
        lemma_next_other(names, index + 1, generation);
    }
}

impl WritePayload {
    /// How the operation may go on.
    pub open spec fn leads() -> spec_fn(WritePayload, PayloadReply, Step<WritePayload, String>) -> bool {
        |operation: WritePayload, reply: PayloadReply, step: Step<WritePayload, String>|
            operation.leads_to(reply, step)
    }
}

/// Writing a payload succeeds exactly where the directory is private and kept out of the
/// backups, the payload was generated and written, and then its manifest, with the
/// payload's length and digest, was generated and written, and the directory was made
/// durable. The name of the manifest is given back.
pub proof fn law_payload_is_written_before_its_manifest(
    run: Seq<Taken<WritePayload, PayloadReply, String>>,
)
    requires
        step::is_taken_run(WritePayload::leads(), WritePayload::Ensuring, run),
    ensures
        step::taken_result(run) is Ok <==> {
            let manifest = run[3].operation->WritingPayload_manifest;
            &&& run.len() == 7
            &&& run[0].reply is Done
            &&& run[0].reply->Done_0 is Ok
            &&& run[1].operation is Excluding
            &&& run[1].reply is Excluded
            &&& run[1].reply->Excluded_0 is Ok
            &&& run[2].operation is Generating
            &&& run[2].reply is Generated
            &&& run[2].reply->Generated_0 is Ok
            &&& run[3].operation is WritingPayload
            &&& run[3].operation->payload == run[2].reply->Generated_0->Ok_0
            &&& manifest.version == FORMAT_VERSION
            &&& manifest.payload_sha256@ == outside::sha256_hex(run[2].reply->Generated_0->Ok_0@)
            &&& manifest.payload_length == run[2].reply->Generated_0->Ok_0@.len() as u64
            &&& run[3].reply is Done
            &&& run[3].reply->Done_0 is Ok
            &&& run[4].operation == (WritePayload::GeneratingManifest { manifest })
            &&& run[4].reply is Generated
            &&& run[4].reply->Generated_0 is Ok
            &&& run[5].operation == (WritePayload::WritingManifest {
                bytes: run[4].reply->Generated_0->Ok_0,
                id: manifest.id,
            })
            &&& run[5].reply is Done
            &&& run[5].reply->Done_0 is Ok
            &&& run[6].operation == (WritePayload::Syncing { id: manifest.id })
            &&& run[6].reply is Done
            &&& run[6].reply->Done_0 is Ok
        },
        step::taken_result(run) is Ok ==> {
            let manifest = run[3].operation->WritingPayload_manifest;
            step::taken_result(run) == Ok::<Seq<char>, ErrorView>(manifest.id@)
        },
        forall|i: int|
            0 <= i < run.len() && (i == 0 || i == 3 || i == 5 || i == 6) && (#[trigger] run[i]).reply is Done
                && run[i].reply->Done_0 is Err ==> i == run.len() - 1 && step::taken_result(run) == Err::<Seq<char>, ErrorView>(
                run[i].reply->Done_0->Err_0@,
            ),
        run.len() <= 7,
{
    let steps = WritePayload::leads();
    assert(step::goes_on(steps, run, 0));
    if run.len() > 1 {
        assert(step::goes_on(steps, run, 1));
    }
    if run.len() > 2 {
        assert(step::goes_on(steps, run, 2));
    }
    if run.len() > 3 {
        assert(step::goes_on(steps, run, 3));
    }
    if run.len() > 4 {
        assert(step::goes_on(steps, run, 4));
    }
    if run.len() > 5 {
        assert(step::goes_on(steps, run, 5));
    }
    if run.len() > 6 {
        assert(step::goes_on(steps, run, 6));
    }
}

impl ReadPayload {
    /// How the operation goes on.
    pub open spec fn steps() -> spec_fn(ReadPayload, PayloadReply) -> StepView<
        ReadPayload,
        WholePayload,
    > {
        |operation: ReadPayload, reply: PayloadReply| operation.next(reply)
    }
}

/// Reading a payload succeeds exactly where the directory is private, the manifest was
/// read and is of this version and named, and the payload was read and has the length and
/// the digest of the manifest. What is given is that payload under that name.
pub proof fn law_payload_is_read_only_as_its_manifest_says(
    run: Seq<Moment<ReadPayload, PayloadReply>>,
)
    requires
        step::is_run(ReadPayload::steps(), ReadPayload::Checking, run),
    ensures
        step::result_of(ReadPayload::steps(), run) is Ok <==> {
            let manifest = run[2].reply->Manifest_0->Ok_0;
            &&& run.len() == 4
            &&& run[0].reply is Done
            &&& run[0].reply->Done_0 is Ok
            &&& run[1].operation is ReadingManifest
            &&& run[1].reply is Bytes
            &&& run[1].reply->Bytes_0 is Ok
            &&& run[2].operation == (ReadPayload::ParsingManifest { bytes: run[1].reply->Bytes_0->Ok_0 })
            &&& run[2].reply is Manifest
            &&& run[2].reply->Manifest_0 is Ok
            &&& manifest.version == FORMAT_VERSION
            &&& outside::uuid_form(manifest.id@) is Some
            &&& run[3].operation == (ReadPayload::ReadingPayload { manifest })
            &&& run[3].reply is Bytes
            &&& run[3].reply->Bytes_0 is Ok
            &&& manifest.payload_sha256@ == outside::sha256_hex(run[3].reply->Bytes_0->Ok_0@)
            &&& manifest.payload_length == run[3].reply->Bytes_0->Ok_0@.len() as u64
        },
        step::result_of(ReadPayload::steps(), run) is Ok ==> {
            let manifest = run[2].reply->Manifest_0->Ok_0;
            step::result_of(ReadPayload::steps(), run) == Ok::<WholePayload, ErrorView>(WholePayload { id: manifest.id, payload: run[3].reply->Bytes_0->Ok_0 })
        },
        run.len() <= 4,
{
    let steps = ReadPayload::steps();
    assert(step::follows(steps, run, 0));
    if run.len() > 1 {
        assert(step::follows(steps, run, 1));
    }
    if run.len() > 2 {
        assert(step::follows(steps, run, 2));
    }
    if run.len() > 3 {
        assert(step::follows(steps, run, 3));
    }
}

impl ApplyConfig {
    /// How the operation goes on.
    pub open spec fn steps() -> spec_fn(ApplyConfig, ConfigReply) -> StepView<
        ApplyConfig,
        (),
    > {
        |operation: ApplyConfig, reply: ConfigReply| operation.next(reply)
    }
}

/// Putting a configuration in place succeeds exactly where it was written and what was
/// then read has its digest.
pub proof fn law_written_configuration_is_read_back(
    config: ConfigSnapshot,
    mode: u32,
    run: Seq<Moment<ApplyConfig, ConfigReply>>,
)
    requires
        step::is_run(ApplyConfig::steps(), ApplyConfig::Writing { config, mode }, run),
    ensures
        step::result_of(ApplyConfig::steps(), run) is Ok <==> {
            &&& run.len() == 2
            &&& run[0].reply is Done
            &&& run[0].reply->Done_0 is Ok
            &&& run[1].operation == (ApplyConfig::Rereading { config })
            &&& run[1].reply is File
            &&& run[1].reply->File_0 is Ok
            &&& run[1].reply->File_0->Ok_0 is Some
            &&& outside::sha256_hex(run[1].reply->File_0->Ok_0->0.bytes@) == config.sha256@
        },
        run.len() <= 2,
{
    let steps = ApplyConfig::steps();
    assert(step::follows(steps, run, 0));
    if run.len() > 1 {
        assert(step::follows(steps, run, 1));
    }
}

/// Putting no configuration in place succeeds exactly where there is none or the one that
/// is there was removed.
pub proof fn law_configuration_that_was_not_there_is_removed(
    run: Seq<Moment<ApplyConfig, ConfigReply>>,
)
    requires
        step::is_run(ApplyConfig::steps(), ApplyConfig::Looking, run),
    ensures
        step::result_of(ApplyConfig::steps(), run) is Ok <==> {
            &&& run[0].reply is File
            &&& run[0].reply->File_0 is Ok
            &&& if run[0].reply->File_0->Ok_0 is None {
                run.len() == 1
            } else {
                &&& run.len() == 2
                &&& run[1].operation is Removing
                &&& run[1].reply is Done
                &&& run[1].reply->Done_0 is Ok
            }
        },
        run.len() <= 2,
{
    let steps = ApplyConfig::steps();
    assert(step::follows(steps, run, 0));
    if run.len() > 1 {
        assert(step::follows(steps, run, 1));
    }
}

impl ValidateSnapshot {
    /// How the operation may go on.
    pub open spec fn leads() -> spec_fn(ValidateSnapshot, StoreReply, Step<ValidateSnapshot, SecurePayload>) -> bool {
        |operation: ValidateSnapshot, reply: StoreReply, step: Step<ValidateSnapshot, SecurePayload>|
            operation.leads_to(reply, step)
    }
}

/// Checking a saved account succeeds exactly where its directory is private, its profile
/// was read and is of this version, of a verified login and with the name of a generation,
/// the state of that generation was read and is of this version and of the account, it
/// holds a login, and its configuration is whole. That state is given.
pub proof fn law_saved_account_is_checked_through(
    account: AccountKey,
    run: Seq<Taken<ValidateSnapshot, StoreReply, SecurePayload>>,
)
    requires
        step::is_taken_run(ValidateSnapshot::leads(), ValidateSnapshot::CheckingDirectory { account }, run),
    ensures
        step::taken_result(run) is Ok <==> {
            let profile = run[1].reply->Profile_0->Ok_0->Ok_0;
            let payload = run[2].reply->Payload_0->Ok_0;
            &&& run.len() == 4
            &&& run[0].reply is Done
            &&& run[0].reply->Done_0 is Ok
            &&& run[1].operation == (ValidateSnapshot::ReadingProfile { account })
            &&& run[1].reply is Profile
            &&& run[1].reply->Profile_0 is Ok
            &&& run[1].reply->Profile_0->Ok_0 is Ok
            &&& profile.version == FORMAT_VERSION
            &&& profile.verified_login
            &&& outside::uuid_form(profile.active_generation@) is Some
            &&& run[2].operation is Reading
            &&& run[2].operation->Reading_account == account
            &&& run[2].operation->Reading_generation@ == outside::uuid_form(profile.active_generation@)->0
            &&& run[2].reply is Payload
            &&& run[2].reply->Payload_0 is Ok
            &&& payload.version == FORMAT_VERSION
            &&& payload.account is Some
            &&& payload.account->0@ == account@
            &&& run[3].operation == (ValidateSnapshot::CheckingLogin { payload })
            &&& run[3].reply == StoreReply::Authenticated(Ok(true))
            &&& payload.config.present ==> payload.config.bytes@.len() > 0 && outside::sha256_hex(
                payload.config.bytes@,
            ) == payload.config.sha256@
            &&& !payload.config.present ==> payload.config.bytes@.len() == 0
        },
        step::taken_result(run) is Ok ==> {
            let profile = run[1].reply->Profile_0->Ok_0->Ok_0;
            let payload = run[2].reply->Payload_0->Ok_0;
            step::taken_result(run) == Ok::<SecurePayload, ErrorView>(payload)
        },
        run.len() <= 4,
{
    let steps = ValidateSnapshot::leads();
    assert(step::goes_on(steps, run, 0));
    if run.len() > 1 {
        assert(step::goes_on(steps, run, 1));
    }
    if run.len() > 2 {
        assert(step::goes_on(steps, run, 2));
    }
    if run.len() > 3 {
        assert(step::goes_on(steps, run, 3));
    }
}

impl SaveSnapshot {
    /// How the operation may go on.
    pub open spec fn leads() -> spec_fn(SaveSnapshot, StoreReply, Step<SaveSnapshot, SnapshotSummary>) -> bool {
        |operation: SaveSnapshot, reply: StoreReply, step: Step<SaveSnapshot, SnapshotSummary>|
            operation.leads_to(reply, step)
    }
}

/// Saving an account reaches the listing of its generations, after which only other
/// generations are removed, exactly where the preferences hold a login, its directories are
/// private and kept out of the backups, a directory was made, the state was written to it and
/// read back as that of the account, it was moved to the place of a new generation, and then
/// the profile that names this generation, as that of a verified login, was generated and
/// written. A failure once the directory was made removes that directory, and the save ends in
/// an error.
#[verifier::rlimit(40)]
pub proof fn law_account_is_saved_by_writing_and_publishing(
    account: AccountKey,
    payload: SecurePayload,
    run: Seq<Taken<SaveSnapshot, StoreReply, SnapshotSummary>>,
)
    requires
        step::is_taken_run(
            SaveSnapshot::leads(),
            SaveSnapshot::CheckingLogin { account, payload },
            run,
        ),
    ensures
        run.len() > 10 && run[10].operation is Listing <==> {
            let job = run[4].operation->Creating_job;
            let profile = run[8].operation->Generating_profile;
            &&& run.len() > 10
            &&& run[0].reply == StoreReply::Authenticated(Ok(true))
            &&& run[1].operation == (SaveSnapshot::EnsuringAccount { account, payload })
            &&& run[1].reply is Done
            &&& run[1].reply->Done_0 is Ok
            &&& run[2].operation == (SaveSnapshot::EnsuringGenerations { account, payload })
            &&& run[2].reply is Done
            &&& run[2].reply->Done_0 is Ok
            &&& run[3].operation == (SaveSnapshot::Excluding { account, payload })
            &&& run[3].reply is Excluded
            &&& run[3].reply->Excluded_0 is Ok
            &&& run[4].operation == (SaveSnapshot::Creating { job, payload })
            &&& job.account == account
            &&& job.created_at == payload.created_at
            &&& outside::uuid_form(job.generation@) == Some(job.generation@)
            &&& run[4].reply is Done
            &&& run[4].reply->Done_0 is Ok
            &&& run[5].operation == (SaveSnapshot::Writing { job, payload })
            &&& run[5].reply is Done
            &&& run[5].reply->Done_0 is Ok
            &&& run[6].operation == (SaveSnapshot::Rereading { job })
            &&& run[6].reply is Payload
            &&& run[6].reply->Payload_0 is Ok
            &&& run[6].reply->Payload_0->Ok_0.account is Some
            &&& run[6].reply->Payload_0->Ok_0.account->0@ == account@
            &&& run[7].operation == (SaveSnapshot::Publishing { job })
            &&& run[7].reply is Done
            &&& run[7].reply->Done_0 is Ok
            &&& run[8].operation is Generating
            &&& profile.version == FORMAT_VERSION
            &&& profile.verified_login
            &&& profile.active_generation == job.generation
            &&& profile.last_saved_at == payload.created_at
            &&& run[8].reply is Generated
            &&& run[8].reply->Generated_0 is Ok
            &&& run[9].operation == (SaveSnapshot::WritingProfile {
                job,
                bytes: run[8].reply->Generated_0->Ok_0,
            })
            &&& run[9].reply is Done
            &&& run[9].reply->Done_0 is Ok
        },
        !(run.len() > 10 && run[10].operation is Listing) ==> step::taken_result(run) is Err
            && run.len() <= 11,
        step::taken_result(run) is Ok ==> step::taken_result(run)->Ok_0.last_saved_at
            == payload.created_at,
        forall|i: int|
            5 <= i < 10 && i < run.len() && (match (#[trigger] run[i]).operation {
                SaveSnapshot::Writing { .. }
                | SaveSnapshot::Publishing { .. }
                | SaveSnapshot::WritingProfile { .. } => run[i].reply matches StoreReply::Done(
                    Err(_),
                ),
                SaveSnapshot::Rereading { .. } => run[i].reply matches StoreReply::Payload(Err(_)),
                SaveSnapshot::Generating { .. } => run[i].reply matches StoreReply::Generated(
                    Err(_),
                ),
                _ => false,
            }) ==> {
                &&& i + 2 == run.len()
                &&& run[i + 1].operation is CleaningUp
                &&& run[i + 1].operation->CleaningUp_job == run[4].operation->Creating_job
                &&& step::taken_result(run) is Err
            },
{
    let leads = SaveSnapshot::leads();
    assert(step::goes_on(leads, run, 0));
    if run.len() > 1 {
        assert(step::goes_on(leads, run, 1));
    }
    if run.len() > 2 {
        assert(step::goes_on(leads, run, 2));
    }
    if run.len() > 3 {
        assert(step::goes_on(leads, run, 3));
    }
    if run.len() > 4 {
        assert(step::goes_on(leads, run, 4));
    }
    if run.len() > 5 {
        assert(step::goes_on(leads, run, 5));
    }
    if run.len() > 6 {
        assert(step::goes_on(leads, run, 6));
    }
    if run.len() > 7 {
        assert(step::goes_on(leads, run, 7));
    }
    if run.len() > 8 {
        assert(step::goes_on(leads, run, 8));
    }
    if run.len() > 9 {
        assert(step::goes_on(leads, run, 9));
    }
    if run.len() > 10 {
        assert(step::goes_on(leads, run, 10));
    }
    if run.len() > 10 && run[10].operation is Listing {
        lemma_save_removes(run, run.len() - 1);
        assert(step::goes_on(leads, run, run.len() - 1));
    }
}

proof fn lemma_save_removes(run: Seq<Taken<SaveSnapshot, StoreReply, SnapshotSummary>>, i: int)
    requires
        10 <= i < run.len(),
        forall|j: int|
            0 <= j < run.len() ==> #[trigger] step::goes_on(SaveSnapshot::leads(), run, j),
        run[10].operation is Listing,
    ensures
        match run[i].operation {
            SaveSnapshot::Listing { job } => job == run[10].operation->Listing_job && i == 10,
            SaveSnapshot::Removing { job, .. } => job == run[10].operation->Listing_job,
            SaveSnapshot::CleaningUp { .. } => true,
            _ => false,
        },
    decreases i,
{
    if i > 10 {
        lemma_save_removes(run, i - 1);
        assert(step::goes_on(SaveSnapshot::leads(), run, i - 1));
    }
}

/// After the profile was written a generation is removed only where its name is among those
/// that were listed and is not that of the generation that was just saved.
pub proof fn law_saved_generation_is_never_removed(
    operation: SaveSnapshot,
    reply: StoreReply,
    step: Step<SaveSnapshot, SnapshotSummary>,
)
    requires
        operation.valid(),
        operation.leads_to(reply, step),
    ensures
        step matches Step::Perform {
            operation: SaveSnapshot::Removing { job, names, index, .. },
            ..
        } ==> index < names.len() && names@[index as int]@ != job.generation@,
{
    match (operation, reply) {
        (SaveSnapshot::Listing { job }, StoreReply::Names(Ok(listed))) => {
            lemma_other_generation(listed.0@, 0, job.generation@);
        },
        (SaveSnapshot::Removing { job, names, index, failure }, StoreReply::Done(_)) => {
            lemma_other_generation(names@, index + 1, job.generation@);
        },
        _ => {},
    }
}

proof fn lemma_other_generation(names: Seq<String>, index: int, generation: Seq<char>)
    requires
        0 <= index <= names.len(),
    ensures
        index <= next_other(names, index, generation) <= names.len(),
        next_other(names, index, generation) < names.len() ==> names[next_other(
            names,
            index,
            generation,
        )]@ != generation,
        forall|j: int|
            index <= j < next_other(names, index, generation) ==> (#[trigger] names[j])@
                == generation,
    decreases names.len() - index,
{
    if index < names.len() && names[index]@ == generation {
        lemma_other_generation(names, index + 1, generation);
    }
}

} // verus!
