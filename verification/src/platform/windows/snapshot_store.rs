//! Saving, checking and removing the saved accounts on Windows.

use vstd::prelude::*;

use crate::contracts::AccountKey;
use crate::contracts::AccountKeyView;
use crate::error::AppError;
use crate::error::ErrorView;
use crate::outside;
use crate::platform::windows::paths;
use crate::platform::windows::paths::FileFacts;
use crate::platform::windows::snapshot;
use crate::platform::windows::snapshot::AccountProfile;
use crate::platform::windows::snapshot::DocumentError;
use crate::platform::windows::snapshot::FileSetManifest;
use crate::platform::windows::snapshot::SnapshotManifest;
use crate::platform::windows::snapshot::SnapshotSummary;
use crate::platform::windows::snapshot::ValidatedSnapshot;
use crate::platform::windows::snapshot::ValidatedSnapshotView;
use crate::step::Moment;
use crate::step::Taken;
use crate::step;
use crate::step::Step;
use crate::step::StepView;
use crate::text;

verus! {

/// A part of a path and its attributes, or why they could not be read.
#[derive(Debug)]
pub struct PathPart {
    pub path: String,
    pub attributes: Result<u32, String>,
}

/// Why a part of a path cannot be used.
pub open spec fn part_error(part: PathPart) -> Option<ErrorView> {
    match part.attributes {
        Err(error) => Some(
            ErrorView::Snapshot("无法读取路径属性 "@ + part.path@ + "："@ + error@),
        ),
        Ok(attributes) => if paths::redirects(attributes) {
            Some(ErrorView::Snapshot("拒绝处理包含重解析点的路径："@ + part.path@))
        } else {
            None
        },
    }
}

/// The error of the first part of the path that cannot be used.
pub open spec fn path_error(parts: Seq<PathPart>) -> Option<ErrorView>
    decreases parts.len(),
{
    if parts.len() == 0 {
        None
    } else {
        match part_error(parts[0]) {
            Some(error) => Some(error),
            None => path_error(parts.subrange(1, parts.len() as int)),
        }
    }
}

/// Checks that no part of a path is a redirection; the parts come from the path
/// itself upwards.
pub fn reject_reparse_point(parts: &Vec<PathPart>) -> (result: Result<(), AppError>)
    ensures
        match result {
            Ok(_) => path_error(parts@) is None,
            Err(error) => path_error(parts@) == Some(error@),
        },
{
    let mut i: usize = 0;
    assert(parts@.subrange(0, parts@.len() as int) =~= parts@);
    while i < parts.len()
        invariant
            i <= parts.len(),
            path_error(parts@) == path_error(parts@.subrange(i as int, parts@.len() as int)),
        decreases parts.len() - i,
    {
        let ghost rest = parts@.subrange(i as int, parts@.len() as int);
        assert(rest[0] == parts@[i as int]);
        assert(rest.subrange(1, rest.len() as int) =~= parts@.subrange(
            i + 1,
            parts@.len() as int,
        ));
        let part = &parts[i];
        match &part.attributes {
            Err(error) => {
                return Err(
                    AppError::Snapshot(
                        text::joined4(
                            "无法读取路径属性 ",
                            part.path.as_str(),
                            "：",
                            error.as_str(),
                        ),
                    ),
                );
            },
            Ok(attributes) => {
                if paths::is_reparse_point(*attributes) {
                    return Err(
                        AppError::Snapshot(
                            text::joined2("拒绝处理包含重解析点的路径：", part.path.as_str()),
                        ),
                    );
                }
            },
        }
        i = i + 1;
    }
    Ok(())
}

/// Whether an entry of a saved account that is to be removed has to be looked
/// into; a redirection stops the removal.
pub open spec fn tree_check(metadata: Result<FileFacts, String>) -> Result<bool, ErrorView> {
    match metadata {
        Err(error) => Err(ErrorView::Snapshot("无法读取账号快照项属性："@ + error@)),
        Ok(metadata) => if paths::redirects(metadata.attributes) {
            Err(ErrorView::Snapshot("账号快照包含不受支持的链接或重解析点"@))
        } else {
            Ok(metadata.is_directory)
        },
    }
}

/// Whether an entry of a saved account that is to be removed has to be looked
/// into.
pub fn check_tree_entry(metadata: &Result<FileFacts, String>) -> (descend: Result<bool, AppError>)
    ensures
        match tree_check(*metadata) {
            Err(error) => descend is Err && descend->Err_0@ == error,
            Ok(expected) => descend == Ok::<bool, AppError>(expected),
        },
{
    match metadata {
        Err(error) => Err(
            AppError::Snapshot(text::joined2("无法读取账号快照项属性：", error.as_str())),
        ),
        Ok(metadata) => if paths::is_reparse_point(metadata.attributes) {
            Err(AppError::Snapshot("账号快照包含不受支持的链接或重解析点".to_owned()))
        } else {
            Ok(metadata.is_directory)
        },
    }
}

/// Checks a file that is to be copied: it has to be a plain file.
pub fn check_copy_source(path: &str, metadata: &Result<FileFacts, String>) -> (result: Result<
    (),
    AppError,
>)
    ensures
        match *metadata {
            Err(error) => result is Err && result->Err_0@ == ErrorView::Snapshot(
                "无法读取源文件属性："@ + error@,
            ),
            Ok(metadata) => if !metadata.is_file || paths::redirects(metadata.attributes) {
                result is Err && result->Err_0@ == ErrorView::Snapshot(
                    "拒绝复制非常规文件："@ + path@,
                )
            } else {
                result is Ok
            },
        },
{
    match metadata {
        Err(error) => Err(
            AppError::Snapshot(text::joined2("无法读取源文件属性：", error.as_str())),
        ),
        Ok(metadata) => if !metadata.is_file || paths::is_reparse_point(metadata.attributes) {
            Err(AppError::Snapshot(text::joined2("拒绝复制非常规文件：", path)))
        } else {
            Ok(())
        },
    }
}

/// The manifest of a set of files, where it could be read and has the right
/// version.
pub fn read_file_set_manifest(read: Result<FileSetManifest, DocumentError>) -> (manifest: Result<
    FileSetManifest,
    AppError,
>)
    ensures
        match read {
            Err(error) => manifest is Err && manifest->Err_0@ == snapshot::document_failure(
                "事务文件清单"@,
                error,
            ),
            Ok(read) => if read.version != snapshot::SNAPSHOT_VERSION {
                manifest is Err && manifest->Err_0@ == ErrorView::Snapshot(
                    "不支持的文件清单版本："@ + text::decimal(read.version as nat),
                )
            } else {
                manifest == Ok::<FileSetManifest, AppError>(read)
            },
        },
{
    match read {
        Err(error) => Err(snapshot::document_error("事务文件清单", error)),
        Ok(read) => {
            if read.version != snapshot::SNAPSHOT_VERSION {
                let version = text::decimal_text(read.version as u64);
                return Err(
                    AppError::Snapshot(text::joined2("不支持的文件清单版本：", version.as_str())),
                );
            }
            Ok(read)
        },
    }
}

/// A generation as it was found: its name where that is a text, and the
/// nanoseconds of its last change where they could be read.
#[derive(Debug)]
pub struct GenerationEntry {
    pub name: Option<String>,
    pub is_directory: bool,
    pub modified: Option<u128>,
    pub path: String,
}

/// Whether the entry is an old generation: a directory that is neither the
/// active one nor one in the making.
pub open spec fn is_old_generation(entry: GenerationEntry, active: Seq<char>) -> bool {
    &&& entry.name is Some
    &&& entry.name->0@ != active
    &&& !text::begins_with(entry.name->0@, ".staging-"@)
    &&& entry.is_directory
    &&& entry.modified is Some
}

/// Whether the generation at `j` is kept rather than the one at `i`: it is newer,
/// or as new and found before.
pub open spec fn outlives(entries: Seq<GenerationEntry>, active: Seq<char>, j: int, i: int) -> bool {
    &&& 0 <= j < entries.len()
    &&& is_old_generation(entries[j], active)
    &&& entries[j].modified->0 > entries[i].modified->0 || (entries[j].modified->0
        == entries[i].modified->0 && j < i)
}

/// Whether the generation at `i` is to be removed: of the old ones the newest
/// stays.
pub open spec fn is_superseded(entries: Seq<GenerationEntry>, active: Seq<char>, i: int) -> bool {
    is_old_generation(entries[i], active) && exists|j: int| outlives(entries, active, j, i)
}

/// The paths of the generations among the first `count` that are to be removed.
pub open spec fn superseded_paths(
    entries: Seq<GenerationEntry>,
    active: Seq<char>,
    count: nat,
) -> Seq<Seq<char>>
    decreases count,
{
    if count == 0 {
        Seq::empty()
    } else {
        let rest = superseded_paths(entries, active, (count - 1) as nat);
        if is_superseded(entries, active, count - 1) {
            rest.push(entries[count - 1].path@)
        } else {
            rest
        }
    }
}

fn is_old(entry: &GenerationEntry, active: &str) -> (old_generation: bool)
    ensures
        old_generation == is_old_generation(*entry, active@),
{
    match &entry.name {
        None => false,
        Some(name) => !text::same_text(name.as_str(), active) && !text::starts_with(
            name.as_str(),
            ".staging-",
        ) && entry.is_directory && entry.modified.is_some(),
    }
}

/// The paths of the generations that are to be removed: of the old ones the
/// newest stays.
pub fn cleanup_old_generations(entries: &Vec<GenerationEntry>, active: &str) -> (removed: Vec<
    String,
>)
    ensures
        paths::texts(removed@) == superseded_paths(entries@, active@, entries.len() as nat),
{
    let mut removed: Vec<String> = Vec::new();
    let mut i: usize = 0;
    assert(paths::texts(removed@) =~= Seq::<Seq<char>>::empty());
    while i < entries.len()
        invariant
            i <= entries.len(),
            paths::texts(removed@) == superseded_paths(entries@, active@, i as nat),
        decreases entries.len() - i,
    {
        if is_old(&entries[i], active) {
            let mut superseded = false;
            let mut j: usize = 0;
            while j < entries.len()
                invariant
                    i < entries.len(),
                    j <= entries.len(),
                    is_old_generation(entries@[i as int], active@),
                    superseded == exists|k: int| k < j && outlives(entries@, active@, k, i as int),
                decreases entries.len() - j,
            {
                if is_old(&entries[j], active) {
                    if let (Some(other), Some(own)) = (entries[j].modified, entries[i].modified) {
                        if other > own || (other == own && j < i) {
                            assert(outlives(entries@, active@, j as int, i as int));
                            superseded = true;
                        }
                    }
                }
                j = j + 1;
            }
            if superseded {
                let ghost before = removed@;
                removed.push(entries[i].path.clone());
                assert(paths::texts(removed@) =~= paths::texts(before).push(
                    entries@[i as int].path@,
                ));
                assert(is_superseded(entries@, active@, i as int));
            } else {
                assert(!is_superseded(entries@, active@, i as int));
            }
        }
        i = i + 1;
    }
    removed
}

/// After a cleanup at most one old generation is left.
pub proof fn law_one_old_generation_stays(
    entries: Seq<GenerationEntry>,
    active: Seq<char>,
    i: int,
    j: int,
)
    requires
        0 <= i < entries.len(),
        0 <= j < entries.len(),
        is_old_generation(entries[i], active) && !is_superseded(entries, active, i),
        is_old_generation(entries[j], active) && !is_superseded(entries, active, j),
    ensures
        i == j,
{
    if i != j {
        assert(outlives(entries, active, j, i) || outlives(entries, active, i, j));
    }
}

/// When the account was saved, by what its profile says: `None` where it has none.
pub open spec fn summary_of(
    account: AccountKeyView,
    profile: Option<Result<AccountProfile, DocumentError>>,
) -> Result<Option<SnapshotSummary>, ErrorView> {
    match profile {
        None => Ok(None),
        Some(Err(error)) => Err(snapshot::document_failure("账号快照索引"@, error)),
        Some(Ok(profile)) => match snapshot::profile_error(account, profile) {
            Some(error) => Err(error),
            None => Ok(Some(SnapshotSummary { last_saved_at: profile.last_saved_at })),
        },
    }
}

/// Where the saved accounts are.
#[derive(Debug)]
pub struct SnapshotStore {
    accounts_directory: String,
}

impl SnapshotStore {
    /// The directory of the saved accounts.
    pub closed spec fn root(self) -> Seq<char> {
        self.accounts_directory@
    }

    /// The directory of one account.
    pub open spec fn directory_of(self, account: AccountKey) -> Seq<char> {
        paths::adjoined(
            self.root(),
            outside::sha256_hex(snapshot::directory_preimage(account@)),
        )
    }

    /// The store in the given data directory.
    pub fn new(data_directory: &str) -> (store: SnapshotStore)
        ensures
            store.root() == paths::adjoined(data_directory@, "accounts"@),
    {
        SnapshotStore { accounts_directory: paths::join(data_directory, "accounts") }
    }

    /// The directory of the saved accounts.
    pub fn accounts_directory(&self) -> (directory: &str)
        ensures
            directory@ == self.root(),
    {
        self.accounts_directory.as_str()
    }

    /// The directory of one account.
    pub fn account_directory(&self, account: &AccountKey) -> (directory: String)
        ensures
            directory@ == self.directory_of(*account),
    {
        paths::join(
            self.accounts_directory.as_str(),
            snapshot::account_directory_name(account).as_str(),
        )
    }

    /// When the account was saved: `None` where it never was. `profile` is what
    /// its profile says, where there is one.
    pub fn summary(
        &self,
        account: &AccountKey,
        profile: Option<Result<AccountProfile, DocumentError>>,
    ) -> (summary: Result<Option<SnapshotSummary>, AppError>)
        ensures
            match summary {
                Ok(summary) => summary_of(account@, profile) == Ok::<
                    Option<SnapshotSummary>,
                    ErrorView,
                >(summary),
                Err(error) => summary_of(account@, profile) == Err::<
                    Option<SnapshotSummary>,
                    ErrorView,
                >(error@),
            },
    {
        match profile {
            None => Ok(None),
            Some(Err(error)) => Err(snapshot::document_error("账号快照索引", error)),
            Some(Ok(profile)) => match snapshot::validate_profile(account, &profile) {
                Ok(_) => Ok(Some(SnapshotSummary { last_saved_at: profile.last_saved_at })),
                Err(error) => Err(error),
            },
        }
    }

    /// Begins to check the saved account.
    pub fn validate(&self, account: &AccountKey) -> (step: Step<
        ValidateSnapshot,
        ValidatedSnapshot,
    >)
        ensures
            if snapshot::has_key(account@) {
                &&& step matches Step::Perform {
                    operation: ValidateSnapshot::CheckingDirectory { job },
                    report,
                }
                &&& report is None
                &&& job.account == *account
                &&& job.account_directory@ == self.directory_of(*account)
            } else {
                step@ == step::failing::<ValidateSnapshot, ValidatedSnapshotView>(
                    ErrorView::Snapshot("账号标识为空"@),
                )
            },
    {
        match snapshot::validate_account_key(account) {
            Ok(_) => step::go(
                ValidateSnapshot::CheckingDirectory {
                    job: ValidateJob {
                        account: account.clone(),
                        account_directory: self.account_directory(account),
                    },
                },
            ),
            Err(error) => step::fail(error),
        }
    }

    /// Begins to save the files in `source_directory` for the account.
    pub fn save(&self, account: &AccountKey, source_directory: &str) -> (step: Step<
        SaveSnapshot,
        SnapshotSummary,
    >)
        ensures
            if snapshot::has_key(account@) {
                &&& step matches Step::Perform {
                    operation: SaveSnapshot::CheckingSource { job },
                    report,
                }
                &&& report is None
                &&& job.account == *account
                &&& job.source_directory@ == source_directory@
                &&& job.account_directory@ == self.directory_of(*account)
                &&& outside::uuid_form(job.generation@) == Some(job.generation@)
            } else {
                step@ == step::failing::<SaveSnapshot, SnapshotSummary>(
                    ErrorView::Snapshot("账号标识为空"@),
                )
            },
    {
        match snapshot::validate_account_key(account) {
            Ok(_) => step::go(
                SaveSnapshot::CheckingSource {
                    job: SaveJob {
                        account: account.clone(),
                        source_directory: source_directory.to_owned(),
                        account_directory: self.account_directory(account),
                        generation: outside::new_id(),
                    },
                },
            ),
            Err(error) => step::fail(error),
        }
    }

    /// Begins to remove the saved account.
    pub fn remove(&self, account: &AccountKey) -> (step: Step<RemoveSnapshot, ()>)
        ensures
            if snapshot::has_key(account@) {
                &&& step matches Step::Perform {
                    operation: RemoveSnapshot::CheckingRoot { job },
                    report,
                }
                &&& report is None
                &&& job.account_directory@ == self.directory_of(*account)
                &&& exists|id: Seq<char>|
                    #![trigger outside::uuid_form(id)]
                    outside::uuid_form(id) == Some(id) && job.quarantine@ == paths::adjoined(
                        self.root(),
                        ".deleting-"@ + id,
                    )
            } else {
                step@ == step::failing::<RemoveSnapshot, ()>(ErrorView::Snapshot("账号标识为空"@))
            },
    {
        match snapshot::validate_account_key(account) {
            Ok(_) => {
                let id = outside::new_id();
                let quarantine = paths::join(
                    self.accounts_directory.as_str(),
                    text::joined2(".deleting-", id.as_str()).as_str(),
                );
                assert(outside::uuid_form(id@) == Some(id@));
                step::go(
                    RemoveSnapshot::CheckingRoot {
                        job: RemoveJob {
                            account_directory: self.account_directory(account),
                            quarantine,
                        },
                    },
                )
            },
            Err(error) => step::fail(error),
        }
    }
}

/// Which account is checked, and where it is.
#[derive(Debug)]
pub struct ValidateJob {
    pub account: AccountKey,
    pub account_directory: String,
}

impl ValidateJob {
    /// The directory of a generation of the account.
    pub open spec fn generation_path(self, generation: Seq<char>) -> Seq<char> {
        paths::adjoined(
            paths::adjoined(self.account_directory@, "generations"@),
            generation,
        )
    }

    /// The directory of a generation of the account.
    pub fn generation_directory(&self, generation: &str) -> (directory: String)
        ensures
            directory@ == self.generation_path(generation@),
    {
        let generations = paths::join(self.account_directory.as_str(), "generations");
        paths::join(generations.as_str(), generation)
    }
}

/// Checking a saved account: its directory, its profile, the directory of the
/// active generation, its manifest and its files, one after another.
#[derive(Debug)]
pub enum ValidateSnapshot {
    /// The path of the account's directory is to be checked.
    CheckingDirectory { job: ValidateJob },
    /// The profile is to be read.
    ReadingProfile { job: ValidateJob },
    /// The path of the generation's directory is to be checked.
    CheckingGeneration { job: ValidateJob, profile: AccountProfile },
    /// The manifest of the generation is to be read.
    ReadingManifest { job: ValidateJob, profile: AccountProfile },
    /// The files of the generation are to be checked against the manifest.
    CheckingFiles { job: ValidateJob, manifest: SnapshotManifest },
}

/// What came of the work for [`ValidateSnapshot`].
#[derive(Debug)]
pub enum ValidateReply {
    Checked(Result<(), AppError>),
    Profile(Result<AccountProfile, DocumentError>),
    Manifest(Result<SnapshotManifest, DocumentError>),
}

impl ValidateSnapshot {
    /// What the answer leads to.
    pub open spec fn next(self, reply: ValidateReply) -> StepView<
        ValidateSnapshot,
        ValidatedSnapshotView,
    > {
        match (self, reply) {
            (ValidateSnapshot::CheckingDirectory { job }, ValidateReply::Checked(checked)) =>
                match checked {
                    Err(error) => step::failing(error@),
                    Ok(_) => step::going(ValidateSnapshot::ReadingProfile { job }),
                },
            (ValidateSnapshot::ReadingProfile { job }, ValidateReply::Profile(read)) => match read {
                Err(error) => step::failing(
                    snapshot::document_failure("账号快照索引"@, error),
                ),
                Ok(profile) => match snapshot::profile_error(job.account@, profile) {
                    Some(error) => step::failing(error),
                    None => step::going(ValidateSnapshot::CheckingGeneration { job, profile }),
                },
            },
            (
                ValidateSnapshot::CheckingGeneration { job, profile },
                ValidateReply::Checked(checked),
            ) => match checked {
                Err(error) => step::failing(error@),
                Ok(_) => step::going(ValidateSnapshot::ReadingManifest { job, profile }),
            },
            (
                ValidateSnapshot::ReadingManifest { job, profile },
                ValidateReply::Manifest(read),
            ) => match read {
                Err(error) => step::failing(
                    snapshot::document_failure("账号快照清单"@, error),
                ),
                Ok(manifest) => if manifest.version != snapshot::SNAPSHOT_VERSION
                    || manifest.account@ != job.account@ || manifest.generation@
                    != profile.active_generation@ {
                    step::failing(ErrorView::Snapshot("账号快照索引与清单不一致"@))
                } else if !snapshot::has_config(manifest.files@) {
                    step::failing(
                        ErrorView::Snapshot("未找到 Battle.net.config，拒绝保存不完整快照"@),
                    )
                } else {
                    step::going(ValidateSnapshot::CheckingFiles { job, manifest })
                },
            },
            (ValidateSnapshot::CheckingFiles { job, manifest }, ValidateReply::Checked(checked)) =>
                match checked {
                    Err(error) => step::failing(error@),
                    Ok(_) => step::ending(
                        ValidatedSnapshotView {
                            account: manifest.account,
                            files: manifest.files@,
                            files_directory: paths::adjoined(
                                job.generation_path(manifest.generation@),
                                "files"@,
                            ),
                        },
                    ),
                },
            _ => step::confused(),
        }
    }

    /// Takes the answer.
    pub fn resume(self, reply: ValidateReply) -> (step: Step<ValidateSnapshot, ValidatedSnapshot>)
        ensures
            step@ == self.next(reply),
    {
        match (self, reply) {
            (ValidateSnapshot::CheckingDirectory { job }, ValidateReply::Checked(checked)) =>
                match checked {
                    Err(error) => step::fail(error),
                    Ok(_) => step::go(ValidateSnapshot::ReadingProfile { job }),
                },
            (ValidateSnapshot::ReadingProfile { job }, ValidateReply::Profile(read)) => match read {
                Err(error) => step::fail(snapshot::document_error("账号快照索引", error)),
                Ok(profile) => match snapshot::validate_profile(&job.account, &profile) {
                    Err(error) => step::fail(error),
                    Ok(_) => step::go(ValidateSnapshot::CheckingGeneration { job, profile }),
                },
            },
            (
                ValidateSnapshot::CheckingGeneration { job, profile },
                ValidateReply::Checked(checked),
            ) => match checked {
                Err(error) => step::fail(error),
                Ok(_) => step::go(ValidateSnapshot::ReadingManifest { job, profile }),
            },
            (
                ValidateSnapshot::ReadingManifest { job, profile },
                ValidateReply::Manifest(read),
            ) => match read {
                Err(error) => step::fail(snapshot::document_error("账号快照清单", error)),
                Ok(manifest) => {
                    if manifest.version != snapshot::SNAPSHOT_VERSION || manifest.account
                        != job.account || !text::same_text(
                        manifest.generation.as_str(),
                        profile.active_generation.as_str(),
                    ) {
                        return step::fail(
                            AppError::Snapshot("账号快照索引与清单不一致".to_owned()),
                        );
                    }
                    match snapshot::require_battle_net_config(&manifest.files) {
                        Err(error) => step::fail(error),
                        Ok(_) => step::go(ValidateSnapshot::CheckingFiles { job, manifest }),
                    }
                },
            },
            (ValidateSnapshot::CheckingFiles { job, manifest }, ValidateReply::Checked(checked)) =>
                match checked {
                    Err(error) => step::fail(error),
                    Ok(_) => {
                        let directory = job.generation_directory(manifest.generation.as_str());
                        step::end(
                            ValidatedSnapshot {
                                account: manifest.account,
                                files: manifest.files,
                                files_directory: paths::join(directory.as_str(), "files"),
                            },
                        )
                    },
                },
            _ => step::give_up(),
        }
    }
}

/// What is saved, from where, and as which generation.
#[derive(Debug)]
pub struct SaveJob {
    pub account: AccountKey,
    pub source_directory: String,
    pub account_directory: String,
    pub generation: String,
}

impl SaveJob {
    /// The directory in which the generation is made.
    pub fn staging_directory(&self) -> (directory: String)
        ensures
            directory@ == paths::adjoined(
                paths::adjoined(self.account_directory@, "generations"@),
                ".staging-"@ + self.generation@,
            ),
    {
        let generations = paths::join(self.account_directory.as_str(), "generations");
        paths::join(
            generations.as_str(),
            text::joined2(".staging-", self.generation.as_str()).as_str(),
        )
    }

    /// The directory of the finished generation.
    pub fn final_directory(&self) -> (directory: String)
        ensures
            directory@ == paths::adjoined(
                paths::adjoined(self.account_directory@, "generations"@),
                self.generation@,
            ),
    {
        let generations = paths::join(self.account_directory.as_str(), "generations");
        paths::join(generations.as_str(), self.generation.as_str())
    }
}

/// Saving an account. The files are captured into a directory of their own with
/// their manifest and checked there; then the directory is published, and only
/// then does the profile name it.
#[derive(Debug)]
pub enum SaveSnapshot {
    /// The path of the source directory is to be checked.
    CheckingSource { job: SaveJob },
    /// The account's directories are to be created.
    CreatingDirectories { job: SaveJob },
    /// The path of the account's directory is to be checked.
    CheckingAccountDirectory { job: SaveJob },
    /// The path of the directory of its generations is to be checked.
    CheckingGenerations { job: SaveJob },
    /// The directory in which the generation is made is to be created.
    CreatingStaging { job: SaveJob },
    /// The files are to be copied into it.
    Capturing { job: SaveJob },
    /// The manifest is to be written into it.
    WritingManifest { job: SaveJob, manifest: SnapshotManifest },
    /// The copied files are to be checked against the manifest.
    CheckingFiles { job: SaveJob, manifest: SnapshotManifest },
    /// The directory is to be renamed to that of the generation.
    Publishing { job: SaveJob, created_at: u64 },
    /// The profile is to be written.
    WritingProfile { job: SaveJob, profile: AccountProfile },
    /// Old generations are to be removed.
    CleaningUp { job: SaveJob, created_at: u64 },
    /// The directory in which the generation was made is to be removed, for this
    /// reason.
    Discarding { job: SaveJob, error: AppError },
}

/// What came of the work for [`SaveSnapshot`].
#[derive(Debug)]
pub enum SaveReply {
    Checked(Result<(), AppError>),
    /// A call of the file system.
    Io(Result<(), String>),
    Captured(Result<FileSetManifest, AppError>),
    /// Work whose failure is of no consequence.
    Finished,
}

/// The manifest of the generation that a job makes of captured files.
pub open spec fn manifest_of(job: SaveJob, files: FileSetManifest) -> SnapshotManifest {
    SnapshotManifest {
        version: snapshot::SNAPSHOT_VERSION,
        account: job.account,
        generation: job.generation,
        created_at: files.created_at,
        files: files.files,
    }
}

/// The profile that names the generation of a job.
pub open spec fn profile_of(job: SaveJob, created_at: u64) -> AccountProfile {
    AccountProfile {
        version: snapshot::PROFILE_VERSION,
        verified_login: true,
        account: job.account,
        active_generation: job.generation,
        last_saved_at: created_at,
    }
}

/// Whether the step removes the unfinished generation and then fails with
/// `error`.
pub open spec fn discards_with(
    step: Step<SaveSnapshot, SnapshotSummary>,
    job: SaveJob,
    error: ErrorView,
) -> bool {
    &&& step matches Step::Perform {
        operation: SaveSnapshot::Discarding { job: kept, error: reason },
        report,
    }
    &&& report is None
    &&& kept == job
    &&& reason@ == error
}

/// Whether the step goes on with `operation`.
pub open spec fn goes_on(
    step: Step<SaveSnapshot, SnapshotSummary>,
    operation: SaveSnapshot,
) -> bool {
    step@ == step::going::<SaveSnapshot, SnapshotSummary>(operation)
}

/// Whether the step fails with `error`.
pub open spec fn fails(step: Step<SaveSnapshot, SnapshotSummary>, error: ErrorView) -> bool {
    step@ == step::failing::<SaveSnapshot, SnapshotSummary>(error)
}

impl SaveSnapshot {
    /// Whether the step is the one that the answer leads to.
    pub open spec fn leads_to(
        self,
        reply: SaveReply,
        step: Step<SaveSnapshot, SnapshotSummary>,
    ) -> bool {
        match (self, reply) {
            (SaveSnapshot::CheckingSource { job }, SaveReply::Checked(checked)) => match checked {
                Err(error) => fails(step, error@),
                Ok(_) => goes_on(step, SaveSnapshot::CreatingDirectories { job }),
            },
            (SaveSnapshot::CreatingDirectories { job }, SaveReply::Io(done)) => match done {
                Err(error) => fails(
                    step,
                    ErrorView::Snapshot("无法创建账号快照目录："@ + error@),
                ),
                Ok(_) => goes_on(step, SaveSnapshot::CheckingAccountDirectory { job }),
            },
            (SaveSnapshot::CheckingAccountDirectory { job }, SaveReply::Checked(checked)) =>
                match checked {
                    Err(error) => fails(step, error@),
                    Ok(_) => goes_on(step, SaveSnapshot::CheckingGenerations { job }),
                },
            (SaveSnapshot::CheckingGenerations { job }, SaveReply::Checked(checked)) =>
                match checked {
                    Err(error) => fails(step, error@),
                    Ok(_) => goes_on(step, SaveSnapshot::CreatingStaging { job }),
                },
            (SaveSnapshot::CreatingStaging { job }, SaveReply::Io(done)) => match done {
                Err(error) => fails(step, ErrorView::Snapshot("无法创建临时代际："@ + error@)),
                Ok(_) => goes_on(step, SaveSnapshot::Capturing { job }),
            },
            (SaveSnapshot::Capturing { job }, SaveReply::Captured(captured)) => match captured {
                Err(error) => discards_with(step, job, error@),
                Ok(files) => if snapshot::has_config(files.files@) {
                    goes_on(
                        step,
                        SaveSnapshot::WritingManifest { job, manifest: manifest_of(job, files) },
                    )
                } else {
                    discards_with(
                        step,
                        job,
                        ErrorView::Snapshot("未找到 Battle.net.config，拒绝保存不完整快照"@),
                    )
                },
            },
            (SaveSnapshot::WritingManifest { job, manifest }, SaveReply::Checked(written)) =>
                match written {
                    Err(error) => discards_with(step, job, error@),
                    Ok(_) => goes_on(step, SaveSnapshot::CheckingFiles { job, manifest }),
                },
            (SaveSnapshot::CheckingFiles { job, manifest }, SaveReply::Checked(checked)) =>
                match checked {
                    Err(error) => discards_with(step, job, error@),
                    Ok(_) => goes_on(
                        step,
                        SaveSnapshot::Publishing { job, created_at: manifest.created_at },
                    ),
                },
            (SaveSnapshot::Publishing { job, created_at }, SaveReply::Io(done)) => match done {
                Err(error) => discards_with(
                    step,
                    job,
                    ErrorView::Snapshot("无法发布快照代际："@ + error@),
                ),
                Ok(_) => goes_on(
                    step,
                    SaveSnapshot::WritingProfile { job, profile: profile_of(job, created_at) },
                ),
            },
            (SaveSnapshot::WritingProfile { job, profile }, SaveReply::Checked(written)) =>
                match written {
                    Err(error) => discards_with(step, job, error@),
                    Ok(_) => goes_on(
                        step,
                        SaveSnapshot::CleaningUp { job, created_at: profile.last_saved_at },
                    ),
                },
            (SaveSnapshot::CleaningUp { job, created_at }, SaveReply::Finished) => step@
                == step::ending::<SaveSnapshot, SnapshotSummary>(
                SnapshotSummary { last_saved_at: created_at },
            ),
            (SaveSnapshot::Discarding { job, error }, SaveReply::Finished) => fails(step, error@),
            _ => step@ == step::confused::<SaveSnapshot, SnapshotSummary>(),
        }
    }

    /// Takes the answer.
    pub fn resume(self, reply: SaveReply) -> (step: Step<SaveSnapshot, SnapshotSummary>)
        ensures
            self.leads_to(reply, step),
    {
        match (self, reply) {
            (SaveSnapshot::CheckingSource { job }, SaveReply::Checked(checked)) => match checked {
                Err(error) => step::fail(error),
                Ok(_) => step::go(SaveSnapshot::CreatingDirectories { job }),
            },
            (SaveSnapshot::CreatingDirectories { job }, SaveReply::Io(done)) => match done {
                Err(error) => step::fail(
                    AppError::Snapshot(text::joined2("无法创建账号快照目录：", error.as_str())),
                ),
                Ok(_) => step::go(SaveSnapshot::CheckingAccountDirectory { job }),
            },
            (SaveSnapshot::CheckingAccountDirectory { job }, SaveReply::Checked(checked)) =>
                match checked {
                    Err(error) => step::fail(error),
                    Ok(_) => step::go(SaveSnapshot::CheckingGenerations { job }),
                },
            (SaveSnapshot::CheckingGenerations { job }, SaveReply::Checked(checked)) =>
                match checked {
                    Err(error) => step::fail(error),
                    Ok(_) => step::go(SaveSnapshot::CreatingStaging { job }),
                },
            (SaveSnapshot::CreatingStaging { job }, SaveReply::Io(done)) => match done {
                Err(error) => step::fail(
                    AppError::Snapshot(text::joined2("无法创建临时代际：", error.as_str())),
                ),
                Ok(_) => step::go(SaveSnapshot::Capturing { job }),
            },
            (SaveSnapshot::Capturing { job }, SaveReply::Captured(captured)) => match captured {
                Err(error) => step::go(SaveSnapshot::Discarding { job, error }),
                Ok(files) => match snapshot::require_battle_net_config(&files.files) {
                    Err(error) => step::go(SaveSnapshot::Discarding { job, error }),
                    Ok(_) => {
                        let manifest = SnapshotManifest {
                            version: snapshot::SNAPSHOT_VERSION,
                            account: job.account.clone(),
                            generation: job.generation.clone(),
                            created_at: files.created_at,
                            files: files.files,
                        };
                        step::go(SaveSnapshot::WritingManifest { job, manifest })
                    },
                },
            },
            (SaveSnapshot::WritingManifest { job, manifest }, SaveReply::Checked(written)) =>
                match written {
                    Err(error) => step::go(SaveSnapshot::Discarding { job, error }),
                    Ok(_) => step::go(SaveSnapshot::CheckingFiles { job, manifest }),
                },
            (SaveSnapshot::CheckingFiles { job, manifest }, SaveReply::Checked(checked)) =>
                match checked {
                    Err(error) => step::go(SaveSnapshot::Discarding { job, error }),
                    Ok(_) => step::go(
                        SaveSnapshot::Publishing { job, created_at: manifest.created_at },
                    ),
                },
            (SaveSnapshot::Publishing { job, created_at }, SaveReply::Io(done)) => match done {
                Err(error) => {
                    let error = AppError::Snapshot(
                        text::joined2("无法发布快照代际：", error.as_str()),
                    );
                    step::go(SaveSnapshot::Discarding { job, error })
                },
                Ok(_) => {
                    let profile = AccountProfile {
                        version: snapshot::PROFILE_VERSION,
                        verified_login: true,
                        account: job.account.clone(),
                        active_generation: job.generation.clone(),
                        last_saved_at: created_at,
                    };
                    step::go(SaveSnapshot::WritingProfile { job, profile })
                },
            },
            (SaveSnapshot::WritingProfile { job, profile }, SaveReply::Checked(written)) =>
                match written {
                    Err(error) => step::go(SaveSnapshot::Discarding { job, error }),
                    Ok(_) => step::go(
                        SaveSnapshot::CleaningUp { job, created_at: profile.last_saved_at },
                    ),
                },
            (SaveSnapshot::CleaningUp { job: _, created_at }, SaveReply::Finished) => step::end(
                SnapshotSummary { last_saved_at: created_at },
            ),
            (SaveSnapshot::Discarding { job: _, error }, SaveReply::Finished) => step::fail(error),
            _ => step::give_up(),
        }
    }
}

/// The profile is written only once its generation has been published, and a
/// generation is published only once its files were found to be those of its
/// manifest: a save that fails before leaves the profile as it was.
pub proof fn law_profile_follows_publication(
    operation: SaveSnapshot,
    reply: SaveReply,
    step: Step<SaveSnapshot, SnapshotSummary>,
)
    requires
        operation.leads_to(reply, step),
    ensures
        step matches Step::Perform { operation: SaveSnapshot::WritingProfile { job, profile }, .. }
            ==> {
            &&& operation matches SaveSnapshot::Publishing { job: published, created_at }
            &&& reply is Io && reply->Io_0 is Ok
            &&& job == published
            &&& profile == profile_of(job, created_at)
            &&& snapshot::profile_error(job.account@, profile) is Some ==> outside::uuid_form(
                job.generation@,
            ) is None
        },
        step matches Step::Perform { operation: SaveSnapshot::Publishing { job, .. }, .. } ==> {
            &&& operation matches SaveSnapshot::CheckingFiles { job: checked, .. }
            &&& reply is Checked && reply->Checked_0 is Ok
            &&& job == checked
        },
        step matches Step::Perform { operation: SaveSnapshot::CleaningUp { .. }, .. } ==> operation
            is WritingProfile && reply is Checked && reply->Checked_0 is Ok,
        step matches Step::Finished(Ok(_)) ==> operation is CleaningUp,
{
}

/// What a save writes is accepted when the account is checked: the manifest and
/// the profile of one job agree, and the profile is one of the account.
pub proof fn law_saved_generation_is_accepted(job: SaveJob, files: FileSetManifest, checked: ValidateJob)
    requires
        outside::uuid_form(job.generation@) is Some,
        checked.account@ == job.account@,
        snapshot::has_config(files.files@),
    ensures
        ({
            let manifest = manifest_of(job, files);
            let profile = profile_of(job, files.created_at);
            &&& (ValidateSnapshot::ReadingProfile { job: checked }).next(
                ValidateReply::Profile(Ok(profile)),
            ) == step::going::<ValidateSnapshot, ValidatedSnapshotView>(
                ValidateSnapshot::CheckingGeneration { job: checked, profile },
            )
            &&& (ValidateSnapshot::ReadingManifest { job: checked, profile }).next(
                ValidateReply::Manifest(Ok(manifest)),
            ) == step::going::<ValidateSnapshot, ValidatedSnapshotView>(
                ValidateSnapshot::CheckingFiles { job: checked, manifest },
            )
        }),
{
}

/// What is removed, and where it is put aside first.
#[derive(Debug)]
pub struct RemoveJob {
    pub account_directory: String,
    pub quarantine: String,
}

/// Why a quarantined account is put back.
#[derive(Debug)]
pub enum RemovalFailure {
    /// It holds something that may not be removed.
    Rejected(AppError),
    /// Removing it failed.
    NotRemoved(String),
}

/// What is known of the directory that is to be removed.
#[derive(Debug)]
pub enum Presence {
    Present,
    Absent,
    Unknown(String),
}

/// Removing a saved account: its directory is put aside under another name,
/// checked, and removed; where that fails it is put back.
#[derive(Debug)]
pub enum RemoveSnapshot {
    /// The path of the directory of all accounts is to be checked.
    CheckingRoot { job: RemoveJob },
    /// It is to be found out whether the account's directory is there.
    Looking { job: RemoveJob },
    /// Everything in the account's directory is to be checked.
    CheckingTree { job: RemoveJob },
    /// The directory is to be put aside.
    Quarantining { job: RemoveJob },
    /// Everything that was put aside is to be checked.
    CheckingQuarantine { job: RemoveJob },
    /// What was put aside is to be removed.
    Removing { job: RemoveJob },
    /// What was put aside is to be put back, for this reason.
    Restoring { job: RemoveJob, failure: RemovalFailure },
}

/// What came of the work for [`RemoveSnapshot`].
#[derive(Debug)]
pub enum RemoveReply {
    Checked(Result<(), AppError>),
    Found(Presence),
    Io(Result<(), String>),
}

impl RemoveSnapshot {
    /// The error after a failed removal was undone, or could not be.
    pub open spec fn removal_error(
        failure: RemovalFailure,
        restored: Result<(), String>,
    ) -> ErrorView {
        match (failure, restored) {
            (RemovalFailure::Rejected(error), Ok(_)) => error@,
            (RemovalFailure::Rejected(error), Err(restore)) => ErrorView::Snapshot(
                error@.nested() + "；待删除数据恢复失败："@ + restore@,
            ),
            (RemovalFailure::NotRemoved(error), Ok(_)) => ErrorView::Snapshot(
                "无法删除账号快照，已恢复原数据："@ + error@,
            ),
            (RemovalFailure::NotRemoved(error), Err(restore)) => ErrorView::Snapshot(
                "无法删除账号快照："@ + error@ + "；待删除数据恢复失败："@ + restore@,
            ),
        }
    }

    /// What the answer leads to.
    pub open spec fn next(self, reply: RemoveReply) -> StepView<RemoveSnapshot, ()> {
        match (self, reply) {
            (RemoveSnapshot::CheckingRoot { job }, RemoveReply::Checked(checked)) => match checked {
                Err(error) => step::failing(error@),
                Ok(_) => step::going(RemoveSnapshot::Looking { job }),
            },
            (RemoveSnapshot::Looking { job }, RemoveReply::Found(presence)) => match presence {
                Presence::Present => step::going(RemoveSnapshot::CheckingTree { job }),
                Presence::Absent => step::ending(()),
                Presence::Unknown(error) => step::failing(
                    ErrorView::Snapshot("无法读取待删除账号快照："@ + error@),
                ),
            },
            (RemoveSnapshot::CheckingTree { job }, RemoveReply::Checked(checked)) => match checked {
                Err(error) => step::failing(error@),
                Ok(_) => step::going(RemoveSnapshot::Quarantining { job }),
            },
            (RemoveSnapshot::Quarantining { job }, RemoveReply::Io(done)) => match done {
                Err(error) => step::failing(
                    ErrorView::Snapshot("无法隔离待删除账号快照："@ + error@),
                ),
                Ok(_) => step::going(RemoveSnapshot::CheckingQuarantine { job }),
            },
            (RemoveSnapshot::CheckingQuarantine { job }, RemoveReply::Checked(checked)) =>
                match checked {
                    Err(error) => step::going(
                        RemoveSnapshot::Restoring { job, failure: RemovalFailure::Rejected(error) },
                    ),
                    Ok(_) => step::going(RemoveSnapshot::Removing { job }),
                },
            (RemoveSnapshot::Removing { job }, RemoveReply::Io(done)) => match done {
                Err(error) => step::going(
                    RemoveSnapshot::Restoring { job, failure: RemovalFailure::NotRemoved(error) },
                ),
                Ok(_) => step::ending(()),
            },
            (RemoveSnapshot::Restoring { job, failure }, RemoveReply::Io(done)) => step::failing(
                RemoveSnapshot::removal_error(failure, done),
            ),
            _ => step::confused(),
        }
    }

    /// Takes the answer.
    pub fn resume(self, reply: RemoveReply) -> (step: Step<RemoveSnapshot, ()>)
        ensures
            step@ == self.next(reply),
    {
        match (self, reply) {
            (RemoveSnapshot::CheckingRoot { job }, RemoveReply::Checked(checked)) => match checked {
                Err(error) => step::fail(error),
                Ok(_) => step::go(RemoveSnapshot::Looking { job }),
            },
            (RemoveSnapshot::Looking { job }, RemoveReply::Found(presence)) => match presence {
                Presence::Present => step::go(RemoveSnapshot::CheckingTree { job }),
                Presence::Absent => step::end(()),
                Presence::Unknown(error) => step::fail(
                    AppError::Snapshot(text::joined2("无法读取待删除账号快照：", error.as_str())),
                ),
            },
            (RemoveSnapshot::CheckingTree { job }, RemoveReply::Checked(checked)) => match checked {
                Err(error) => step::fail(error),
                Ok(_) => step::go(RemoveSnapshot::Quarantining { job }),
            },
            (RemoveSnapshot::Quarantining { job }, RemoveReply::Io(done)) => match done {
                Err(error) => step::fail(
                    AppError::Snapshot(text::joined2("无法隔离待删除账号快照：", error.as_str())),
                ),
                Ok(_) => step::go(RemoveSnapshot::CheckingQuarantine { job }),
            },
            (RemoveSnapshot::CheckingQuarantine { job }, RemoveReply::Checked(checked)) =>
                match checked {
                    Err(error) => step::go(
                        RemoveSnapshot::Restoring { job, failure: RemovalFailure::Rejected(error) },
                    ),
                    Ok(_) => step::go(RemoveSnapshot::Removing { job }),
                },
            (RemoveSnapshot::Removing { job }, RemoveReply::Io(done)) => match done {
                Err(error) => step::go(
                    RemoveSnapshot::Restoring { job, failure: RemovalFailure::NotRemoved(error) },
                ),
                Ok(_) => step::end(()),
            },
            (RemoveSnapshot::Restoring { job: _, failure }, RemoveReply::Io(done)) => {
                let error = match (failure, done) {
                    (RemovalFailure::Rejected(error), Ok(_)) => error,
                    (RemovalFailure::Rejected(error), Err(restore)) => AppError::Snapshot(
                        text::joined3(
                            error.nested_message().as_str(),
                            "；待删除数据恢复失败：",
                            restore.as_str(),
                        ),
                    ),
                    (RemovalFailure::NotRemoved(error), Ok(_)) => AppError::Snapshot(
                        text::joined2("无法删除账号快照，已恢复原数据：", error.as_str()),
                    ),
                    (RemovalFailure::NotRemoved(error), Err(restore)) => AppError::Snapshot(
                        text::joined4(
                            "无法删除账号快照：",
                            error.as_str(),
                            "；待删除数据恢复失败：",
                            restore.as_str(),
                        ),
                    ),
                };
                step::fail(error)
            },
            _ => step::give_up(),
        }
    }
}

/// A removal that puts a directory aside and then fails puts it back: every
/// failure after the directory was put aside comes from the attempt to put it
/// back.
pub proof fn law_failed_removal_is_undone(operation: RemoveSnapshot, reply: RemoveReply)
    ensures
        operation is CheckingQuarantine && reply is Checked ==> operation.next(reply) is Perform,
        operation is Removing && reply is Io && reply->Io_0 is Ok ==> operation.next(reply)
            == step::ending::<RemoveSnapshot, ()>(()),
        operation is Removing && reply is Io && reply->Io_0 is Err ==> (operation.next(
            reply,
        ) matches StepView::Perform { operation: RemoveSnapshot::Restoring { job, .. }, .. } && job
            == operation->Removing_job),
{
}

impl ValidateSnapshot {
    /// How the operation goes on.
    pub open spec fn steps() -> spec_fn(ValidateSnapshot, ValidateReply) -> StepView<
        ValidateSnapshot,
        ValidatedSnapshotView,
    > {
        |operation: ValidateSnapshot, reply: ValidateReply| operation.next(reply)
    }
}

/// Checking a saved account succeeds exactly where its directory was in order, its profile
/// was read and is of this version, of the account and of a login that was verified, with
/// the name of a generation, that generation's directory was in order, its manifest was
/// read and is of this version, of the account and of the generation, with the client's
/// configuration among its files, and the files are those of the manifest. What is given
/// is the account, the files of the manifest and the directory of that generation.
pub proof fn law_saved_account_is_checked_through(
    job: ValidateJob,
    run: Seq<Moment<ValidateSnapshot, ValidateReply>>,
)
    requires
        step::is_run(ValidateSnapshot::steps(), ValidateSnapshot::CheckingDirectory { job }, run),
    ensures
        step::result_of(ValidateSnapshot::steps(), run) is Ok <==> {
            let profile = run[1].reply->Profile_0->Ok_0;
            let manifest = run[3].reply->Manifest_0->Ok_0;
            &&& run.len() == 5
            &&& run[0].reply is Checked
            &&& run[0].reply->Checked_0 is Ok
            &&& run[1].operation == (ValidateSnapshot::ReadingProfile { job })
            &&& run[1].reply is Profile
            &&& run[1].reply->Profile_0 is Ok
            &&& profile.version == snapshot::PROFILE_VERSION
            &&& profile.account@ == job.account@
            &&& profile.verified_login
            &&& outside::uuid_form(profile.active_generation@) is Some
            &&& run[2].operation == (ValidateSnapshot::CheckingGeneration { job, profile })
            &&& run[2].reply is Checked
            &&& run[2].reply->Checked_0 is Ok
            &&& run[3].operation == (ValidateSnapshot::ReadingManifest { job, profile })
            &&& run[3].reply is Manifest
            &&& run[3].reply->Manifest_0 is Ok
            &&& manifest.version == snapshot::SNAPSHOT_VERSION
            &&& manifest.account@ == job.account@
            &&& manifest.generation@ == profile.active_generation@
            &&& exists|i: int|
                0 <= i < manifest.files@.len() && text::lowered((#[trigger] manifest.files@[i]).name@)
                    == text::lowered("Battle.net.config"@)
            &&& run[4].operation == (ValidateSnapshot::CheckingFiles { job, manifest })
            &&& run[4].reply is Checked
            &&& run[4].reply->Checked_0 is Ok
        },
        step::result_of(ValidateSnapshot::steps(), run) is Ok ==> {
            let manifest = run[3].reply->Manifest_0->Ok_0;
            &&& step::result_of(ValidateSnapshot::steps(), run)->Ok_0.account@ == job.account@
            &&& step::result_of(ValidateSnapshot::steps(), run)->Ok_0.files == manifest.files@
            &&& step::result_of(ValidateSnapshot::steps(), run)->Ok_0.files_directory == paths::adjoined(
                job.generation_path(run[1].reply->Profile_0->Ok_0.active_generation@),
                "files"@,
            )
        },
        forall|i: int|
            0 <= i < run.len() && i % 2 == 0 && (#[trigger] run[i]).reply is Checked
                && run[i].reply->Checked_0 is Err ==> i == run.len() - 1 && step::result_of(ValidateSnapshot::steps(), run) == Err::<
                ValidatedSnapshotView,
                ErrorView,
            >(run[i].reply->Checked_0->Err_0@),
        run.len() <= 5,
{
    let steps = ValidateSnapshot::steps();
    assert(step::follows(steps, run, 0));
    if run.len() > 1 {
        assert(step::follows(steps, run, 1));
    }
    if run.len() > 2 {
        assert(step::follows(steps, run, 2));
    }
    if run.len() > 3 {
        assert(step::follows(steps, run, 3));
    }
    if run.len() > 4 {
        assert(step::follows(steps, run, 4));
    }
}

impl SaveSnapshot {
    /// How the operation may go on.
    pub open spec fn leads() -> spec_fn(SaveSnapshot, SaveReply, Step<SaveSnapshot, SnapshotSummary>) -> bool {
        |operation: SaveSnapshot, reply: SaveReply, step: Step<SaveSnapshot, SnapshotSummary>|
            operation.leads_to(reply, step)
    }
}

/// Saving an account succeeds exactly where its source was in order, its directories were
/// created and in order, the files were copied, with the client's configuration among
/// them, into a directory that was made for it, the manifest of the account, the
/// generation and these files was written and the copy checked against it, the generation
/// was put in its place, and then the profile that names it, as that of a verified login,
/// was written. The time of the copy is what is given back. A failure after the directory
/// was made removes it, and the save ends in the error.
pub proof fn law_account_is_saved_by_copying_and_publishing(
    job: SaveJob,
    run: Seq<Taken<SaveSnapshot, SaveReply, SnapshotSummary>>,
)
    requires
        step::is_taken_run(SaveSnapshot::leads(), SaveSnapshot::CheckingSource { job }, run),
    ensures
        step::taken_result(run) is Ok <==> {
            let copied = run[5].reply->Captured_0->Ok_0;
            let manifest = run[6].operation->WritingManifest_manifest;
            let profile = run[9].operation->WritingProfile_profile;
            &&& run.len() == 11
            &&& run[0].reply is Checked
            &&& run[0].reply->Checked_0 is Ok
            &&& run[1].operation == (SaveSnapshot::CreatingDirectories { job })
            &&& run[1].reply is Io
            &&& run[1].reply->Io_0 is Ok
            &&& run[2].operation == (SaveSnapshot::CheckingAccountDirectory { job })
            &&& run[2].reply is Checked
            &&& run[2].reply->Checked_0 is Ok
            &&& run[3].operation == (SaveSnapshot::CheckingGenerations { job })
            &&& run[3].reply is Checked
            &&& run[3].reply->Checked_0 is Ok
            &&& run[4].operation == (SaveSnapshot::CreatingStaging { job })
            &&& run[4].reply is Io
            &&& run[4].reply->Io_0 is Ok
            &&& run[5].operation == (SaveSnapshot::Capturing { job })
            &&& run[5].reply is Captured
            &&& run[5].reply->Captured_0 is Ok
            &&& exists|i: int|
                0 <= i < copied.files@.len() && text::lowered((#[trigger] copied.files@[i]).name@)
                    == text::lowered("Battle.net.config"@)
            &&& run[6].operation is WritingManifest
            &&& run[6].operation->WritingManifest_job == job
            &&& manifest.version == snapshot::SNAPSHOT_VERSION
            &&& manifest.account == job.account
            &&& manifest.generation == job.generation
            &&& manifest.created_at == copied.created_at
            &&& manifest.files == copied.files
            &&& run[6].reply is Checked
            &&& run[6].reply->Checked_0 is Ok
            &&& run[7].operation == (SaveSnapshot::CheckingFiles { job, manifest })
            &&& run[7].reply is Checked
            &&& run[7].reply->Checked_0 is Ok
            &&& run[8].operation is Publishing
            &&& run[8].operation->Publishing_job == job
            &&& run[8].reply is Io
            &&& run[8].reply->Io_0 is Ok
            &&& run[9].operation is WritingProfile
            &&& run[9].operation->WritingProfile_job == job
            &&& profile.version == snapshot::PROFILE_VERSION
            &&& profile.verified_login
            &&& profile.account == job.account
            &&& profile.active_generation == job.generation
            &&& profile.last_saved_at == copied.created_at
            &&& run[9].reply is Checked
            &&& run[9].reply->Checked_0 is Ok
            &&& run[10].operation is CleaningUp
            &&& run[10].reply is Finished
        },
        step::taken_result(run) is Ok ==> {
            let copied = run[5].reply->Captured_0->Ok_0;
            let manifest = run[6].operation->WritingManifest_manifest;
            let profile = run[9].operation->WritingProfile_profile;
            step::taken_result(run) == Ok::<SnapshotSummary, ErrorView>(SnapshotSummary { last_saved_at: run[5].reply->Captured_0->Ok_0.created_at })
        },
        forall|i: int|
            5 <= i < run.len() && i < 10 && (match (#[trigger] run[i]).reply {
                SaveReply::Captured(captured) => run[i].operation is Capturing && captured is Err,
                SaveReply::Checked(checked) => (run[i].operation is WritingManifest || run[i].operation
                    is CheckingFiles || run[i].operation is WritingProfile) && checked is Err,
                SaveReply::Io(done) => run[i].operation is Publishing && done is Err,
                SaveReply::Finished => false,
            }) ==> {
                &&& i + 2 == run.len()
                &&& run[i + 1].operation is Discarding
                &&& run[i + 1].operation->Discarding_job == job
                &&& step::taken_result(run) is Err
                &&& run[i].reply matches SaveReply::Checked(Err(error)) ==> run[i
                    + 1].operation->Discarding_error@ == error@
                &&& run[i + 1].reply is Finished ==> step::taken_result(run) == Err::<SnapshotSummary, ErrorView>(
                    run[i + 1].operation->Discarding_error@,
                )
            },
        run.len() <= 11,
{
    let steps = SaveSnapshot::leads();
    assert(step::goes_on(steps, run, 0));
    if run.len() > 1 {
        assert(step::goes_on(steps, run, 1));
    }
    if run.len() > 2 {
        assert(step::goes_on(steps, run, 2));
    }
    if run.len() > 3 {
        assert(step::goes_on(steps, run, 3));
    }
    if run.len() > 4 {
        assert(step::goes_on(steps, run, 4));
    }
    if run.len() > 5 {
        assert(step::goes_on(steps, run, 5));
    }
    if run.len() > 6 {
        assert(step::goes_on(steps, run, 6));
    }
    if run.len() > 7 {
        assert(step::goes_on(steps, run, 7));
    }
    if run.len() > 8 {
        assert(step::goes_on(steps, run, 8));
    }
    if run.len() > 9 {
        assert(step::goes_on(steps, run, 9));
    }
    if run.len() > 10 {
        assert(step::goes_on(steps, run, 10));
    }
}

impl RemoveSnapshot {
    /// How the operation goes on.
    pub open spec fn steps() -> spec_fn(RemoveSnapshot, RemoveReply) -> StepView<
        RemoveSnapshot,
        (),
    > {
        |operation: RemoveSnapshot, reply: RemoveReply| operation.next(reply)
    }
}

/// Removing what was saved of an account succeeds exactly where the directory of all
/// accounts was in order, and the account's directory is not there, or was checked
/// through, put aside, checked through again, and removed. Where the second check or the
/// removal fails, what was put aside is put back, and the removal ends in an error.
pub proof fn law_saved_account_is_put_aside_and_removed(
    job: RemoveJob,
    run: Seq<Moment<RemoveSnapshot, RemoveReply>>,
)
    requires
        step::is_run(RemoveSnapshot::steps(), RemoveSnapshot::CheckingRoot { job }, run),
    ensures
        step::result_of(RemoveSnapshot::steps(), run) is Ok <==> {
            &&& run.len() == 2 || run.len() == 6
            &&& run[0].reply is Checked
            &&& run[0].reply->Checked_0 is Ok
            &&& run[1].operation == (RemoveSnapshot::Looking { job })
            &&& run[1].reply is Found
            &&& run.len() == 2 ==> run[1].reply->Found_0 is Absent
            &&& run.len() == 6 ==> {
                &&& run[1].reply->Found_0 is Present
                &&& run[2].operation == (RemoveSnapshot::CheckingTree { job })
                &&& run[2].reply is Checked
                &&& run[2].reply->Checked_0 is Ok
                &&& run[3].operation == (RemoveSnapshot::Quarantining { job })
                &&& run[3].reply is Io
                &&& run[3].reply->Io_0 is Ok
                &&& run[4].operation == (RemoveSnapshot::CheckingQuarantine { job })
                &&& run[4].reply is Checked
                &&& run[4].reply->Checked_0 is Ok
                &&& run[5].operation == (RemoveSnapshot::Removing { job })
                &&& run[5].reply is Io
                &&& run[5].reply->Io_0 is Ok
            }
        },
        run.len() > 4 && run[4].reply is Checked && run[4].reply->Checked_0 is Err ==> {
            &&& run.len() == 6
            &&& run[5].operation is Restoring
            &&& run[5].operation->Restoring_job == job
            &&& step::result_of(RemoveSnapshot::steps(), run) is Err
        },
        run.len() > 5 && run[5].operation is Removing && run[5].reply is Io && run[5].reply->Io_0
            is Err ==> {
            &&& run.len() == 7
            &&& run[6].operation is Restoring
            &&& run[6].operation->Restoring_job == job
            &&& step::result_of(RemoveSnapshot::steps(), run) is Err
        },
        run.len() <= 7,
{
    let steps = RemoveSnapshot::steps();
    assert(step::follows(steps, run, 0));
    if run.len() > 1 {
        assert(step::follows(steps, run, 1));
    }
    if run.len() > 2 {
        assert(step::follows(steps, run, 2));
    }
    if run.len() > 3 {
        assert(step::follows(steps, run, 3));
    }
    if run.len() > 4 {
        assert(step::follows(steps, run, 4));
    }
    if run.len() > 5 {
        assert(step::follows(steps, run, 5));
    }
    if run.len() > 6 {
        assert(step::follows(steps, run, 6));
    }
}

} // verus!
