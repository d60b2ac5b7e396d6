//! Saved accounts on Windows. A saved account is a set of files with a manifest
//! that names each file with its size and digest; every save makes a new
//! generation, and the account's profile names the one that counts.

use vstd::prelude::*;

use crate::contracts::AccountKey;
use crate::contracts::AccountKeyView;
use crate::error::AppError;
use crate::error::ErrorView;
use crate::ordered::TextMap;
use crate::outside;
use crate::platform::windows::paths;
use crate::platform::windows::paths::FileFacts;
use crate::text;

verus! {

pub const SNAPSHOT_VERSION: u8 = 1;

pub const PROFILE_VERSION: u8 = 1;

/// A file of a set: its name, its size and its digest.
#[derive(Debug)]
pub struct ManifestFile {
    pub name: String,
    pub size: u64,
    pub sha256: String,
}

/// A [`ManifestFile`] with its texts as character sequences.
pub struct FileView {
    pub name: Seq<char>,
    pub size: u64,
    pub sha256: Seq<char>,
}

impl View for ManifestFile {
    type V = FileView;

    open spec fn view(&self) -> FileView {
        FileView { name: self.name@, size: self.size, sha256: self.sha256@ }
    }
}

impl Clone for ManifestFile {
    fn clone(&self) -> (copy: Self)
        ensures
            copy == *self,
    {
        ManifestFile { name: self.name.clone(), size: self.size, sha256: self.sha256.clone() }
    }
}

/// The files as names, sizes and digests, in order.
pub open spec fn file_views(files: Seq<ManifestFile>) -> Seq<FileView> {
    files.map_values(|file: ManifestFile| file@)
}

/// What a set of files holds: for each file its name, its size and its digest.
pub open spec fn contents(files: Seq<ManifestFile>) -> Set<FileView> {
    file_views(files).to_set()
}

/// The manifest of a set of files.
#[derive(Debug)]
pub struct FileSetManifest {
    pub version: u8,
    pub created_at: u64,
    pub files: Vec<ManifestFile>,
}

/// The manifest of a generation of a saved account.
#[derive(Debug)]
pub struct SnapshotManifest {
    pub version: u8,
    pub account: AccountKey,
    pub generation: String,
    pub created_at: u64,
    pub files: Vec<ManifestFile>,
}

/// The profile of a saved account.
#[derive(Debug)]
pub struct AccountProfile {
    pub version: u8,
    pub verified_login: bool,
    pub account: AccountKey,
    pub active_generation: String,
    pub last_saved_at: u64,
}

/// When an account was saved.
#[derive(Clone, Copy, Debug, PartialEq, Eq, Structural)]
pub struct SnapshotSummary {
    pub last_saved_at: u64,
}

impl View for SnapshotSummary {
    type V = SnapshotSummary;

    open spec fn view(&self) -> SnapshotSummary {
        *self
    }
}

/// A saved account whose files are as its manifest says.
#[derive(Debug)]
pub struct ValidatedSnapshot {
    pub account: AccountKey,
    pub files: Vec<ManifestFile>,
    pub files_directory: String,
}

/// A [`ValidatedSnapshot`] with its directory as a character sequence.
pub struct ValidatedSnapshotView {
    pub account: AccountKey,
    pub files: Seq<ManifestFile>,
    pub files_directory: Seq<char>,
}

impl View for ValidatedSnapshot {
    type V = ValidatedSnapshotView;

    open spec fn view(&self) -> ValidatedSnapshotView {
        ValidatedSnapshotView {
            account: self.account,
            files: self.files@,
            files_directory: self.files_directory@,
        }
    }
}

/// Why a record could not be read.
#[derive(Debug)]
pub enum DocumentError {
    /// The file cannot be read.
    Unreadable(String),
    /// The file is not a record of this kind.
    Invalid(String),
}

/// The error for a record that could not be read; `label` names the record.
pub open spec fn document_failure(label: Seq<char>, error: DocumentError) -> ErrorView {
    match error {
        DocumentError::Unreadable(error) => ErrorView::Snapshot(
            "无法读取"@ + label + "："@ + error@,
        ),
        DocumentError::Invalid(error) => ErrorView::Snapshot(label + "格式无效："@ + error@),
    }
}

pub(crate) fn document_error(label: &str, error: DocumentError) -> (failure: AppError)
    ensures
        failure@ == document_failure(label@, error),
{
    match error {
        DocumentError::Unreadable(error) => AppError::Snapshot(
            text::joined4("无法读取", label, "：", error.as_str()),
        ),
        DocumentError::Invalid(error) => AppError::Snapshot(
            text::joined3(label, "格式无效：", error.as_str()),
        ),
    }
}

/// Whether an account can be saved: neither part of its key is blank.
pub open spec fn has_key(account: AccountKeyView) -> bool {
    text::trimmed(account.environment).len() > 0 && text::trimmed(account.account_id).len() > 0
}

/// Checks that neither part of the account's key is blank.
pub fn validate_account_key(account: &AccountKey) -> (result: Result<(), AppError>)
    ensures
        result is Ok == has_key(account@),
        result is Err ==> result->Err_0@ == ErrorView::Snapshot("账号标识为空"@),
{
    if text::is_blank(account.environment.as_str()) || text::is_blank(account.account_id.as_str()) {
        return Err(AppError::Snapshot("账号标识为空".to_owned()));
    }
    Ok(())
}

/// Whether the character controls a terminal or a printer.
pub open spec fn is_control(c: char) -> bool {
    c <= '\u{1f}' || '\u{7f}' <= c <= '\u{9f}'
}

/// Whether the character may stand in a file name.
pub open spec fn is_file_char(c: char) -> bool {
    !is_control(c) && c != '<' && c != '>' && c != ':' && c != '"' && c != '/' && c != '\\' && c
        != '|' && c != '?' && c != '*'
}

/// Whether a file of this name may belong to a set: the name is one component,
/// is not one of the application's own files, and does not end in a space or a
/// dot.
pub open spec fn is_file_name(name: Seq<char>) -> bool {
    &&& name.len() > 0
    &&& !text::begins_with(name, ".bnetswitchlite-"@)
    &&& name.last() != ' '
    &&& name.last() != '.'
    &&& forall|i: int| 0 <= i < name.len() ==> is_file_char(#[trigger] name[i])
}

/// Checks that a file of this name may belong to a set.
pub fn validate_file_name(name: &str) -> (result: Result<(), AppError>)
    ensures
        result is Ok == is_file_name(name@),
        result is Err ==> result->Err_0@ == ErrorView::Snapshot("快照文件名无效："@ + name@),
{
    let chars = text::chars_of(name);
    let mut valid = chars.len() > 0 && !text::starts_with(name, ".bnetswitchlite-")
        && chars[chars.len() - 1] != ' ' && chars[chars.len() - 1] != '.';
    let mut i: usize = 0;
    let ghost first = valid;
    while i < chars.len()
        invariant
            i <= chars.len(),
            chars@ == name@,
            valid == (first && forall|j: int| 0 <= j < i ==> is_file_char(#[trigger] name@[j])),
        decreases chars.len() - i,
    {
        let c: char = chars[i];
        let control = c <= '\u{1f}' || ('\u{7f}' <= c && c <= '\u{9f}');
        if control || c == '<' || c == '>' || c == ':' || c == '"' || c == '/' || c == '\\' || c
            == '|' || c == '?' || c == '*' {
            assert(!is_file_char(name@[i as int]));
            valid = false;
        }
        i = i + 1;
    }
    if valid {
        Ok(())
    } else {
        Err(AppError::Snapshot(text::joined2("快照文件名无效：", name)))
    }
}

/// Whether the client's configuration is among the files.
pub open spec fn has_config(files: Seq<ManifestFile>) -> bool {
    exists|i: int|
        0 <= i < files.len() && text::lowered((#[trigger] files[i]).name@) == text::lowered(
            "Battle.net.config"@,
        )
}

/// Checks that the client's configuration is among the files.
pub fn require_battle_net_config(files: &Vec<ManifestFile>) -> (result: Result<(), AppError>)
    ensures
        result is Ok == has_config(files@),
        result is Err ==> result->Err_0@ == ErrorView::Snapshot(
            "未找到 Battle.net.config，拒绝保存不完整快照"@,
        ),
{
    let mut i: usize = 0;
    while i < files.len()
        invariant
            i <= files.len(),
            forall|j: int|
                0 <= j < i ==> text::lowered((#[trigger] files@[j]).name@) != text::lowered(
                    "Battle.net.config"@,
                ),
        decreases files.len() - i,
    {
        if text::same_ignoring_case(files[i].name.as_str(), "Battle.net.config") {
            return Ok(());
        }
        i = i + 1;
    }
    Err(AppError::Snapshot("未找到 Battle.net.config，拒绝保存不完整快照".to_owned()))
}

/// Checks that the text names a generation.
pub fn validate_generation_id(generation: &str) -> (result: Result<(), AppError>)
    ensures
        result is Ok == outside::uuid_form(generation@) is Some,
        result is Err ==> result->Err_0@ == ErrorView::Snapshot("快照代际标识无效"@),
{
    if outside::is_uuid(generation) {
        Ok(())
    } else {
        Err(AppError::Snapshot("快照代际标识无效".to_owned()))
    }
}

/// Why the profile is not one of the account.
pub open spec fn profile_error(account: AccountKeyView, profile: AccountProfile) -> Option<
    ErrorView,
> {
    if profile.version != PROFILE_VERSION {
        Some(
            ErrorView::Snapshot("不支持的账号快照版本："@ + text::decimal(profile.version as nat)),
        )
    } else if profile.account@ != account {
        Some(ErrorView::Snapshot("账号快照索引与请求账号不一致"@))
    } else if !profile.verified_login {
        Some(ErrorView::Snapshot("账号快照未经过登录验证"@))
    } else if outside::uuid_form(profile.active_generation@) is None {
        Some(ErrorView::Snapshot("快照代际标识无效"@))
    } else {
        None
    }
}

/// Checks that the profile is one of the account.
pub fn validate_profile(account: &AccountKey, profile: &AccountProfile) -> (result: Result<
    (),
    AppError,
>)
    ensures
        match result {
            Ok(_) => profile_error(account@, *profile) is None,
            Err(error) => profile_error(account@, *profile) == Some(error@),
        },
{
    if profile.version != PROFILE_VERSION {
        let version = text::decimal_text(profile.version as u64);
        return Err(
            AppError::Snapshot(text::joined2("不支持的账号快照版本：", version.as_str())),
        );
    }
    if profile.account != *account {
        return Err(AppError::Snapshot("账号快照索引与请求账号不一致".to_owned()));
    }
    if !profile.verified_login {
        return Err(AppError::Snapshot("账号快照未经过登录验证".to_owned()));
    }
    validate_generation_id(profile.active_generation.as_str())
}

/// The bytes whose digest names the directory of an account.
pub open spec fn directory_preimage(account: AccountKeyView) -> Seq<u8> {
    vstd::utf8::encode_utf8(account.environment) + seq![0u8] + vstd::utf8::encode_utf8(
        account.account_id,
    )
}

/// The name of the directory of an account.
pub fn account_directory_name(account: &AccountKey) -> (name: String)
    ensures
        name@ == outside::sha256_hex(directory_preimage(account@)),
{
    let mut bytes = text::bytes_of(account.environment.as_str());
    bytes.push(0u8);
    let id = text::bytes_of(account.account_id.as_str());
    let ghost front = bytes@;
    let mut i: usize = 0;
    assert(front + id@.take(0) =~= front);
    while i < id.len()
        invariant
            i <= id.len(),
            bytes@ == front + id@.take(i as int),
        decreases id.len() - i,
    {
        bytes.push(id[i]);
        assert(front + id@.take(i + 1) =~= (front + id@.take(i as int)).push(id@[i as int]));
        i = i + 1;
    }
    assert(id@.take(i as int) =~= id@);
    assert(bytes@ =~= directory_preimage(account@));
    outside::sha256(&bytes)
}

/// The encoding of a text is that of its parts.
proof fn lemma_encode_concat(a: Seq<char>, b: Seq<char>)
    ensures
        vstd::utf8::encode_utf8(a + b) == vstd::utf8::encode_utf8(a) + vstd::utf8::encode_utf8(b),
    decreases a.len(),
{
    if a.len() == 0 {
        assert(a + b =~= b);
        assert(vstd::utf8::encode_utf8(a) + vstd::utf8::encode_utf8(b) =~= vstd::utf8::encode_utf8(
            b,
        ));
    } else {
        lemma_encode_concat(a.drop_first(), b);
        assert((a + b).drop_first() =~= a.drop_first() + b);
        assert(vstd::utf8::encode_utf8(a + b) =~= vstd::utf8::encode_utf8(a)
            + vstd::utf8::encode_utf8(b));
    }
}

/// Different accounts have different directories as far as the digest tells
/// them apart: what is hashed determines the account, where no environment
/// holds a zero character.
pub proof fn law_directory_determines_account(first: AccountKeyView, second: AccountKeyView)
    requires
        directory_preimage(first) == directory_preimage(second),
        !first.environment.contains('\0'),
        !second.environment.contains('\0'),
    ensures
        first == second,
{
    let a = first.environment + seq!['\0'] + first.account_id;
    let b = second.environment + seq!['\0'] + second.account_id;
    lemma_preimage(first);
    lemma_preimage(second);
    vstd::utf8::encode_utf8_decode_utf8(a);
    vstd::utf8::encode_utf8_decode_utf8(b);
    assert(a == b);
    let n = first.environment.len() as int;
    let m = second.environment.len() as int;
    assert(a[n] == '\0');
    assert(b[m] == '\0');
    if n < m {
        assert(b[n] == second.environment[n]);
        assert(second.environment.contains('\0'));
    }
    if m < n {
        assert(a[m] == first.environment[m]);
        assert(first.environment.contains('\0'));
    }
    assert(first.environment =~= a.subrange(0, n));
    assert(second.environment =~= b.subrange(0, m));
    assert(first.account_id =~= a.subrange(n + 1, a.len() as int));
    assert(second.account_id =~= b.subrange(m + 1, b.len() as int));
}

proof fn lemma_preimage(account: AccountKeyView)
    ensures
        directory_preimage(account) == vstd::utf8::encode_utf8(
            account.environment + seq!['\0'] + account.account_id,
        ),
{
    let zero = seq!['\0'];
    lemma_encode_concat(account.environment + zero, account.account_id);
    lemma_encode_concat(account.environment, zero);
    assert(zero.drop_first() =~= Seq::<char>::empty());
    assert(vstd::utf8::encode_utf8(Seq::<char>::empty()) =~= Seq::<u8>::empty());
    assert(vstd::utf8::encode_scalar(0u32) =~= seq![0u8]) by {
        assert((0u32 & 0x7F) as u8 == 0u8) by (bit_vector);
    }
    assert(vstd::utf8::encode_utf8(zero) =~= seq![0u8]);
}

/// An entry of a directory: its path, what the file system says of it, and its
/// name where that is a text.
#[derive(Debug)]
pub struct EntryFacts {
    pub path: String,
    pub metadata: Result<FileFacts, String>,
    pub name: Option<String>,
}

/// Why an entry cannot be part of a set of files, or its name where it is a file
/// of the set; directories are passed over.
pub open spec fn entry_file(entry: Result<EntryFacts, String>) -> Result<
    Option<Seq<char>>,
    ErrorView,
> {
    match entry {
        Err(error) => Err(ErrorView::Snapshot("无法读取目录项："@ + error@)),
        Ok(entry) => match entry.metadata {
            Err(error) => Err(ErrorView::Snapshot("无法读取文件属性："@ + error@)),
            Ok(metadata) => if paths::redirects(metadata.attributes) {
                Err(ErrorView::Snapshot("拒绝处理重解析点："@ + entry.path@))
            } else if !metadata.is_file {
                Ok(None)
            } else {
                match entry.name {
                    None => Err(ErrorView::Snapshot("目录中包含无法表示的文件名"@)),
                    Some(name) => if is_file_name(name@) {
                        Ok(Some(name@))
                    } else {
                        Err(ErrorView::Snapshot("快照文件名无效："@ + name@))
                    },
                }
            },
        },
    }
}

/// The files of the directory: the path of each by its name, or the first error.
pub open spec fn regular_files(entries: Seq<Result<EntryFacts, String>>) -> Result<
    Map<Seq<char>, Seq<char>>,
    ErrorView,
>
    decreases entries.len(),
{
    if entries.len() == 0 {
        Ok(Map::empty())
    } else {
        match (regular_files(entries.drop_last()), entry_file(entries.last())) {
            (Err(error), _) => Err(error),
            (Ok(_), Err(error)) => Err(error),
            (Ok(files), Ok(None)) => Ok(files),
            (Ok(files), Ok(Some(name))) => Ok(files.insert(name, entries.last()->Ok_0.path@)),
        }
    }
}

fn file_of(entry: &Result<EntryFacts, String>) -> (file: Result<Option<String>, AppError>)
    ensures
        match file {
            Ok(None) => entry_file(*entry) == Ok::<Option<Seq<char>>, ErrorView>(None),
            Ok(Some(name)) => entry_file(*entry) == Ok::<Option<Seq<char>>, ErrorView>(Some(name@)),
            Err(error) => entry_file(*entry) == Err::<Option<Seq<char>>, ErrorView>(error@),
        },
{
    let entry = match entry {
        Ok(entry) => entry,
        Err(error) => {
            return Err(AppError::Snapshot(text::joined2("无法读取目录项：", error.as_str())));
        },
    };
    let metadata = match &entry.metadata {
        Ok(metadata) => *metadata,
        Err(error) => {
            return Err(AppError::Snapshot(text::joined2("无法读取文件属性：", error.as_str())));
        },
    };
    if paths::is_reparse_point(metadata.attributes) {
        return Err(AppError::Snapshot(text::joined2("拒绝处理重解析点：", entry.path.as_str())));
    }
    if !metadata.is_file {
        return Ok(None);
    }
    match &entry.name {
        None => Err(AppError::Snapshot("目录中包含无法表示的文件名".to_owned())),
        Some(name) => match validate_file_name(name.as_str()) {
            Ok(_) => Ok(Some(name.clone())),
            Err(error) => Err(error),
        },
    }
}

/// The files of a directory by their names. `entries` is what the directory
/// gave, or why it could not be read.
pub fn enumerate_regular_files(
    directory: &str,
    entries: &Result<Vec<Result<EntryFacts, String>>, String>,
) -> (files: Result<TextMap, AppError>)
    ensures
        match *entries {
            Err(error) => files is Err && files->Err_0@ == ErrorView::Snapshot(
                "无法读取目录 "@ + directory@ + "："@ + error@,
            ),
            Ok(entries) => match files {
                Ok(files) => regular_files(entries@) == Ok::<Map<Seq<char>, Seq<char>>, ErrorView>(
                    files@,
                ),
                Err(error) => regular_files(entries@) == Err::<
                    Map<Seq<char>, Seq<char>>,
                    ErrorView,
                >(error@),
            },
        },
{
    let entries = match entries {
        Ok(entries) => entries,
        Err(error) => {
            return Err(
                AppError::Snapshot(
                    text::joined4("无法读取目录 ", directory, "：", error.as_str()),
                ),
            );
        },
    };
    let mut files = TextMap::new();
    let mut failure: Option<AppError> = None;
    let mut i: usize = 0;
    while i < entries.len()
        invariant
            i <= entries.len(),
            match (failure, regular_files(entries@.take(i as int))) {
                (None, Ok(found)) => files@ == found,
                (Some(failure), Err(error)) => failure@ == error,
                _ => false,
            },
        decreases entries.len() - i,
    {
        assert(entries@.take(i + 1).drop_last() =~= entries@.take(i as int));
        assert(entries@.take(i + 1).last() == entries@[i as int]);
        if failure.is_none() {
            match file_of(&entries[i]) {
                Err(error) => {
                    failure = Some(error);
                },
                Ok(None) => {},
                Ok(Some(name)) => match &entries[i] {
                    Ok(entry) => {
                        files = files.with(name, entry.path.clone());
                    },
                    Err(_) => {},
                },
            }
        }
        i = i + 1;
    }
    assert(entries@.take(i as int) =~= entries@);
    match failure {
        None => Ok(files),
        Some(error) => Err(error),
    }
}

/// A file as it was found: its name, and its size and digest or why it could not
/// be read.
#[derive(Debug)]
pub struct HashedFile {
    pub name: String,
    pub digest: Result<(u64, String), String>,
}

/// The size and the digest of a file with these bytes.
pub fn hash_bytes(bytes: &Vec<u8>) -> (digest: (u64, String))
    ensures
        digest.0 == bytes.len(),
        digest.1@ == outside::sha256_hex(bytes@),
{
    (bytes.len() as u64, outside::sha256(bytes))
}

/// Whether no two files have the same name.
pub open spec fn names_differ(files: Seq<ManifestFile>) -> bool {
    forall|i: int, j: int|
        0 <= i < j < files.len() ==> (#[trigger] files[i]).name@ != (#[trigger] files[j]).name@
}

/// Whether a file of this name is expected.
pub open spec fn expects(expected: Seq<ManifestFile>, name: Seq<char>) -> bool {
    exists|i: int| 0 <= i < expected.len() && (#[trigger] expected[i]).name@ == name
}

/// Whether a file of this name was found.
pub open spec fn finds(actual: Seq<HashedFile>, name: Seq<char>) -> bool {
    exists|i: int| 0 <= i < actual.len() && (#[trigger] actual[i]).name@ == name
}

/// Whether exactly the expected names were found.
pub open spec fn same_names(expected: Seq<ManifestFile>, actual: Seq<HashedFile>) -> bool {
    &&& forall|i: int| 0 <= i < expected.len() ==> finds(actual, (#[trigger] expected[i]).name@)
    &&& forall|i: int| 0 <= i < actual.len() ==> expects(expected, (#[trigger] actual[i]).name@)
}

/// Why a found file is not as expected.
pub open spec fn file_error(expected: Seq<ManifestFile>, file: HashedFile) -> Option<ErrorView> {
    if !is_file_name(file.name@) {
        Some(ErrorView::Snapshot("快照文件名无效："@ + file.name@))
    } else {
        match file.digest {
            Err(error) => Some(ErrorView::Snapshot(error@)),
            Ok((size, sha256)) => if contents(expected).contains(
                FileView { name: file.name@, size, sha256: sha256@ },
            ) {
                None
            } else {
                Some(ErrorView::Snapshot("快照文件校验失败："@ + file.name@))
            },
        }
    }
}

/// The error of the first found file that is not as expected.
pub open spec fn first_file_error(
    expected: Seq<ManifestFile>,
    actual: Seq<HashedFile>,
) -> Option<ErrorView>
    decreases actual.len(),
{
    if actual.len() == 0 {
        None
    } else {
        match first_file_error(expected, actual.drop_last()) {
            Some(error) => Some(error),
            None => file_error(expected, actual.last()),
        }
    }
}

/// Why the found files are not the expected set.
pub open spec fn file_set_error(
    expected: Seq<ManifestFile>,
    actual: Seq<HashedFile>,
) -> Option<ErrorView> {
    if !same_names(expected, actual) {
        Some(ErrorView::Snapshot("快照文件集合与清单不一致"@))
    } else {
        first_file_error(expected, actual)
    }
}

pub fn is_expected(expected: &Vec<ManifestFile>, name: &str) -> (yes: bool)
    ensures
        yes == expects(expected@, name@),
{
    let mut i: usize = 0;
    while i < expected.len()
        invariant
            i <= expected.len(),
            forall|j: int| 0 <= j < i ==> (#[trigger] expected@[j]).name@ != name@,
        decreases expected.len() - i,
    {
        if text::same_text(expected[i].name.as_str(), name) {
            return true;
        }
        i = i + 1;
    }
    false
}

pub fn is_found(actual: &Vec<HashedFile>, name: &str) -> (yes: bool)
    ensures
        yes == finds(actual@, name@),
{
    let mut i: usize = 0;
    while i < actual.len()
        invariant
            i <= actual.len(),
            forall|j: int| 0 <= j < i ==> (#[trigger] actual@[j]).name@ != name@,
        decreases actual.len() - i,
    {
        if text::same_text(actual[i].name.as_str(), name) {
            return true;
        }
        i = i + 1;
    }
    false
}

fn have_same_names(expected: &Vec<ManifestFile>, actual: &Vec<HashedFile>) -> (same: bool)
    ensures
        same == same_names(expected@, actual@),
{
    let mut i: usize = 0;
    while i < expected.len()
        invariant
            i <= expected.len(),
            forall|j: int| 0 <= j < i ==> finds(actual@, (#[trigger] expected@[j]).name@),
        decreases expected.len() - i,
    {
        if !is_found(actual, expected[i].name.as_str()) {
            return false;
        }
        i = i + 1;
    }
    let mut k: usize = 0;
    while k < actual.len()
        invariant
            k <= actual.len(),
            forall|j: int| 0 <= j < k ==> expects(expected@, (#[trigger] actual@[j]).name@),
        decreases actual.len() - k,
    {
        if !is_expected(expected, actual[k].name.as_str()) {
            return false;
        }
        k = k + 1;
    }
    true
}

fn have_different_names(files: &Vec<ManifestFile>) -> (differ: bool)
    ensures
        differ == names_differ(files@),
{
    let mut j: usize = 0;
    while j < files.len()
        invariant
            j <= files.len(),
            forall|a: int, b: int|
                0 <= a < b < j ==> (#[trigger] files@[a]).name@ != (#[trigger] files@[b]).name@,
        decreases files.len() - j,
    {
        let mut i: usize = 0;
        while i < j
            invariant
                i <= j < files.len(),
                forall|a: int| 0 <= a < i ==> (#[trigger] files@[a]).name@ != files@[j as int].name@,
            decreases j - i,
        {
            if text::same_text(files[i].name.as_str(), files[j].name.as_str()) {
                return false;
            }
            i = i + 1;
        }
        j = j + 1;
    }
    true
}

fn holds_file(expected: &Vec<ManifestFile>, name: &str, size: u64, sha256: &str) -> (yes: bool)
    ensures
        yes == contents(expected@).contains(FileView { name: name@, size, sha256: sha256@ }),
{
    let ghost wanted = FileView { name: name@, size, sha256: sha256@ };
    let mut i: usize = 0;
    while i < expected.len()
        invariant
            i <= expected.len(),
            wanted == (FileView { name: name@, size, sha256: sha256@ }),
            forall|j: int| 0 <= j < i ==> (#[trigger] file_views(expected@)[j]) != wanted,
        decreases expected.len() - i,
    {
        assert(file_views(expected@)[i as int] == expected@[i as int]@);
        if text::same_text(expected[i].name.as_str(), name) && expected[i].size == size
            && text::same_text(expected[i].sha256.as_str(), sha256) {
            assert(file_views(expected@).contains(wanted));
            return true;
        }
        i = i + 1;
    }
    assert(!file_views(expected@).contains(wanted));
    false
}

fn check_file(expected: &Vec<ManifestFile>, file: &HashedFile) -> (result: Result<(), AppError>)
    ensures
        match result {
            Ok(_) => file_error(expected@, *file) is None,
            Err(error) => file_error(expected@, *file) == Some(error@),
        },
{
    match validate_file_name(file.name.as_str()) {
        Ok(_) => {},
        Err(error) => {
            return Err(error);
        },
    }
    match &file.digest {
        Err(error) => Err(AppError::Snapshot(error.clone())),
        Ok((size, sha256)) => if holds_file(
            expected,
            file.name.as_str(),
            *size,
            sha256.as_str(),
        ) {
            Ok(())
        } else {
            Err(
                AppError::Snapshot(text::joined2("快照文件校验失败：", file.name.as_str())),
            )
        },
    }
}

/// Checks that a directory holds exactly the expected files. `directory` is what
/// came of checking its path, `actual` the files that were found in it.
pub fn validate_file_set(
    directory: Result<(), AppError>,
    expected: &Vec<ManifestFile>,
    actual: Result<Vec<HashedFile>, AppError>,
) -> (result: Result<(), AppError>)
    ensures
        match directory {
            Err(error) => result == Err::<(), AppError>(error),
            Ok(_) => if !names_differ(expected@) {
                result is Err && result->Err_0@ == ErrorView::Snapshot("快照清单包含重复文件名"@)
            } else {
                match actual {
                    Err(error) => result == Err::<(), AppError>(error),
                    Ok(actual) => match result {
                        Ok(_) => file_set_error(expected@, actual@) is None,
                        Err(error) => file_set_error(expected@, actual@) == Some(error@),
                    },
                }
            },
        },
{
    match directory {
        Ok(_) => {},
        Err(error) => {
            return Err(error);
        },
    }
    if !have_different_names(expected) {
        return Err(AppError::Snapshot("快照清单包含重复文件名".to_owned()));
    }
    let actual = match actual {
        Ok(actual) => actual,
        Err(error) => {
            return Err(error);
        },
    };
    if !have_same_names(expected, &actual) {
        return Err(AppError::Snapshot("快照文件集合与清单不一致".to_owned()));
    }
    let mut failure: Option<AppError> = None;
    let mut i: usize = 0;
    while i < actual.len()
        invariant
            i <= actual.len(),
            match failure {
                None => first_file_error(expected@, actual@.take(i as int)) is None,
                Some(error) => first_file_error(expected@, actual@.take(i as int)) == Some(error@),
            },
        decreases actual.len() - i,
    {
        assert(actual@.take(i + 1).drop_last() =~= actual@.take(i as int));
        assert(actual@.take(i + 1).last() == actual@[i as int]);
        if failure.is_none() {
            match check_file(expected, &actual[i]) {
                Ok(_) => {},
                Err(error) => {
                    failure = Some(error);
                },
            }
        }
        i = i + 1;
    }
    assert(actual@.take(i as int) =~= actual@);
    match failure {
        None => Ok(()),
        Some(error) => Err(error),
    }
}

/// A found file with its size and digest.
pub open spec fn found_view(file: HashedFile) -> FileView {
    FileView { name: file.name@, size: file.digest->Ok_0.0, sha256: file.digest->Ok_0.1@ }
}

/// What was found.
pub open spec fn found_contents(actual: Seq<HashedFile>) -> Set<FileView> {
    actual.map_values(|file: HashedFile| found_view(file)).to_set()
}

/// A set of files that passes the check holds exactly what the manifest says:
/// every file with its size and digest, and no other.
pub proof fn law_validated_files_are_those_of_the_manifest(
    expected: Seq<ManifestFile>,
    actual: Seq<HashedFile>,
)
    requires
        names_differ(expected),
        file_set_error(expected, actual) is None,
    ensures
        found_contents(actual) == contents(expected),
{
    lemma_no_file_error(expected, actual);
    let found = actual.map_values(|file: HashedFile| found_view(file));
    let wanted = file_views(expected);
    assert forall|file: FileView| found.to_set().contains(file) implies wanted.to_set().contains(
        file,
    ) by {
        let i = choose|i: int| 0 <= i < found.len() && found[i] == file;
        assert(file_error(expected, actual[i]) is None);
    }
    assert forall|file: FileView| wanted.to_set().contains(file) implies found.to_set().contains(
        file,
    ) by {
        let i = choose|i: int| 0 <= i < wanted.len() && wanted[i] == file;
        assert(finds(actual, expected[i].name@));
        let j = choose|j: int| 0 <= j < actual.len() && (#[trigger] actual[j]).name@
            == expected[i].name@;
        assert(file_error(expected, actual[j]) is None);
        assert(wanted.contains(found_view(actual[j])));
        let k = choose|k: int| 0 <= k < wanted.len() && wanted[k] == found_view(actual[j]);
        assert(expected[k].name@ == expected[i].name@);
        if k != i {
            if k < i {
                assert(expected[k].name@ != expected[i].name@);
            } else {
                assert(expected[i].name@ != expected[k].name@);
            }
        }
        assert(found[j] == file);
        assert(found.contains(file));
    }
    assert(found.to_set() =~= wanted.to_set());
}

proof fn lemma_no_file_error(expected: Seq<ManifestFile>, actual: Seq<HashedFile>)
    requires
        first_file_error(expected, actual) is None,
    ensures
        forall|i: int|
            0 <= i < actual.len() ==> file_error(expected, #[trigger] actual[i]) is None,
    decreases actual.len(),
{
    if actual.len() > 0 {
        lemma_no_file_error(expected, actual.drop_last());
        assert forall|i: int| 0 <= i < actual.len() implies file_error(
            expected,
            #[trigger] actual[i],
        ) is None by {
            if i < actual.len() - 1 {
                assert(actual.drop_last()[i] == actual[i]);
            }
        }
    }
}

/// Whether the files stand in the order of their names.
pub open spec fn sorted_by_name(files: Seq<ManifestFile>) -> bool {
    forall|i: int, j: int|
        0 <= i < j < files.len() ==> !text::text_less(
            (#[trigger] files[j]).name@,
            (#[trigger] files[i]).name@,
        )
}

/// The manifest of captured files, in the order of their names.
pub fn captured_file_set(files: Vec<ManifestFile>, created_at: u64) -> (manifest: FileSetManifest)
    ensures
        manifest.version == SNAPSHOT_VERSION,
        manifest.created_at == created_at,
        manifest.files@.to_multiset() == files@.to_multiset(),
        sorted_by_name(manifest.files@),
{
    let mut sorted: Vec<ManifestFile> = Vec::new();
    let mut i: usize = 0;
    assert(files@.take(0) =~= Seq::<ManifestFile>::empty());
    while i < files.len()
        invariant
            i <= files.len(),
            sorted@.to_multiset() == files@.take(i as int).to_multiset(),
            sorted_by_name(sorted@),
        decreases files.len() - i,
    {
        let ghost before = sorted@;
        let mut at: usize = sorted.len();
        while at > 0 && text::is_less(files[i].name.as_str(), sorted[at - 1].name.as_str())
            invariant
                i < files.len(),
                at <= sorted.len(),
                sorted@ == before,
                sorted_by_name(before),
                forall|j: int|
                    at <= j < sorted.len() ==> text::text_less(
                        files@[i as int].name@,
                        (#[trigger] sorted@[j]).name@,
                    ),
            decreases at,
        {
            at = at - 1;
        }
        let file = files[i].clone();
        proof {
            if at > 0 {
                assert forall|j: int| 0 <= j < at implies !text::text_less(
                    file.name@,
                    (#[trigger] before[j]).name@,
                ) by {
                    if j < at - 1 {
                        if text::text_less(file.name@, before[j].name@) {
                            text::lemma_text_order(before[j].name@, before[at - 1].name@);
                            if before[j].name@ != before[at - 1].name@ {
                                text::lemma_text_order_transitive(
                                    file.name@,
                                    before[j].name@,
                                    before[at - 1].name@,
                                );
                            }
                        }
                    }
                }
            }
        }
        sorted.insert(at, file);
        proof {
            assert forall|a: int, b: int| 0 <= a < b < sorted.len() implies !text::text_less(
                (#[trigger] sorted@[b]).name@,
                (#[trigger] sorted@[a]).name@,
            ) by {
                if b < at {
                    assert(sorted@[a] == before[a] && sorted@[b] == before[b]);
                } else if b == at {
                    assert(sorted@[a] == before[a]);
                } else if a < at {
                    assert(sorted@[a] == before[a] && sorted@[b] == before[b - 1]);
                } else if a == at {
                    assert(sorted@[b] == before[b - 1]);
                    text::lemma_text_order(file.name@, before[b - 1].name@);
                } else {
                    assert(sorted@[a] == before[a - 1] && sorted@[b] == before[b - 1]);
                }
            }
            assert(files@.take(i + 1) =~= files@.take(i as int).push(file));
            assert(sorted@ =~= before.insert(at as int, file));
            vstd::seq_lib::to_multiset_insert(before, at as int, file);
            vstd::seq_lib::to_multiset_build(files@.take(i as int), file);
        }
        i = i + 1;
    }
    assert(files@.take(i as int) =~= files@);
    FileSetManifest { version: SNAPSHOT_VERSION, created_at, files: sorted }
}

/// Whether the entry is a plain file of this name: a file that does not lead elsewhere.
pub open spec fn is_plain_file(entry: Result<EntryFacts, String>, name: Seq<char>) -> bool {
    &&& entry is Ok
    &&& entry->Ok_0.metadata is Ok
    &&& entry->Ok_0.metadata->Ok_0.is_file
    &&& entry->Ok_0.metadata->Ok_0.attributes & 0x400u32 == 0
    &&& entry->Ok_0.name is Some
    &&& entry->Ok_0.name->0@ == name
}

/// Whether the entry keeps its directory from being listed: it cannot be read or leads
/// elsewhere, or it is a file whose name is no text or may not stand in a set.
pub open spec fn spoils_listing(entry: Result<EntryFacts, String>) -> bool {
    ||| entry is Err
    ||| entry->Ok_0.metadata is Err
    ||| entry->Ok_0.metadata->Ok_0.attributes & 0x400u32 != 0
    ||| entry->Ok_0.metadata->Ok_0.is_file && (entry->Ok_0.name is None || !is_file_name(
        entry->Ok_0.name->0@,
    ))
}

/// A directory is listed exactly where no entry spoils it. Then every plain file in it is
/// listed under its name, and nothing else is; under each name stands the path of the last
/// entry that has it.
pub proof fn law_every_plain_file_is_listed(entries: Seq<Result<EntryFacts, String>>)
    ensures
        regular_files(entries) is Ok <==> forall|i: int|
            0 <= i < entries.len() ==> !spoils_listing(#[trigger] entries[i]),
        regular_files(entries) is Ok ==> {
            let files = regular_files(entries)->Ok_0;
            &&& forall|name: Seq<char>| #[trigger]
                files.contains_key(name) <==> exists|i: int|
                    0 <= i < entries.len() && is_plain_file(#[trigger] entries[i], name)
            &&& forall|name: Seq<char>, i: int|
                0 <= i < entries.len() && is_plain_file(#[trigger] entries[i], name) && (forall|j: int|
                    i < j < entries.len() ==> !is_plain_file(#[trigger] entries[j], name))
                    ==> #[trigger] files[name] == entries[i]->Ok_0.path@
        },
    decreases entries.len(),
{
    if entries.len() > 0 {
        let front = entries.drop_last();
        let last = entries.len() - 1;
        law_every_plain_file_is_listed(front);
        assert forall|i: int| 0 <= i < last implies front[i] == #[trigger] entries[i] by {}
        if regular_files(entries) is Ok {
            let files = regular_files(entries)->Ok_0;
            let earlier = regular_files(front)->Ok_0;
            assert forall|i: int| 0 <= i < entries.len() implies !spoils_listing(
                #[trigger] entries[i],
            ) by {
                if i < last {
                    assert(!spoils_listing(front[i]));
                }
            }
            assert forall|name: Seq<char>| #[trigger] files.contains_key(name) <==> exists|i: int|
                0 <= i < entries.len() && is_plain_file(#[trigger] entries[i], name) by {
                if files.contains_key(name) {
                    if earlier.contains_key(name) {
                        let i = choose|i: int|
                            0 <= i < front.len() && is_plain_file(#[trigger] front[i], name);
                        assert(is_plain_file(entries[i], name));
                    } else {
                        assert(is_plain_file(entries[last], name));
                    }
                }
                if exists|i: int|
                    0 <= i < entries.len() && is_plain_file(#[trigger] entries[i], name) {
                    let i = choose|i: int|
                        0 <= i < entries.len() && is_plain_file(#[trigger] entries[i], name);
                    if i < last {
                        assert(is_plain_file(front[i], name));
                    }
                }
            }
            assert forall|name: Seq<char>, i: int|
                0 <= i < entries.len() && is_plain_file(#[trigger] entries[i], name) && (forall|j: int|
                    i < j < entries.len() ==> !is_plain_file(#[trigger] entries[j], name)) implies
                #[trigger] files[name] == entries[i]->Ok_0.path@ by {
                if i < last {
                    assert(!is_plain_file(entries[last], name));
                    assert(is_plain_file(front[i], name));
                    assert forall|j: int| i < j < front.len() implies !is_plain_file(
                        #[trigger] front[j],
                        name,
                    ) by {
                        assert(!is_plain_file(entries[j], name));
                    }
                    assert(earlier[name] == front[i]->Ok_0.path@);
                }
            }
        } else {
            if forall|i: int| 0 <= i < entries.len() ==> !spoils_listing(#[trigger] entries[i]) {
                assert(!spoils_listing(entries[last]));
                assert forall|i: int| 0 <= i < front.len() implies !spoils_listing(
                    #[trigger] front[i],
                ) by {
                    assert(!spoils_listing(entries[i]));
                }
            }
        }
    }
}

/// Whether the found file has a valid name and could be read, and is one of those of the
/// manifest with its size and digest.
pub open spec fn is_as_listed(expected: Seq<ManifestFile>, file: HashedFile) -> bool {
    &&& is_file_name(file.name@)
    &&& file.digest is Ok
    &&& exists|i: int|
        0 <= i < expected.len() && (#[trigger] expected[i]).name@ == file.name@ && expected[i].size
            == file.digest->Ok_0.0 && expected[i].sha256@ == file.digest->Ok_0.1@
}

proof fn lemma_as_listed(expected: Seq<ManifestFile>, file: HashedFile)
    ensures
        file_error(expected, file) is None <==> is_as_listed(expected, file),
{
    if file.digest is Ok {
        let view = FileView {
            name: file.name@,
            size: file.digest->Ok_0.0,
            sha256: file.digest->Ok_0.1@,
        };
        let views = file_views(expected);
        if contents(expected).contains(view) {
            let i = choose|i: int| 0 <= i < views.len() && views[i] == view;
            assert(expected[i].name@ == file.name@);
        }
        if exists|i: int|
            0 <= i < expected.len() && (#[trigger] expected[i]).name@ == file.name@
                && expected[i].size == file.digest->Ok_0.0 && expected[i].sha256@
                == file.digest->Ok_0.1@ {
            let i = choose|i: int|
                0 <= i < expected.len() && (#[trigger] expected[i]).name@ == file.name@
                    && expected[i].size == file.digest->Ok_0.0 && expected[i].sha256@
                    == file.digest->Ok_0.1@;
            assert(views[i] == view);
        }
    }
}

proof fn lemma_all_as_listed(expected: Seq<ManifestFile>, actual: Seq<HashedFile>)
    ensures
        first_file_error(expected, actual) is None <==> forall|i: int|
            0 <= i < actual.len() ==> is_as_listed(expected, #[trigger] actual[i]),
    decreases actual.len(),
{
    if actual.len() > 0 {
        let front = actual.drop_last();
        lemma_all_as_listed(expected, front);
        lemma_as_listed(expected, actual.last());
        if first_file_error(expected, actual) is None {
            assert forall|i: int| 0 <= i < actual.len() implies is_as_listed(
                expected,
                #[trigger] actual[i],
            ) by {
                if i < front.len() {
                    assert(is_as_listed(expected, front[i]));
                }
            }
        }
        if forall|i: int| 0 <= i < actual.len() ==> is_as_listed(expected, #[trigger] actual[i]) {
            assert forall|i: int| 0 <= i < front.len() implies is_as_listed(
                expected,
                #[trigger] front[i],
            ) by {
                assert(is_as_listed(expected, actual[i]));
            }
            assert(is_as_listed(expected, actual[actual.len() - 1]));
        }
    }
}

/// A set of files passes the check exactly where every file of the manifest was found, and
/// every file that was found has a valid name, could be read, and is one of the manifest's
/// with its size and digest.
pub proof fn law_files_pass_exactly_where_they_are_the_listed_ones(
    expected: Seq<ManifestFile>,
    actual: Seq<HashedFile>,
)
    ensures
        file_set_error(expected, actual) is None <==> {
            &&& forall|i: int|
                0 <= i < expected.len() ==> finds(actual, (#[trigger] expected[i]).name@)
            &&& forall|i: int|
                0 <= i < actual.len() ==> is_as_listed(expected, #[trigger] actual[i])
        },
{
    lemma_all_as_listed(expected, actual);
    assert forall|i: int|
        0 <= i < actual.len() && is_as_listed(expected, #[trigger] actual[i]) implies expects(
        expected,
        actual[i].name@,
    ) by {}
}

} // verus!
