//! The application's own records: the accounts that the user has hidden and
//! the settings. The library says what a record means and what is to be
//! written; files are read and written outside.

use vstd::prelude::*;

use crate::contracts;
use crate::contracts::AccountKey;
use crate::contracts::AccountKeyView;
use crate::platform::macos::unix_path;
use crate::platform::windows::paths;
use crate::text;

verus! {

pub const HIDDEN_ACCOUNTS_VERSION: u8 = 1;

pub const SETTINGS_VERSION: u8 = 1;

/// An account that is not shown.
#[derive(Debug, Eq, Hash)]
pub struct HiddenAccountKey {
    pub environment: String,
    pub account_id: String,
}

impl View for HiddenAccountKey {
    type V = AccountKeyView;

    open spec fn view(&self) -> AccountKeyView {
        AccountKeyView { environment: self.environment@, account_id: self.account_id@ }
    }
}

impl Clone for HiddenAccountKey {
    fn clone(&self) -> (copy: Self)
        ensures
            copy == *self,
    {
        HiddenAccountKey {
            environment: self.environment.clone(),
            account_id: self.account_id.clone(),
        }
    }
}

impl PartialEq for HiddenAccountKey {
    fn eq(&self, other: &Self) -> (same: bool) {
        text::same_text(self.environment.as_str(), other.environment.as_str()) && text::same_text(
            self.account_id.as_str(),
            other.account_id.as_str(),
        )
    }
}

impl vstd::std_specs::cmp::PartialEqSpecImpl for HiddenAccountKey {
    open spec fn obeys_eq_spec() -> bool {
        true
    }

    open spec fn eq_spec(&self, other: &Self) -> bool {
        self@ == other@
    }
}

impl From<&AccountKey> for HiddenAccountKey {
    fn from(value: &AccountKey) -> (key: Self) {
        HiddenAccountKey {
            environment: value.environment.clone(),
            account_id: value.account_id.clone(),
        }
    }
}

impl vstd::std_specs::convert::FromSpecImpl<&AccountKey> for HiddenAccountKey {
    open spec fn obeys_from_spec() -> bool {
        true
    }

    open spec fn from_spec(value: &AccountKey) -> HiddenAccountKey {
        HiddenAccountKey { environment: value.environment, account_id: value.account_id }
    }
}

impl HiddenAccountKey {
    fn is_before(&self, other: &HiddenAccountKey) -> (before: bool)
        ensures
            before == self@.less(other@),
    {
        text::is_less(self.environment.as_str(), other.environment.as_str()) || (text::same_text(
            self.environment.as_str(),
            other.environment.as_str(),
        ) && text::is_less(self.account_id.as_str(), other.account_id.as_str()))
    }
}

/// The accounts as character sequences.
pub open spec fn key_views(accounts: Seq<HiddenAccountKey>) -> Seq<AccountKeyView> {
    accounts.map_values(|account: HiddenAccountKey| account@)
}

/// Whether the accounts stand in ascending order, none of them twice.
pub open spec fn ascending(keys: Seq<AccountKeyView>) -> bool {
    forall|i: int, j: int| 0 <= i < j < keys.len() ==> #[trigger] keys[i].less(#[trigger] keys[j])
}

/// Putting an account in its place keeps the order.
pub proof fn lemma_ascending_insert(keys: Seq<AccountKeyView>, at: int, key: AccountKeyView)
    requires
        ascending(keys),
        0 <= at <= keys.len(),
        forall|i: int| 0 <= i < at ==> keys[i].less(key),
        forall|i: int| at <= i < keys.len() ==> key.less(keys[i]),
    ensures
        ascending(keys.insert(at, key)),
        keys.insert(at, key).to_set() == keys.to_set().insert(key),
{
    let longer = keys.insert(at, key);
    assert forall|i: int, j: int| 0 <= i < j < longer.len() implies #[trigger] longer[i].less(
        #[trigger] longer[j],
    ) by {
        if j < at {
            assert(longer[i] == keys[i] && longer[j] == keys[j]);
        } else if j == at {
            assert(longer[i] == keys[i]);
        } else if i < at {
            assert(longer[i] == keys[i] && longer[j] == keys[j - 1]);
        } else if i == at {
            assert(longer[j] == keys[j - 1]);
        } else {
            assert(longer[i] == keys[i - 1] && longer[j] == keys[j - 1]);
        }
    }
    assert(longer.to_set() =~= keys.to_set().insert(key)) by {
        assert forall|k: AccountKeyView|
            longer.to_set().contains(k) == keys.to_set().insert(key).contains(k) by {
            if keys.contains(k) {
                let i = choose|i: int| 0 <= i < keys.len() && keys[i] == k;
                if i < at {
                    assert(longer[i] == k);
                } else {
                    assert(longer[i + 1] == k);
                }
            }
            if longer.contains(k) {
                let i = choose|i: int| 0 <= i < longer.len() && longer[i] == k;
                if i < at {
                    assert(keys[i] == k);
                } else if i > at {
                    assert(keys[i - 1] == k);
                }
            }
            assert(longer[at] == key);
        }
    }
}

/// Whether `key` is one of the first `count` keys that `shown` does not hold.
spec fn kept(
    keys: Seq<AccountKeyView>,
    shown: Set<AccountKeyView>,
    count: int,
    key: AccountKeyView,
) -> bool {
    !shown.contains(key) && exists|k: int| 0 <= k < count && #[trigger] keys[k] == key
}

/// The set of hidden accounts, kept in ascending order.
#[derive(Debug)]
pub struct HiddenAccounts {
    accounts: Vec<HiddenAccountKey>,
}

impl View for HiddenAccounts {
    type V = Set<AccountKeyView>;

    closed spec fn view(&self) -> Set<AccountKeyView> {
        key_views(self.accounts@).to_set()
    }
}

impl HiddenAccounts {
    #[verifier::type_invariant]
    closed spec fn in_order(self) -> bool {
        ascending(key_views(self.accounts@))
    }

    /// No hidden account.
    pub fn new() -> (hidden: HiddenAccounts)
        ensures
            hidden@ == Set::<AccountKeyView>::empty(),
    {
        let accounts: Vec<HiddenAccountKey> = Vec::new();
        assert(key_views(accounts@).to_set() =~= Set::<AccountKeyView>::empty());
        HiddenAccounts { accounts }
    }

    /// Whether the account is hidden.
    pub fn contains(&self, key: &HiddenAccountKey) -> (found: bool)
        ensures
            found == self@.contains(key@),
    {
        let mut i: usize = 0;
        while i < self.accounts.len()
            invariant
                i <= self.accounts.len(),
                forall|j: int| 0 <= j < i ==> self.accounts@[j]@ != key@,
            decreases self.accounts.len() - i,
        {
            if self.accounts[i] == *key {
                assert(key_views(self.accounts@)[i as int] == key@);
                return true;
            }
            i = i + 1;
        }
        assert(!key_views(self.accounts@).contains(key@));
        false
    }

    /// The hidden accounts and `key`.
    pub fn with(self, key: HiddenAccountKey) -> (hidden: HiddenAccounts)
        ensures
            hidden@ == self@.insert(key@),
    {
        proof {
            use_type_invariant(&self);
        }
        let mut accounts = self.accounts;
        let ghost keys = key_views(accounts@);
        let mut at: usize = 0;
        while at < accounts.len() && accounts[at].is_before(&key)
            invariant
                at <= accounts.len(),
                forall|j: int| 0 <= j < at ==> accounts@[j]@.less(key@),
            decreases accounts.len() - at,
        {
            at = at + 1;
        }
        if at < accounts.len() && accounts[at] == key {
            assert(keys[at as int] == key@);
            assert(keys.to_set().insert(key@) =~= keys.to_set());
            return HiddenAccounts { accounts };
        }
        proof {
            assert forall|i: int| at <= i < keys.len() implies key@.less(keys[i]) by {
                contracts::lemma_account_order(key@, keys[at as int]);
                if i > at {
                    contracts::lemma_account_order_transitive(key@, keys[at as int], keys[i]);
                }
            }
            lemma_ascending_insert(keys, at as int, key@);
        }
        accounts.insert(at, key);
        assert(key_views(accounts@) =~= keys.insert(at as int, key@));
        HiddenAccounts { accounts }
    }

    /// The hidden accounts that `shown` does not hold, and whether these are
    /// fewer.
    fn filtered(&self, shown: &HiddenAccounts) -> (filtered: (HiddenAccounts, bool))
        ensures
            filtered.0@ == self@.difference(shown@),
            filtered.1 == (self@.difference(shown@) != self@),
    {
        proof {
            use_type_invariant(self);
        }
        let ghost keys = key_views(self.accounts@);
        let mut accounts: Vec<HiddenAccountKey> = Vec::new();
        let mut fewer = false;
        let mut i: usize = 0;
        while i < self.accounts.len()
            invariant
                i <= self.accounts.len(),
                keys == key_views(self.accounts@),
                ascending(keys),
                ascending(key_views(accounts@)),
                forall|j: int|
                    0 <= j < accounts.len() ==> kept(keys, shown@, i as int, accounts@[j]@),
                forall|k: int|
                    0 <= k < i && !shown@.contains(#[trigger] keys[k]) ==> key_views(
                        accounts@,
                    ).contains(keys[k]),
                fewer == exists|k: int| 0 <= k < i && shown@.contains(#[trigger] keys[k]),
            decreases self.accounts.len() - i,
        {
            let ghost before = accounts@;
            assert(keys[i as int] == self.accounts@[i as int]@);
            if shown.contains(&self.accounts[i]) {
                fewer = true;
            } else {
                accounts.push(self.accounts[i].clone());
                proof {
                    let longer = key_views(accounts@);
                    assert forall|a: int, b: int| 0 <= a < b < longer.len() implies #[trigger] longer[a].less(
                        #[trigger] longer[b],
                    ) by {
                        assert(longer[a] == key_views(before)[a]);
                        if b < before.len() {
                            assert(longer[b] == key_views(before)[b]);
                        } else {
                            assert(kept(keys, shown@, i as int, before[a]@));
                            let k = choose|k: int| 0 <= k < i && #[trigger] keys[k] == before[a]@;
                            assert(keys[k].less(keys[i as int]));
                        }
                    }
                    assert forall|j: int| 0 <= j < accounts.len() implies kept(
                        keys,
                        shown@,
                        i + 1,
                        accounts@[j]@,
                    ) by {
                        if j < before.len() {
                            assert(kept(keys, shown@, i as int, before[j]@));
                            let k = choose|k: int| 0 <= k < i && #[trigger] keys[k] == before[j]@;
                            assert(keys[k] == accounts@[j]@);
                        } else {
                            assert(keys[i as int] == accounts@[j]@);
                        }
                    }
                    assert forall|k: int|
                        0 <= k < i + 1 && !shown@.contains(#[trigger] keys[k]) implies longer.contains(
                        keys[k],
                    ) by {
                        if k < i {
                            let b = choose|b: int|
                                0 <= b < before.len() && key_views(before)[b] == keys[k];
                            assert(longer[b] == keys[k]);
                        } else {
                            assert(longer[before.len() as int] == keys[k]);
                        }
                    }
                }
            }
            i = i + 1;
        }
        let result = HiddenAccounts { accounts };
        proof {
            let rest = key_views(result.accounts@);
            assert forall|k: AccountKeyView| rest.to_set().contains(k) == self@.difference(
                shown@,
            ).contains(k) by {
                if rest.contains(k) {
                    let j = choose|j: int| 0 <= j < rest.len() && rest[j] == k;
                    assert(result.accounts@[j]@ == k);
                    assert(kept(keys, shown@, i as int, result.accounts@[j]@));
                    let a = choose|a: int| 0 <= a < i && #[trigger] keys[a] == k;
                    assert(keys.contains(k));
                }
                if keys.contains(k) && !shown@.contains(k) {
                    let a = choose|a: int| 0 <= a < keys.len() && keys[a] == k;
                    assert(rest.contains(keys[a]));
                }
            }
            assert(rest.to_set() =~= self@.difference(shown@));
            if fewer {
                let k = choose|k: int| 0 <= k < i && shown@.contains(#[trigger] keys[k]);
                assert(keys.contains(keys[k]));
                assert(self@.contains(keys[k]));
            } else {
                assert(self@.difference(shown@) =~= self@) by {
                    assert forall|k: AccountKeyView| self@.contains(k) implies !shown@.contains(
                        k,
                    ) by {
                        let a = choose|a: int| 0 <= a < keys.len() && keys[a] == k;
                        assert(!shown@.contains(keys[a]));
                    }
                }
            }
        }
        (result, fewer)
    }

    /// The hidden accounts without `key`.
    pub fn without(&self, key: &HiddenAccountKey) -> (hidden: HiddenAccounts)
        ensures
            hidden@ == self@.remove(key@),
    {
        let only = HiddenAccounts::new().with(key.clone());
        let rest = self.filtered(&only).0;
        assert(self@.difference(only@) =~= self@.remove(key@));
        rest
    }

    /// The hidden accounts in ascending order.
    pub fn to_sorted(&self) -> (accounts: Vec<HiddenAccountKey>)
        ensures
            ascending(key_views(accounts@)),
            key_views(accounts@).to_set() == self@,
    {
        proof {
            use_type_invariant(self);
        }
        let mut accounts: Vec<HiddenAccountKey> = Vec::new();
        let mut i: usize = 0;
        while i < self.accounts.len()
            invariant
                i <= self.accounts.len(),
                accounts@ == self.accounts@.take(i as int),
            decreases self.accounts.len() - i,
        {
            accounts.push(self.accounts[i].clone());
            assert(self.accounts@.take(i + 1) =~= self.accounts@.take(i as int).push(
                self.accounts@[i as int],
            ));
            i = i + 1;
        }
        assert(accounts@ =~= self.accounts@);
        accounts
    }

    /// The set of the given accounts.
    pub fn collected(accounts: &Vec<HiddenAccountKey>) -> (hidden: HiddenAccounts)
        ensures
            hidden@ == key_views(accounts@).to_set(),
    {
        let mut hidden = HiddenAccounts::new();
        let mut i: usize = 0;
        assert(key_views(accounts@.take(0)).to_set() =~= Set::<AccountKeyView>::empty());
        while i < accounts.len()
            invariant
                i <= accounts.len(),
                hidden@ == key_views(accounts@.take(i as int)).to_set(),
            decreases accounts.len() - i,
        {
            let ghost shorter = key_views(accounts@.take(i as int));
            let ghost longer = key_views(accounts@.take(i + 1));
            hidden = hidden.with(accounts[i].clone());
            proof {
                assert(longer =~= shorter.push(accounts@[i as int]@));
                assert(longer.to_set() =~= shorter.to_set().insert(accounts@[i as int]@)) by {
                    assert forall|k: AccountKeyView| longer.contains(k) == (shorter.contains(k)
                        || k == accounts@[i as int]@) by {
                        if shorter.contains(k) {
                            let j = choose|j: int| 0 <= j < shorter.len() && shorter[j] == k;
                            assert(longer[j] == k);
                        }
                        assert(longer[i as int] == accounts@[i as int]@);
                    }
                }
            }
            i = i + 1;
        }
        assert(accounts@.take(i as int) =~= accounts@);
        hidden
    }
}

impl Clone for HiddenAccounts {
    fn clone(&self) -> (copy: Self)
        ensures
            copy@ == self@,
    {
        HiddenAccounts::collected(&self.to_sorted())
    }
}

/// The settings record.
#[derive(Debug)]
pub struct SettingsDocument {
    pub version: u8,
    pub client_executable_path: Option<String>,
}

impl Clone for SettingsDocument {
    fn clone(&self) -> (copy: Self)
        ensures
            copy == *self,
    {
        SettingsDocument {
            version: self.version,
            client_executable_path: self.client_executable_path.clone(),
        }
    }
}

/// The record of the hidden accounts.
#[derive(Debug)]
pub struct HiddenAccountsDocument {
    pub version: u8,
    pub accounts: Vec<HiddenAccountKey>,
}

/// What was found where a record is kept.
#[derive(Debug)]
pub enum StoredDocument<T> {
    /// There is no file.
    Missing,
    /// The file cannot be read.
    Unreadable(String),
    /// The file is not a record of this kind.
    Invalid(String),
    Present(T),
}

/// What came of writing a record.
#[derive(Debug)]
pub enum WrittenDocument {
    Done,
    /// The record could not be turned into text.
    NotGenerated(String),
    /// The file could not be written.
    NotWritten(String),
}

/// The hidden accounts that remain once detected accounts are shown again, and
/// the record to be written where they are fewer than before.
#[derive(Debug)]
pub struct RestoredAccounts {
    pub hidden: HiddenAccounts,
    pub document: Option<HiddenAccountsDocument>,
}

/// Where the application keeps its records.
#[derive(Debug)]
pub struct DataStore {
    data_directory: String,
    hidden_accounts_path: String,
    settings_path: String,
}

/// A part of the path of the application's directory, with its attributes.
#[derive(Debug)]
pub struct DirectoryPart {
    pub path: String,
    pub attributes: Result<u32, String>,
}

/// Why a part of the path keeps the application from using its directory.
pub open spec fn directory_part_error(part: DirectoryPart) -> Option<Seq<char>> {
    match part.attributes {
        Err(error) => Some("无法读取便携目录属性 "@ + part.path@ + "："@ + error@),
        Ok(attributes) => if crate::platform::windows::paths::redirects(attributes) {
            Some("程序目录或应用数据目录不能经过符号链接或联接点："@ + part.path@)
        } else {
            None
        },
    }
}

/// Why the parts keep the application from using its directory: what is wrong with
/// the first of them.
pub open spec fn directory_error(parts: Seq<DirectoryPart>) -> Option<Seq<char>>
    decreases parts.len(),
{
    if parts.len() == 0 {
        None
    } else {
        match directory_error(parts.drop_last()) {
            Some(error) => Some(error),
            None => directory_part_error(parts.last()),
        }
    }
}

/// Checks that no part of the path of the application's directory is a redirection;
/// the parts come from the directory itself upwards.
pub fn reject_reparse_data_directory(parts: &Vec<DirectoryPart>) -> (result: Result<(), String>)
    ensures
        match result {
            Ok(_) => directory_error(parts@) is None,
            Err(error) => directory_error(parts@) == Some(error@),
        },
{
    let mut failure: Option<String> = None;
    let mut i: usize = 0;
    while i < parts.len()
        invariant
            i <= parts.len(),
            match failure {
                None => directory_error(parts@.take(i as int)) is None,
                Some(error) => directory_error(parts@.take(i as int)) == Some(error@),
            },
        decreases parts.len() - i,
    {
        assert(parts@.take(i + 1).drop_last() =~= parts@.take(i as int));
        if failure.is_none() {
            let part = &parts[i];
            match &part.attributes {
                Err(error) => {
                    failure = Some(
                        text::joined4(
                            "无法读取便携目录属性 ",
                            part.path.as_str(),
                            "：",
                            error.as_str(),
                        ),
                    );
                },
                Ok(attributes) => {
                    if crate::platform::windows::paths::is_reparse_point(*attributes) {
                        failure = Some(
                            text::joined2(
                                "程序目录或应用数据目录不能经过符号链接或联接点：",
                                part.path.as_str(),
                            ),
                        );
                    }
                },
            }
        }
        i = i + 1;
    }
    assert(parts@.take(i as int) =~= parts@);
    match failure {
        None => Ok(()),
        Some(error) => Err(error),
    }
}

/// The name of the file by which it is tried whether a directory can be written to.
pub fn write_probe_name(process_id: u32, now: u64) -> (name: String)
    ensures
        name@ == ".write-test-"@ + text::decimal(process_id as nat) + "-"@ + text::decimal(
            now as nat,
        ),
{
    text::joined4(
        ".write-test-",
        text::decimal_text(process_id as u64).as_str(),
        "-",
        text::decimal_text(now).as_str(),
    )
}

/// What came of trying to write to the application's directory; `guidance` is the
/// advice where that failed.
pub fn verify_writable(directory: &str, guidance: &str, written: Result<(), String>) -> (result:
    Result<(), String>)
    ensures
        match written {
            Ok(_) => result is Ok,
            Err(error) => result is Err && result->Err_0@ == "应用数据目录不可写。"@ + guidance@
                + "："@ + directory@ + ("（"@ + error@ + "）"@),
        },
{
    match written {
        Ok(_) => Ok(()),
        Err(error) => {
            let reason = text::joined3("（", error.as_str(), "）");
            Err(
                text::joined5(
                    "应用数据目录不可写。",
                    guidance,
                    "：",
                    directory,
                    reason.as_str(),
                ),
            )
        },
    }
}

/// The hidden accounts that the stored record holds, or why there are none.
pub open spec fn loaded_hidden_accounts(
    path: Seq<char>,
    stored: StoredDocument<HiddenAccountsDocument>,
) -> Result<Set<AccountKeyView>, Seq<char>> {
    match stored {
        StoredDocument::Missing => Ok(Set::empty()),
        StoredDocument::Unreadable(error) => Err(
            "无法读取隐藏账号记录 "@ + path + "："@ + error@,
        ),
        StoredDocument::Invalid(error) => Err("隐藏账号记录格式无效："@ + error@),
        StoredDocument::Present(document) => if document.version != HIDDEN_ACCOUNTS_VERSION {
            Err("不支持的隐藏账号记录版本："@ + text::decimal(document.version as nat))
        } else {
            Ok(key_views(document.accounts@).to_set())
        },
    }
}

/// Why the hidden accounts could not be saved.
pub open spec fn hidden_accounts_error(written: WrittenDocument) -> Option<Seq<char>> {
    match written {
        WrittenDocument::Done => None,
        WrittenDocument::NotGenerated(error) => Some("无法生成隐藏账号记录："@ + error@),
        WrittenDocument::NotWritten(error) => Some("无法保存隐藏账号记录："@ + error@),
    }
}

/// Why the settings could not be saved.
pub open spec fn settings_error(written: WrittenDocument) -> Option<Seq<char>> {
    match written {
        WrittenDocument::Done => None,
        WrittenDocument::NotGenerated(error) => Some("无法生成设置："@ + error@),
        WrittenDocument::NotWritten(error) => Some("无法保存设置："@ + error@),
    }
}

/// The document that is written for the hidden accounts.
pub open spec fn is_document_of(
    document: HiddenAccountsDocument,
    hidden: Set<AccountKeyView>,
) -> bool {
    &&& document.version == HIDDEN_ACCOUNTS_VERSION
    &&& ascending(key_views(document.accounts@))
    &&& key_views(document.accounts@).to_set() == hidden
}

/// The file of the given name in a directory; `separator` is the one of the system.
pub open spec fn file_in(directory: Seq<char>, separator: Seq<char>, name: Seq<char>) -> Seq<char> {
    if separator == "/"@ {
        unix_path::adjoined(directory, name)
    } else {
        paths::adjoined(directory, name)
    }
}

impl View for DataStore {
    type V = DataStore;

    open spec fn view(&self) -> DataStore {
        *self
    }
}

impl DataStore {
    /// The directory of the records.
    pub closed spec fn directory(self) -> Seq<char> {
        self.data_directory@
    }

    /// The file of the hidden accounts.
    pub closed spec fn hidden_accounts_file(self) -> Seq<char> {
        self.hidden_accounts_path@
    }

    /// The file of the settings.
    pub closed spec fn settings_file(self) -> Seq<char> {
        self.settings_path@
    }

    /// The store in the directory `data_directory`; `separator` is the one that the
    /// system puts between the parts of a path.
    pub fn at(data_directory: String, separator: &str) -> (store: DataStore)
        ensures
            store.directory() == data_directory@,
            store.hidden_accounts_file() == file_in(
                data_directory@,
                separator@,
                "hidden-accounts.json"@,
            ),
            store.settings_file() == file_in(data_directory@, separator@, "settings.json"@),
    {
        let unix = text::same_text(separator, "/");
        let (hidden_accounts_path, settings_path) = if unix {
            (
                unix_path::join(data_directory.as_str(), "hidden-accounts.json"),
                unix_path::join(data_directory.as_str(), "settings.json"),
            )
        } else {
            (
                paths::join(data_directory.as_str(), "hidden-accounts.json"),
                paths::join(data_directory.as_str(), "settings.json"),
            )
        };
        DataStore { data_directory, hidden_accounts_path, settings_path }
    }

    /// The store beside the executable.
    pub fn open_for_windows(application_directory: &str) -> (store: DataStore)
        ensures
            store.directory() == paths::adjoined(application_directory@, "BnetSwitchLiteData"@),
            store.hidden_accounts_file() == paths::adjoined(
                store.directory(),
                "hidden-accounts.json"@,
            ),
            store.settings_file() == paths::adjoined(store.directory(), "settings.json"@),
    {
        proof {
            reveal_strlit("\\");
            reveal_strlit("/");
            assert("\\"@[0] != "/"@[0]);
        }
        DataStore::at(paths::join(application_directory, "BnetSwitchLiteData"), "\\")
    }

    /// The store in the user's `Application Support` directory.
    pub fn open_for_macos(application_support: &str) -> (store: DataStore)
        ensures
            store.directory() == unix_path::adjoined(application_support@, "BnetSwitchLite"@),
            store.hidden_accounts_file() == unix_path::adjoined(
                store.directory(),
                "hidden-accounts.json"@,
            ),
            store.settings_file() == unix_path::adjoined(store.directory(), "settings.json"@),
    {
        DataStore::at(unix_path::join(application_support, "BnetSwitchLite"), "/")
    }

    /// The directory of the records.
    pub fn data_directory(&self) -> (directory: &str)
        ensures
            directory@ == self.directory(),
    {
        self.data_directory.as_str()
    }

    /// The file of the hidden accounts.
    pub fn hidden_accounts_path(&self) -> (path: &str)
        ensures
            path@ == self.hidden_accounts_file(),
    {
        self.hidden_accounts_path.as_str()
    }

    /// The file of the settings.
    pub fn settings_path(&self) -> (path: &str)
        ensures
            path@ == self.settings_file(),
    {
        self.settings_path.as_str()
    }

    /// The hidden accounts that the stored record holds.
    pub fn load_hidden_accounts(
        &self,
        stored: &StoredDocument<HiddenAccountsDocument>,
    ) -> (hidden: Result<HiddenAccounts, String>)
        ensures
            match hidden {
                Ok(hidden) => loaded_hidden_accounts(self.hidden_accounts_file(), *stored) == Ok::<
                    Set<AccountKeyView>,
                    Seq<char>,
                >(hidden@),
                Err(error) => loaded_hidden_accounts(self.hidden_accounts_file(), *stored) == Err::<
                    Set<AccountKeyView>,
                    Seq<char>,
                >(error@),
            },
    {
        match stored {
            StoredDocument::Missing => Ok(HiddenAccounts::new()),
            StoredDocument::Unreadable(error) => Err(
                text::joined4(
                    "无法读取隐藏账号记录 ",
                    self.hidden_accounts_path.as_str(),
                    "：",
                    error.as_str(),
                ),
            ),
            StoredDocument::Invalid(error) => Err(
                text::joined2("隐藏账号记录格式无效：", error.as_str()),
            ),
            StoredDocument::Present(document) => {
                if document.version != HIDDEN_ACCOUNTS_VERSION {
                    return Err(
                        text::joined2(
                            "不支持的隐藏账号记录版本：",
                            text::decimal_text(document.version as u64).as_str(),
                        ),
                    );
                }
                Ok(HiddenAccounts::collected(&document.accounts))
            },
        }
    }

    /// The record to be written for the hidden accounts.
    pub fn save_hidden_accounts(&self, hidden_accounts: &HiddenAccounts) -> (document:
        HiddenAccountsDocument)
        ensures
            is_document_of(document, hidden_accounts@),
    {
        HiddenAccountsDocument {
            version: HIDDEN_ACCOUNTS_VERSION,
            accounts: hidden_accounts.to_sorted(),
        }
    }

    /// What came of saving the hidden accounts.
    pub fn saved_hidden_accounts(&self, written: &WrittenDocument) -> (result: Result<(), String>)
        ensures
            match (result, hidden_accounts_error(*written)) {
                (Ok(_), None) => true,
                (Err(error), Some(message)) => error@ == message,
                _ => false,
            },
    {
        match written {
            WrittenDocument::Done => Ok(()),
            WrittenDocument::NotGenerated(error) => Err(
                text::joined2("无法生成隐藏账号记录：", error.as_str()),
            ),
            WrittenDocument::NotWritten(error) => Err(
                text::joined2("无法保存隐藏账号记录：", error.as_str()),
            ),
        }
    }

    /// Shows the detected accounts again: of the accounts that the stored record
    /// hides, those that were not detected stay hidden. Where that changes the
    /// record, the new one is returned with them.
    pub fn restore_detected_accounts(
        &self,
        detected_accounts: &Vec<HiddenAccountKey>,
        stored: &StoredDocument<HiddenAccountsDocument>,
    ) -> (restored: Result<RestoredAccounts, String>)
        ensures
            match (restored, loaded_hidden_accounts(self.hidden_accounts_file(), *stored)) {
                (Ok(restored), Ok(hidden)) => {
                    let remaining = hidden.difference(key_views(detected_accounts@).to_set());
                    &&& restored.hidden@ == remaining
                    &&& restored.document is Some == (remaining != hidden)
                    &&& restored.document is Some ==> is_document_of(
                        restored.document->0,
                        remaining,
                    )
                },
                (Err(error), Err(message)) => error@ == message,
                _ => false,
            },
    {
        let detected = HiddenAccounts::collected(detected_accounts);
        let hidden = match self.load_hidden_accounts(stored) {
            Ok(hidden) => hidden,
            Err(error) => {
                return Err(error);
            },
        };
        let (remaining, fewer) = hidden.filtered(&detected);
        let document = if fewer {
            Some(self.save_hidden_accounts(&remaining))
        } else {
            None
        };
        Ok(RestoredAccounts { hidden: remaining, document })
    }

    /// The settings that the stored record holds.
    pub fn load_settings(&self, stored: StoredDocument<SettingsDocument>) -> (settings: Result<
        SettingsDocument,
        String,
    >)
        ensures
            match stored {
                StoredDocument::Missing => settings == Ok::<SettingsDocument, String>(
                    SettingsDocument { version: SETTINGS_VERSION, client_executable_path: None },
                ),
                StoredDocument::Unreadable(error) => settings is Err && settings->Err_0@
                    == "无法读取设置："@ + error@,
                StoredDocument::Invalid(error) => settings is Err && settings->Err_0@
                    == "设置文件格式无效："@ + error@,
                StoredDocument::Present(document) => if document.version != SETTINGS_VERSION {
                    settings is Err && settings->Err_0@ == "不支持的设置文件版本："@
                        + text::decimal(document.version as nat)
                } else {
                    settings == Ok::<SettingsDocument, String>(document)
                },
            },
    {
        match stored {
            StoredDocument::Missing => Ok(
                SettingsDocument { version: SETTINGS_VERSION, client_executable_path: None },
            ),
            StoredDocument::Unreadable(error) => Err(
                text::joined2("无法读取设置：", error.as_str()),
            ),
            StoredDocument::Invalid(error) => Err(
                text::joined2("设置文件格式无效：", error.as_str()),
            ),
            StoredDocument::Present(document) => {
                if document.version != SETTINGS_VERSION {
                    return Err(
                        text::joined2(
                            "不支持的设置文件版本：",
                            text::decimal_text(document.version as u64).as_str(),
                        ),
                    );
                }
                Ok(document)
            },
        }
    }

    /// What came of saving the settings.
    pub fn saved_settings(&self, written: &WrittenDocument) -> (result: Result<(), String>)
        ensures
            match (result, settings_error(*written)) {
                (Ok(_), None) => true,
                (Err(error), Some(message)) => error@ == message,
                _ => false,
            },
    {
        match written {
            WrittenDocument::Done => Ok(()),
            WrittenDocument::NotGenerated(error) => Err(
                text::joined2("无法生成设置：", error.as_str()),
            ),
            WrittenDocument::NotWritten(error) => Err(
                text::joined2("无法保存设置：", error.as_str()),
            ),
        }
    }
}

/// Reading back the record that was written for hidden accounts gives the same
/// accounts.
pub proof fn law_hidden_accounts_round_trip(
    path: Seq<char>,
    hidden: Set<AccountKeyView>,
    document: HiddenAccountsDocument,
)
    requires
        is_document_of(document, hidden),
    ensures
        loaded_hidden_accounts(path, StoredDocument::Present(document)) == Ok::<
            Set<AccountKeyView>,
            Seq<char>,
        >(hidden),
{
}

/// There is one order in which the hidden accounts are written: two records of
/// the same accounts list them alike.
pub proof fn law_written_order_is_unique(
    hidden: Set<AccountKeyView>,
    first: HiddenAccountsDocument,
    second: HiddenAccountsDocument,
)
    requires
        is_document_of(first, hidden),
        is_document_of(second, hidden),
    ensures
        key_views(first.accounts@) == key_views(second.accounts@),
{
    lemma_ascending_is_unique(key_views(first.accounts@), key_views(second.accounts@));
}

/// Ascending lists of the same accounts are the same.
pub proof fn lemma_ascending_is_unique(first: Seq<AccountKeyView>, second: Seq<AccountKeyView>)
    requires
        ascending(first),
        ascending(second),
        first.to_set() == second.to_set(),
    ensures
        first == second,
    decreases first.len(),
{
    if first.len() == 0 {
        if second.len() > 0 {
            assert(second.contains(second[0]));
            assert(second.to_set().contains(second[0]));
            assert(first.contains(second[0]));
        }
        assert(first =~= second);
    } else {
        assert(first.contains(first[0]));
        assert(first.to_set().contains(first[0]));
        assert(second.contains(first[0]));
        assert(second.contains(second[0]));
        assert(second.to_set().contains(second[0]));
        assert(first.contains(second[0]));
        let i = choose|i: int| 0 <= i < second.len() && second[i] == first[0];
        let j = choose|j: int| 0 <= j < first.len() && first[j] == second[0];
        contracts::lemma_account_order(first[0], second[0]);
        assert(first[0] == second[0]);
        let a = first.subrange(1, first.len() as int);
        let b = second.subrange(1, second.len() as int);
        assert(a.to_set() =~= b.to_set()) by {
            assert forall|k: AccountKeyView| a.contains(k) == b.contains(k) by {
                if a.contains(k) {
                    let x = choose|x: int| 0 <= x < a.len() && a[x] == k;
                    assert(first[x + 1] == k);
                    assert(first[0].less(first[x + 1]));
                    contracts::lemma_account_order(first[0], k);
                    assert(first.to_set().contains(k));
                    assert(second.contains(k));
                    let y = choose|y: int| 0 <= y < second.len() && second[y] == k;
                    assert(b[y - 1] == k);
                }
                if b.contains(k) {
                    let x = choose|x: int| 0 <= x < b.len() && b[x] == k;
                    assert(second[x + 1] == k);
                    assert(second[0].less(second[x + 1]));
                    contracts::lemma_account_order(second[0], k);
                    assert(second.to_set().contains(k));
                    assert(first.contains(k));
                    let y = choose|y: int| 0 <= y < first.len() && first[y] == k;
                    assert(a[y - 1] == k);
                }
            }
        }
        lemma_ascending_is_unique(a, b);
        assert(first =~= seq![first[0]] + a);
        assert(second =~= seq![second[0]] + b);
    }
}

/// The settings that the stored record holds, or why there are none.
pub open spec fn loaded_settings(stored: StoredDocument<SettingsDocument>) -> Result<
    SettingsDocument,
    Seq<char>,
> {
    match stored {
        StoredDocument::Missing => Ok(
            SettingsDocument {
                version: SETTINGS_VERSION,
                client_executable_path: None,
            },
        ),
        StoredDocument::Unreadable(error) => Err("无法读取设置："@ + error@),
        StoredDocument::Invalid(error) => Err("设置文件格式无效："@ + error@),
        StoredDocument::Present(document) => if document.version != SETTINGS_VERSION {
            Err("不支持的设置文件版本："@ + text::decimal(document.version as nat))
        } else {
            Ok(document)
        },
    }
}

/// Settings that could be read are read back as they are after a client was chosen and
/// they were written.
pub proof fn law_settings_round_trip(
    stored: StoredDocument<SettingsDocument>,
    client_executable_path: Option<String>,
)
    requires
        loaded_settings(stored) is Ok,
    ensures
        ({
            let changed = SettingsDocument {
                client_executable_path,
                ..loaded_settings(stored)->Ok_0
            };
            loaded_settings(StoredDocument::Present(changed)) == Ok::<SettingsDocument, Seq<char>>(
                changed,
            )
        }),
{
}

/// The application's directory can be used exactly where the attributes of every part of
/// its path could be read and none of them is a redirection.
pub proof fn law_no_part_of_the_directory_is_a_redirection(entries: Seq<DirectoryPart>)
    ensures
        directory_error(entries) is None <==> forall|i: int|
            0 <= i < entries.len() ==> ((#[trigger] entries[i]).attributes is Ok && !crate::platform::windows::paths::redirects(entries[i].attributes->Ok_0)),
    decreases entries.len(),
{
    if entries.len() > 0 {
        let front = entries.drop_last();
        law_no_part_of_the_directory_is_a_redirection(front);
        if directory_error(entries) is None {
            assert forall|i: int| 0 <= i < entries.len() implies ((#[trigger] entries[i]).attributes is Ok && !crate::platform::windows::paths::redirects(entries[i].attributes->Ok_0)) by {
                if i < front.len() {
                    assert((front[i].attributes is Ok && !crate::platform::windows::paths::redirects(front[i].attributes->Ok_0)));
                }
            }
        }
        if forall|i: int| 0 <= i < entries.len() ==> ((#[trigger] entries[i]).attributes is Ok && !crate::platform::windows::paths::redirects(entries[i].attributes->Ok_0)) {
            assert forall|i: int| 0 <= i < front.len() implies ((#[trigger] front[i]).attributes is Ok && !crate::platform::windows::paths::redirects(front[i].attributes->Ok_0)) by {
                assert((entries[i].attributes is Ok && !crate::platform::windows::paths::redirects(entries[i].attributes->Ok_0)));
            }
            assert((entries[entries.len() - 1].attributes is Ok && !crate::platform::windows::paths::redirects(entries[entries.len() - 1].attributes->Ok_0)));
        }
    }
}

} // verus!
