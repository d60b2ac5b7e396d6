//! The client's account cache. Its tables are read outside; what their contents
//! say about the accounts is decided here.

use vstd::prelude::*;

use crate::contracts;
use crate::contracts::AccountCatalog;
use crate::contracts::AccountKey;
use crate::contracts::AccountKeyView;
use crate::contracts::DiscoveredAccount;
use crate::contracts::DiscoveredAccountView;
use crate::data_store;
use crate::error::AppError;
use crate::error::ErrorView;
use crate::json;
use crate::json::JsonValue;
use crate::json::JsonView;
use crate::text;

verus! {

/// How long copying the database may take when the user waits for it.
pub const FOREGROUND_COPY_TIMEOUT_MS: u64 = 5000;

/// How long copying the database may take when its state is only probed.
pub const PROBE_COPY_TIMEOUT_MS: u64 = 500;

/// The pause after which a busy database is tried again.
pub const BUSY_PAUSE_MS: u64 = 20;

/// A value of the database, as far as an id can be read from it.
#[derive(Debug)]
pub enum CellValue {
    Integer(i64),
    /// A number with a fraction part; its digits where the fraction is zero.
    Real(Option<String>),
    /// A text, where it is valid UTF-8.
    Text(Option<String>),
    /// Anything else.
    Other,
}

/// A cell that has to hold an id, and what to say where it does not.
#[derive(Debug)]
pub struct IdCell {
    pub value: CellValue,
    pub type_error: String,
}

/// A row of the login cache: each column, or why it could not be read.
#[derive(Debug)]
pub struct CacheRow {
    pub account_id_hi: IdCell,
    pub account_id_lo: IdCell,
    pub environment: Result<Option<String>, String>,
    pub name: Result<Option<String>, String>,
    pub battle_tag: Result<Option<String>, String>,
}

/// Why the rows of the login cache could not be read at all.
#[derive(Debug)]
pub enum RowsError {
    /// The query does not fit the database.
    Unsupported(String),
    /// The query failed.
    Failed(String),
}

/// Everything that was read of the database.
#[derive(Debug)]
pub struct CacheFacts {
    /// The columns of the table `login_cache`.
    pub login_columns: Result<Vec<String>, String>,
    /// The columns of the table `key_value_store`.
    pub store_columns: Result<Vec<String>, String>,
    pub rows: Result<Vec<Result<CacheRow, String>>, RowsError>,
    /// The values that tell the active account.
    pub active_values: Result<Vec<Result<String, String>>, String>,
}

/// The outcome of copying a part of the database.
#[derive(Clone, Copy, Debug, PartialEq, Eq, Structural)]
pub enum BackupStep {
    Done,
    More,
    Busy,
    Locked,
    Unknown,
}

/// What to do after a part of the database was copied.
#[derive(Clone, Copy, Debug, PartialEq, Eq, Structural)]
pub enum BackupAction {
    Finish,
    Continue,
    Pause,
}

/// Whether copying may go on after `elapsed_ms`: the whole copy has one
/// deadline.
pub fn copy_database_with_timeout(elapsed_ms: u64, timeout_ms: u64) -> (result: Result<
    (),
    AppError,
>)
    ensures
        result is Ok == (elapsed_ms < timeout_ms),
        result is Err ==> result->Err_0@ == ErrorView::AccountDatabase(
            "战网账号数据库正忙，请稍后重试"@,
        ),
{
    if elapsed_ms >= timeout_ms {
        return Err(AppError::AccountDatabase("战网账号数据库正忙，请稍后重试".to_owned()));
    }
    Ok(())
}

/// What to do after a part of the database was copied.
pub fn after_backup_step(step: Result<BackupStep, String>) -> (action: Result<
    BackupAction,
    AppError,
>)
    ensures
        match step {
            Ok(BackupStep::Done) => action == Ok::<BackupAction, AppError>(BackupAction::Finish),
            Ok(BackupStep::More) => action == Ok::<BackupAction, AppError>(BackupAction::Continue),
            Ok(BackupStep::Busy) | Ok(BackupStep::Locked) => action == Ok::<BackupAction, AppError>(
                BackupAction::Pause,
            ),
            Ok(BackupStep::Unknown) => action is Err && action->Err_0@
                == ErrorView::AccountDatabase("战网账号数据库返回了不支持的备份状态"@),
            Err(error) => action is Err && action->Err_0@ == ErrorView::AccountDatabase(error@),
        },
{
    match step {
        Ok(BackupStep::Done) => Ok(BackupAction::Finish),
        Ok(BackupStep::More) => Ok(BackupAction::Continue),
        Ok(BackupStep::Busy) | Ok(BackupStep::Locked) => Ok(BackupAction::Pause),
        Ok(BackupStep::Unknown) => Err(
            AppError::AccountDatabase("战网账号数据库返回了不支持的备份状态".to_owned()),
        ),
        Err(error) => Err(AppError::AccountDatabase(error)),
    }
}

/// The id that a cell holds.
pub open spec fn cell_id(value: CellValue) -> Option<Seq<char>> {
    match value {
        CellValue::Integer(value) => Some(text::signed_decimal(value as int)),
        CellValue::Real(Some(digits)) => Some(digits@),
        CellValue::Text(Some(digits)) => Some(digits@),
        _ => None,
    }
}

/// The id that a cell holds.
pub fn value_as_id(value: &CellValue) -> (id: Option<String>)
    ensures
        id is Some == cell_id(*value) is Some,
        id is Some ==> id->0@ == cell_id(*value)->0,
{
    match value {
        CellValue::Integer(value) => Some(text::signed_decimal_text(*value)),
        CellValue::Real(Some(digits)) => Some(digits.clone()),
        CellValue::Text(Some(digits)) => Some(digits.clone()),
        _ => None,
    }
}

/// The id that a JSON value holds: a whole number or a text.
pub open spec fn json_id(value: JsonView) -> Option<Seq<char>> {
    match value {
        JsonView::Number { signed: Some(value), .. } => Some(text::signed_decimal(value as int)),
        JsonView::Number { signed: None, unsigned: Some(value), .. } => Some(
            text::decimal(value as nat),
        ),
        JsonView::Text(value) => Some(value),
        _ => None,
    }
}

/// The id that a JSON value holds: a whole number or a text.
pub fn json_value_as_id(value: &JsonValue) -> (id: Option<String>)
    ensures
        id is Some == json_id(value@) is Some,
        id is Some ==> id->0@ == json_id(value@)->0,
{
    match value {
        JsonValue::Number(number) => match number.signed {
            Some(value) => Some(text::signed_decimal_text(value)),
            None => match number.unsigned {
                Some(value) => Some(text::decimal_text(value)),
                None => None,
            },
        },
        JsonValue::Text(value) => Some(value.clone()),
        _ => None,
    }
}

/// The second part of an account id, where the id has exactly two parts and
/// neither is empty.
pub open spec fn low_id(account_id: Seq<char>) -> Option<Seq<char>> {
    let high = text::before(account_id, ':');
    let low = text::after(account_id, ':');
    if high.len() < account_id.len() && high.len() > 0 && low.len() > 0 && text::position(low, ':')
        == low.len() {
        Some(low)
    } else {
        None
    }
}

/// The second part of an account id, where the id has exactly two parts and
/// neither is empty.
pub fn account_id_low(account_id: &str) -> (low: Option<String>)
    ensures
        low is Some == low_id(account_id@) is Some,
        low is Some ==> low->0@ == low_id(account_id@)->0,
{
    let chars = text::chars_of(account_id);
    let at: usize = text::find(&chars, ':');
    proof {
        text::lemma_position(account_id@, ':');
    }
    if at == 0 || at >= chars.len() {
        return None;
    }
    let low = text::text_of(&chars, at + 1, chars.len());
    let rest = text::chars_of(low.as_str());
    if rest.len() == 0 || text::find(&rest, ':') < rest.len() {
        proof {
            text::lemma_position(low@, ':');
        }
        return None;
    }
    proof {
        text::lemma_position(low@, ':');
    }
    Some(low)
}

/// Whether `columns` holds every one of the `required` names.
pub open spec fn has_columns(columns: Seq<String>, required: Seq<Seq<char>>) -> bool {
    forall|i: int|
        0 <= i < required.len() ==> exists|j: int|
            0 <= j < columns.len() && (#[trigger] columns[j])@ == #[trigger] required[i]
}

fn has_column(columns: &Vec<String>, name: &str) -> (found: bool)
    ensures
        found == exists|j: int| 0 <= j < columns.len() && (#[trigger] columns@[j])@ == name@,
{
    let mut i: usize = 0;
    while i < columns.len()
        invariant
            i <= columns.len(),
            forall|j: int| 0 <= j < i ==> (#[trigger] columns@[j])@ != name@,
        decreases columns.len() - i,
    {
        if text::same_text(columns[i].as_str(), name) {
            return true;
        }
        i = i + 1;
    }
    false
}

/// Why the tables are not those of an account cache.
pub open spec fn schema_error(
    login_columns: Result<Vec<String>, String>,
    store_columns: Result<Vec<String>, String>,
) -> Option<ErrorView> {
    match login_columns {
        Err(error) => Some(ErrorView::AccountDatabaseIncompatible(error@)),
        Ok(login) => if !has_columns(
            login@,
            seq!["name"@, "environment"@, "battle_tag"@, "account_id_hi"@, "account_id_lo"@],
        ) {
            Some(ErrorView::AccountDatabaseIncompatible("表 login_cache 缺少必要字段"@))
        } else {
            match store_columns {
                Err(error) => Some(ErrorView::AccountDatabaseIncompatible(error@)),
                Ok(store) => if !has_columns(store@, seq!["key"@, "value"@]) {
                    Some(ErrorView::AccountDatabaseIncompatible("表 key_value_store 缺少必要字段"@))
                } else {
                    None
                },
            }
        },
    }
}

/// Checks that the tables are those of an account cache.
pub fn verify_schema(
    login_columns: &Result<Vec<String>, String>,
    store_columns: &Result<Vec<String>, String>,
) -> (result: Result<(), AppError>)
    ensures
        match result {
            Ok(_) => schema_error(*login_columns, *store_columns) is None,
            Err(error) => schema_error(*login_columns, *store_columns) == Some(error@),
        },
{
    let login = match login_columns {
        Ok(columns) => columns,
        Err(error) => {
            return Err(AppError::AccountDatabaseIncompatible(error.clone()));
        },
    };
    let ghost wanted = seq![
        "name"@,
        "environment"@,
        "battle_tag"@,
        "account_id_hi"@,
        "account_id_lo"@,
    ];
    let name = has_column(login, "name");
    let environment = has_column(login, "environment");
    let battle_tag = has_column(login, "battle_tag");
    let high = has_column(login, "account_id_hi");
    let low = has_column(login, "account_id_lo");
    proof {
        assert(wanted[0] == "name"@ && wanted[1] == "environment"@ && wanted[2] == "battle_tag"@
            && wanted[3] == "account_id_hi"@ && wanted[4] == "account_id_lo"@);
        assert(has_columns(login@, wanted) == (name && environment && battle_tag && high && low));
    }
    if !(name && environment && battle_tag && high && low) {
        return Err(AppError::AccountDatabaseIncompatible("表 login_cache 缺少必要字段".to_owned()));
    }
    let store = match store_columns {
        Ok(columns) => columns,
        Err(error) => {
            return Err(AppError::AccountDatabaseIncompatible(error.clone()));
        },
    };
    let key = has_column(store, "key");
    let value = has_column(store, "value");
    proof {
        let wanted = seq!["key"@, "value"@];
        assert(wanted[0] == "key"@ && wanted[1] == "value"@);
        assert(has_columns(store@, wanted) == (key && value));
    }
    if !(key && value) {
        return Err(
            AppError::AccountDatabaseIncompatible("表 key_value_store 缺少必要字段".to_owned()),
        );
    }
    Ok(())
}

/// The trimmed text of a column, empty where there is none.
pub open spec fn column_text(column: Option<String>) -> Seq<char> {
    match column {
        Some(value) => text::trimmed(value@),
        None => Seq::empty(),
    }
}

fn trimmed_column(column: &Option<String>) -> (value: String)
    ensures
        value@ == column_text(*column),
{
    match column {
        Some(value) => text::trim(value.as_str()),
        None => {
            let empty = String::new();
            assert(empty@ =~= Seq::<char>::empty());
            empty
        },
    }
}

/// The account of a row, or the error of its first bad column: the ids are read
/// first, then the environment, the name and the tag.
pub open spec fn row_account(row: CacheRow) -> Result<DiscoveredAccountView, Seq<char>> {
    if cell_id(row.account_id_hi.value) is None {
        Err(row.account_id_hi.type_error@)
    } else if cell_id(row.account_id_lo.value) is None {
        Err(row.account_id_lo.type_error@)
    } else {
        match (row.environment, row.name, row.battle_tag) {
            (Err(error), _, _) => Err(error@),
            (Ok(_), Err(error), _) => Err(error@),
            (Ok(_), Ok(_), Err(error)) => Err(error@),
            (Ok(environment), Ok(name), Ok(battle_tag)) => Ok(
                DiscoveredAccountView {
                    key: AccountKeyView {
                        environment: text::lowered(column_text(environment)),
                        account_id: text::trimmed(cell_id(row.account_id_hi.value)->0) + ":"@
                            + text::trimmed(cell_id(row.account_id_lo.value)->0),
                    },
                    internal_name: column_text(name),
                    battle_tag: column_text(battle_tag),
                },
            ),
        }
    }
}

/// The account of a row, or the error of its first bad column.
pub fn discovered_account(row: &CacheRow) -> (account: Result<DiscoveredAccount, String>)
    ensures
        match account {
            Ok(account) => row_account(*row) == Ok::<DiscoveredAccountView, Seq<char>>(account@),
            Err(error) => row_account(*row) == Err::<DiscoveredAccountView, Seq<char>>(error@),
        },
{
    let high = match value_as_id(&row.account_id_hi.value) {
        Some(id) => id,
        None => {
            return Err(row.account_id_hi.type_error.clone());
        },
    };
    let low = match value_as_id(&row.account_id_lo.value) {
        Some(id) => id,
        None => {
            return Err(row.account_id_lo.type_error.clone());
        },
    };
    let environment = match &row.environment {
        Ok(column) => text::to_ascii_lowercase(trimmed_column(column).as_str()),
        Err(error) => {
            return Err(error.clone());
        },
    };
    let internal_name = match &row.name {
        Ok(column) => trimmed_column(column),
        Err(error) => {
            return Err(error.clone());
        },
    };
    let battle_tag = match &row.battle_tag {
        Ok(column) => trimmed_column(column),
        Err(error) => {
            return Err(error.clone());
        },
    };
    let account_id = text::joined3(
        text::trim(high.as_str()).as_str(),
        ":",
        text::trim(low.as_str()).as_str(),
    );
    Ok(
        DiscoveredAccount {
            key: AccountKey { environment, account_id },
            internal_name,
            battle_tag,
        },
    )
}

/// Whether an account is listed: its low id is not zero and it belongs to an
/// environment.
pub open spec fn is_listed(account: DiscoveredAccountView) -> bool {
    low_id(account.key.account_id) != Some("0"@) && text::trimmed(account.key.environment).len() > 0
}

/// The listed accounts of the rows by their keys, or the first error: of two
/// rows with the same key the later one counts.
pub open spec fn listed_accounts(rows: Seq<Result<CacheRow, String>>) -> Result<
    Map<AccountKeyView, DiscoveredAccountView>,
    Seq<char>,
>
    decreases rows.len(),
{
    if rows.len() == 0 {
        Ok(Map::empty())
    } else {
        match (listed_accounts(rows.drop_last()), rows.last()) {
            (Err(error), _) => Err(error),
            (Ok(_), Err(error)) => Err(error@),
            (Ok(accounts), Ok(row)) => match row_account(row) {
                Err(error) => Err(error),
                Ok(account) => if is_listed(account) {
                    Ok(accounts.insert(account.key, account))
                } else {
                    Ok(accounts)
                },
            },
        }
    }
}

/// The keys of the accounts, in order.
pub open spec fn account_keys(accounts: Seq<DiscoveredAccount>) -> Seq<AccountKeyView> {
    accounts.map_values(|account: DiscoveredAccount| account.key@)
}

/// Whether `accounts` lists exactly the accounts of the map, in ascending order
/// of their keys.
pub open spec fn lists(
    accounts: Seq<DiscoveredAccount>,
    map: Map<AccountKeyView, DiscoveredAccountView>,
) -> bool {
    &&& data_store::ascending(account_keys(accounts))
    &&& account_keys(accounts).to_set() == map.dom()
    &&& forall|i: int| 0 <= i < accounts.len() ==> map[(#[trigger] accounts[i]).key@] == accounts[i]@
}

fn insert_account(accounts: &mut Vec<DiscoveredAccount>, account: DiscoveredAccount, Ghost(map): Ghost<Map<AccountKeyView, DiscoveredAccountView>>)
    requires
        lists(old(accounts)@, map),
    ensures
        lists(final(accounts)@, map.insert(account.key@, account@)),
{
    let ghost keys = account_keys(accounts@);
    let ghost before = accounts@;
    let mut at: usize = 0;
    while at < accounts.len() && accounts[at].key.is_before(&account.key)
        invariant
            at <= accounts.len(),
            forall|j: int| 0 <= j < at ==> accounts@[j].key@.less(account.key@),
        decreases accounts.len() - at,
    {
        at = at + 1;
    }
    if at < accounts.len() && accounts[at].key == account.key {
        let ghost key = account.key@;
        let ghost value = account@;
        accounts.set(at, account);
        proof {
            assert(account_keys(accounts@) =~= keys);
            assert(keys[at as int] == key);
            assert(keys.to_set().contains(key));
            assert(map.insert(key, value).dom() =~= map.dom());
            assert forall|i: int| 0 <= i < accounts.len() implies map.insert(key, value)[(
            #[trigger] accounts@[i]).key@] == accounts@[i]@ by {
                if i != at {
                    assert(keys[i] != key) by {
                        contracts::lemma_account_order(keys[i], key);
                        if i < at {
                            assert(keys[i].less(keys[at as int]));
                        } else {
                            assert(keys[at as int].less(keys[i]));
                        }
                    }
                    assert(accounts@[i] == before[i]);
                }
            }
        }
    } else {
        let ghost key = account.key@;
        let ghost value = account@;
        proof {
            assert forall|i: int| at <= i < keys.len() implies key.less(keys[i]) by {
                contracts::lemma_account_order(key, keys[at as int]);
                if i > at {
                    contracts::lemma_account_order_transitive(key, keys[at as int], keys[i]);
                }
            }
            data_store::lemma_ascending_insert(keys, at as int, key);
        }
        accounts.insert(at, account);
        proof {
            assert(account_keys(accounts@) =~= keys.insert(at as int, key));
            assert(map.insert(key, value).dom() =~= map.dom().insert(key));
            assert forall|i: int| 0 <= i < accounts.len() implies map.insert(key, value)[(
            #[trigger] accounts@[i]).key@] == accounts@[i]@ by {
                if i != at {
                    let j = if i < at {
                        i
                    } else {
                        i - 1
                    };
                    assert(accounts@[i] == before[j]);
                    contracts::lemma_account_order(keys[j], key);
                    assert(keys[j] != key);
                }
            }
        }
    }
}

/// The listed accounts of the rows, in ascending order of their keys.
pub fn list_accounts(rows: &Vec<Result<CacheRow, String>>) -> (accounts: Result<
    Vec<DiscoveredAccount>,
    AppError,
>)
    ensures
        match (accounts, listed_accounts(rows@)) {
            (Ok(accounts), Ok(map)) => lists(accounts@, map),
            (Err(error), Err(message)) => error@ == ErrorView::AccountDatabase(message),
            _ => false,
        },
{
    let mut accounts: Vec<DiscoveredAccount> = Vec::new();
    let mut error: Option<String> = None;
    let mut i: usize = 0;
    proof {
        assert(account_keys(accounts@).to_set() =~= Map::<
            AccountKeyView,
            DiscoveredAccountView,
        >::empty().dom());
    }
    while i < rows.len()
        invariant
            i <= rows.len(),
            match (error, listed_accounts(rows@.take(i as int))) {
                (None, Ok(map)) => lists(accounts@, map),
                (Some(error), Err(message)) => error@ == message,
                _ => false,
            },
        decreases rows.len() - i,
    {
        let ghost done = listed_accounts(rows@.take(i as int));
        assert(rows@.take(i + 1).drop_last() =~= rows@.take(i as int));
        assert(rows@.take(i + 1).last() == rows@[i as int]);
        if error.is_none() {
            match &rows[i] {
                Err(message) => {
                    error = Some(message.clone());
                },
                Ok(row) => match discovered_account(row) {
                    Err(message) => {
                        error = Some(message);
                    },
                    Ok(account) => {
                        let zero = match account_id_low(account.key.account_id.as_str()) {
                            Some(low) => text::same_text(low.as_str(), "0"),
                            None => false,
                        };
                        if !zero && !text::is_blank(account.key.environment.as_str()) {
                            insert_account(&mut accounts, account, Ghost(done->Ok_0));
                        }
                    },
                },
            }
        }
        i = i + 1;
    }
    assert(rows@.take(i as int) =~= rows@);
    match error {
        None => Ok(accounts),
        Some(message) => Err(AppError::AccountDatabase(message)),
    }
}

/// The account that one value names, if it names one, or why it says nothing.
pub open spec fn active_id(value: Result<String, String>) -> Result<Option<Seq<char>>, ErrorView> {
    match value {
        Err(error) => Err(ErrorView::AccountDatabase(error@)),
        Ok(value) => match json::json_text_document(value@) {
            Err(error) => Err(
                ErrorView::AccountDatabaseIncompatible("当前账号字段不是有效 JSON："@ + error),
            ),
            Ok(document) => Ok(document_id(document)),
        },
    }
}

/// The account that a document names.
pub open spec fn document_id(document: JsonView) -> Option<Seq<char>> {
    match json::field(document, "account_id"@) {
        Some(value) => json_id(value),
        None => None,
    }
}

/// The account that a document names.
pub fn document_account_id(document: &JsonValue) -> (id: Option<String>)
    ensures
        id is Some == document_id(document@) is Some,
        id is Some ==> id->0@ == document_id(document@)->0,
{
    match json::get(document, "account_id") {
        Some(value) => json_value_as_id(value),
        None => None,
    }
}

/// The accounts that the values name, in order, or the first error.
pub open spec fn active_ids(values: Seq<Result<String, String>>) -> Result<
    Seq<Option<Seq<char>>>,
    ErrorView,
>
    decreases values.len(),
{
    if values.len() == 0 {
        Ok(Seq::empty())
    } else {
        match (active_ids(values.drop_last()), active_id(values.last())) {
            (Err(error), _) => Err(error),
            (Ok(_), Err(error)) => Err(error),
            (Ok(ids), Ok(id)) => Ok(ids.push(id)),
        }
    }
}

/// The id, with its text as a character sequence.
pub open spec fn id_view(id: Option<String>) -> Option<Seq<char>> {
    match id {
        Some(id) => Some(id@),
        None => None,
    }
}

/// The ids, with their texts as character sequences.
pub open spec fn id_views(ids: Seq<Option<String>>) -> Seq<Option<Seq<char>>> {
    ids.map_values(|id: Option<String>| id_view(id))
}

/// The one account that all entries name. Entries that differ, be it that one
/// names no account, contradict each other.
pub open spec fn agreed_id(ids: Seq<Option<Seq<char>>>) -> Result<Option<Seq<char>>, ErrorView> {
    if forall|i: int| 0 <= i < ids.len() ==> #[trigger] ids[i] == ids[0] {
        Ok(
            if ids.len() == 0 {
                None
            } else {
                ids[0]
            },
        )
    } else {
        Err(
            ErrorView::AccountDatabaseIncompatible(
                "当前账号记录包含互相矛盾的值，无法安全判断当前账号"@,
            ),
        )
    }
}

/// The one account that all entries name.
pub fn agreed_account_id(ids: &Vec<Option<String>>) -> (id: Result<Option<String>, AppError>)
    ensures
        match id {
            Ok(id) => agreed_id(id_views(ids@)) == Ok::<Option<Seq<char>>, ErrorView>(id_view(id)),
            Err(error) => agreed_id(id_views(ids@)) == Err::<Option<Seq<char>>, ErrorView>(error@),
        },
{
    if ids.len() == 0 {
        return Ok(None);
    }
    let mut i: usize = 1;
    while i < ids.len()
        invariant
            1 <= i <= ids.len(),
            forall|j: int| 0 <= j < i ==> #[trigger] id_views(ids@)[j] == id_views(ids@)[0],
        decreases ids.len() - i,
    {
        let same = match (&ids[i], &ids[0]) {
            (Some(left), Some(right)) => text::same_text(left.as_str(), right.as_str()),
            (None, None) => true,
            _ => false,
        };
        assert(same == (id_views(ids@)[i as int] == id_views(ids@)[0]));
        if !same {
            return Err(
                AppError::AccountDatabaseIncompatible(
                    "当前账号记录包含互相矛盾的值，无法安全判断当前账号".to_owned(),
                ),
            );
        }
        i = i + 1;
    }
    let first = match &ids[0] {
        Some(id) => Some(id.clone()),
        None => None,
    };
    assert(id_views(ids@)[0] == id_view(first));
    Ok(first)
}

/// The id of the account that is logged in, or why it is not known.
pub open spec fn active_account(values: Seq<Result<String, String>>) -> Result<
    Option<Seq<char>>,
    ErrorView,
> {
    match active_ids(values) {
        Err(error) => Err(error),
        Ok(ids) => agreed_id(ids),
    }
}

/// The id of the account that is logged in.
pub fn read_active_account_id(values: &Vec<Result<String, String>>) -> (id: Result<
    Option<String>,
    AppError,
>)
    ensures
        match id {
            Ok(id) => active_account(values@) == Ok::<Option<Seq<char>>, ErrorView>(id_view(id)),
            Err(error) => active_account(values@) == Err::<Option<Seq<char>>, ErrorView>(error@),
        },
{
    let mut ids: Vec<Option<String>> = Vec::new();
    let mut failure: Option<AppError> = None;
    let mut i: usize = 0;
    assert(id_views(ids@) =~= Seq::<Option<Seq<char>>>::empty());
    while i < values.len()
        invariant
            i <= values.len(),
            match (failure, active_ids(values@.take(i as int))) {
                (None, Ok(found)) => id_views(ids@) == found,
                (Some(failure), Err(error)) => failure@ == error,
                _ => false,
            },
        decreases values.len() - i,
    {
        assert(values@.take(i + 1).drop_last() =~= values@.take(i as int));
        assert(values@.take(i + 1).last() == values@[i as int]);
        if failure.is_none() {
            match &values[i] {
                Err(error) => {
                    failure = Some(AppError::AccountDatabase(error.clone()));
                },
                Ok(value) => match json::parse_json_text(value.as_str()) {
                    Err(error) => {
                        failure = Some(
                            AppError::AccountDatabaseIncompatible(
                                text::joined2("当前账号字段不是有效 JSON：", error.as_str()),
                            ),
                        );
                    },
                    Ok(document) => {
                        let ghost before = ids@;
                        let id = document_account_id(&document);
                        ids.push(id);
                        assert(id_views(ids@) =~= id_views(before).push(id_view(id)));
                    },
                },
            }
        }
        i = i + 1;
    }
    assert(values@.take(i as int) =~= values@);
    match failure {
        Some(error) => Err(error),
        None => agreed_account_id(&ids),
    }
}

/// Whether the account has the given low id.
pub open spec fn has_low_id(key: AccountKeyView, id: Seq<char>) -> bool {
    low_id(key.account_id) == Some(id)
}

/// The account of the map that has the low id `id`: none, or one; where several
/// environments have one, it cannot be told.
pub open spec fn is_current(
    keys: Set<AccountKeyView>,
    id: Seq<char>,
    current: Result<Option<AccountKeyView>, ErrorView>,
) -> bool {
    match current {
        Ok(None) => forall|key: AccountKeyView| keys.contains(key) ==> !has_low_id(key, id),
        Ok(Some(key)) => keys.contains(key) && has_low_id(key, id) && forall|other: AccountKeyView|
            keys.contains(other) && has_low_id(other, id) ==> other == key,
        Err(error) => {
            &&& error == ErrorView::AccountDatabaseIncompatible(
                "当前账号 ID 同时属于多个战网环境，无法安全判断当前账号"@,
            )
            &&& exists|one: AccountKeyView, other: AccountKeyView|
                one != other && keys.contains(one) && keys.contains(other) && #[trigger] has_low_id(
                    one,
                    id,
                ) && #[trigger] has_low_id(other, id)
        },
    }
}

/// The listed account that has the low id `id`.
pub fn current_account(accounts: &Vec<DiscoveredAccount>, id: &str) -> (current: Result<
    Option<AccountKey>,
    AppError,
>)
    requires
        data_store::ascending(account_keys(accounts@)),
    ensures
        is_current(
            account_keys(accounts@).to_set(),
            id@,
            match current {
                Ok(key) => Ok(contracts::key_view(key)),
                Err(error) => Err(error@),
            },
        ),
{
    let ghost keys = account_keys(accounts@);
    let mut found: Option<usize> = None;
    let mut i: usize = 0;
    while i < accounts.len()
        invariant
            i <= accounts.len(),
            keys == account_keys(accounts@),
            data_store::ascending(keys),
            match found {
                None => forall|j: int| 0 <= j < i ==> !has_low_id(#[trigger] keys[j], id@),
                Some(at) => at < i && has_low_id(keys[at as int], id@) && forall|j: int|
                    0 <= j < i && j != at ==> !has_low_id(#[trigger] keys[j], id@),
            },
        decreases accounts.len() - i,
    {
        let matches = match account_id_low(accounts[i].key.account_id.as_str()) {
            Some(low) => text::same_text(low.as_str(), id),
            None => false,
        };
        assert(matches == has_low_id(keys[i as int], id@));
        if matches {
            match found {
                Some(at) => {
                    proof {
                        assert(keys[at as int].less(keys[i as int]));
                        contracts::lemma_account_order(keys[at as int], keys[i as int]);
                        assert(keys.contains(keys[at as int]));
                        assert(keys.contains(keys[i as int]));
                    }
                    return Err(
                        AppError::AccountDatabaseIncompatible(
                            "当前账号 ID 同时属于多个战网环境，无法安全判断当前账号".to_owned(),
                        ),
                    );
                },
                None => {
                    found = Some(i);
                },
            }
        }
        i = i + 1;
    }
    proof {
        assert forall|key: AccountKeyView| keys.to_set().contains(key) && has_low_id(
            key,
            id@,
        ) implies found is Some && key == keys[found->0 as int] by {
            let j = choose|j: int| 0 <= j < keys.len() && keys[j] == key;
            assert(has_low_id(keys[j], id@));
        }
    }
    match found {
        None => Ok(None),
        Some(at) => {
            assert(keys.contains(keys[at as int]));
            Ok(Some(accounts[at].key.clone()))
        },
    }
}

/// Whether the catalog is what the database says, or the error why there is
/// none: the tables are checked first, then the rows, then the active account.
pub open spec fn is_catalog(facts: CacheFacts, catalog: Result<AccountCatalog, AppError>) -> bool {
    match schema_error(facts.login_columns, facts.store_columns) {
        Some(error) => catalog is Err && catalog->Err_0@ == error,
        None => match facts.rows {
            Err(RowsError::Unsupported(error)) => catalog is Err && catalog->Err_0@
                == ErrorView::AccountDatabaseIncompatible(error@),
            Err(RowsError::Failed(error)) => catalog is Err && catalog->Err_0@
                == ErrorView::AccountDatabase(error@),
            Ok(rows) => match listed_accounts(rows@) {
                Err(error) => catalog is Err && catalog->Err_0@ == ErrorView::AccountDatabase(
                    error,
                ),
                Ok(map) => match facts.active_values {
                    Err(error) => catalog is Err && catalog->Err_0@ == ErrorView::AccountDatabase(
                        error@,
                    ),
                    Ok(values) => match active_account(values@) {
                        Err(error) => catalog is Err && catalog->Err_0@ == error,
                        Ok(None) => catalog is Ok && lists(catalog->Ok_0.accounts@, map)
                            && catalog->Ok_0.current_account_key is None,
                        Ok(Some(id)) => match catalog {
                            Ok(catalog) => lists(catalog.accounts@, map) && is_current(
                                map.dom(),
                                id,
                                Ok(contracts::key_view(catalog.current_account_key)),
                            ),
                            Err(error) => is_current(map.dom(), id, Err(error@)),
                        },
                    },
                },
            },
        },
    }
}

/// The accounts of the client, and the one that is logged in.
pub fn read_catalog_from_connection(facts: &CacheFacts) -> (catalog: Result<
    AccountCatalog,
    AppError,
>)
    ensures
        is_catalog(*facts, catalog),
{
    match verify_schema(&facts.login_columns, &facts.store_columns) {
        Ok(_) => {},
        Err(error) => {
            return Err(error);
        },
    }
    let rows = match &facts.rows {
        Ok(rows) => rows,
        Err(RowsError::Unsupported(error)) => {
            return Err(AppError::AccountDatabaseIncompatible(error.clone()));
        },
        Err(RowsError::Failed(error)) => {
            return Err(AppError::AccountDatabase(error.clone()));
        },
    };
    let accounts = match list_accounts(rows) {
        Ok(accounts) => accounts,
        Err(error) => {
            return Err(error);
        },
    };
    let values = match &facts.active_values {
        Ok(values) => values,
        Err(error) => {
            return Err(AppError::AccountDatabase(error.clone()));
        },
    };
    let active = match read_active_account_id(values) {
        Ok(active) => active,
        Err(error) => {
            return Err(error);
        },
    };
    let current_account_key = match active {
        None => None,
        Some(id) => match current_account(&accounts, id.as_str()) {
            Ok(key) => key,
            Err(error) => {
                return Err(error);
            },
        },
    };
    Ok(AccountCatalog { accounts, current_account_key })
}

/// A catalog lists every account once, in the order of the keys, and the account
/// that is logged in is one of them.
pub proof fn law_catalog_is_ordered_and_closed(facts: CacheFacts, catalog: AccountCatalog)
    requires
        is_catalog(facts, Ok(catalog)),
    ensures
        data_store::ascending(account_keys(catalog.accounts@)),
        account_keys(catalog.accounts@).no_duplicates(),
        catalog.current_account_key is Some ==> account_keys(catalog.accounts@).contains(
            catalog.current_account_key->0@,
        ),
        forall|i: int|
            0 <= i < catalog.accounts.len() ==> is_listed((#[trigger] catalog.accounts@[i])@),
{
    let keys = account_keys(catalog.accounts@);
    assert forall|i: int, j: int| 0 <= i < j < keys.len() implies keys[i] != keys[j] by {
        assert(keys[i].less(keys[j]));
        contracts::lemma_account_order(keys[i], keys[j]);
    }
    lemma_listed_accounts(facts.rows->Ok_0@);
    let map = listed_accounts(facts.rows->Ok_0@)->Ok_0;
    assert forall|i: int| 0 <= i < catalog.accounts.len() implies is_listed(
        (#[trigger] catalog.accounts@[i])@,
    ) by {
        assert(keys.contains(keys[i]));
        assert(keys.to_set().contains(keys[i]));
        assert(map.dom().contains(keys[i]));
        assert(map[keys[i]] == catalog.accounts@[i]@);
    }
    if catalog.current_account_key is Some {
        assert(keys.to_set().contains(catalog.current_account_key->0@));
    }
}

/// Only listed accounts are collected, each under its own key.
pub proof fn lemma_listed_accounts(rows: Seq<Result<CacheRow, String>>)
    ensures
        listed_accounts(rows) is Ok ==> forall|key: AccountKeyView|
            #![trigger listed_accounts(rows)->Ok_0[key]]
            listed_accounts(rows)->Ok_0.dom().contains(key) ==> is_listed(
                listed_accounts(rows)->Ok_0[key],
            ) && listed_accounts(rows)->Ok_0[key].key == key,
    decreases rows.len(),
{
    if rows.len() > 0 {
        lemma_listed_accounts(rows.drop_last());
    }
}

/// Whether a row can be read: its ids are numbers or texts, and its other columns were read.
pub open spec fn is_readable(row: Result<CacheRow, String>) -> bool {
    &&& row is Ok
    &&& cell_id(row->Ok_0.account_id_hi.value) is Some
    &&& cell_id(row->Ok_0.account_id_lo.value) is Some
    &&& row->Ok_0.environment is Ok
    &&& row->Ok_0.name is Ok
    &&& row->Ok_0.battle_tag is Ok
}

/// Whether the row is one of the account with this key: the environment is the key's, in
/// lower case and without blanks around it, and the two ids, without blanks around them and
/// with a colon between, are the key's id.
pub open spec fn is_row_of(row: Result<CacheRow, String>, key: AccountKeyView) -> bool {
    &&& is_readable(row)
    &&& key.environment == text::lowered(column_text(row->Ok_0.environment->Ok_0))
    &&& key.account_id == text::trimmed(cell_id(row->Ok_0.account_id_hi.value)->0) + ":"@
        + text::trimmed(cell_id(row->Ok_0.account_id_lo.value)->0)
}

/// Whether an account with this key is shown: its second id is not zero, and its environment
/// is not blank.
pub open spec fn is_shown(key: AccountKeyView) -> bool {
    &&& low_id(key.account_id) != Some("0"@)
    &&& exists|i: int|
        0 <= i < key.environment.len() && !text::whitespace(#[trigger] key.environment[i])
}

/// The accounts are collected exactly where every row can be read. Then an account is among
/// them exactly where some row is one of it and it is shown, and its names are those of the
/// last such row.
pub proof fn law_every_shown_row_is_listed(rows: Seq<Result<CacheRow, String>>)
    ensures
        listed_accounts(rows) is Ok <==> forall|i: int|
            0 <= i < rows.len() ==> is_readable(#[trigger] rows[i]),
        listed_accounts(rows) is Ok ==> {
            let accounts = listed_accounts(rows)->Ok_0;
            &&& forall|key: AccountKeyView| #[trigger]
                accounts.contains_key(key) <==> is_shown(key) && exists|i: int|
                    0 <= i < rows.len() && is_row_of(#[trigger] rows[i], key)
            &&& forall|key: AccountKeyView, i: int|
                is_shown(key) && 0 <= i < rows.len() && is_row_of(#[trigger] rows[i], key) && (
                forall|j: int| i < j < rows.len() ==> !is_row_of(#[trigger] rows[j], key)) ==> {
                    let account = #[trigger] accounts[key];
                    &&& account.key == key
                    &&& account.internal_name == column_text(rows[i]->Ok_0.name->Ok_0)
                    &&& account.battle_tag == column_text(rows[i]->Ok_0.battle_tag->Ok_0)
                }
        },
    decreases rows.len(),
{
    if rows.len() > 0 {
        let front = rows.drop_last();
        let last = rows.len() - 1;
        law_every_shown_row_is_listed(front);
        assert forall|i: int| 0 <= i < last implies front[i] == #[trigger] rows[i] by {}
        if listed_accounts(rows) is Ok {
            let accounts = listed_accounts(rows)->Ok_0;
            let earlier = listed_accounts(front)->Ok_0;
            let account = row_account(rows[last]->Ok_0)->Ok_0;
            assert(is_row_of(rows[last], account.key));
            text::lemma_trimmed_is_empty(account.key.environment);
            assert(is_listed(account) == is_shown(account.key));
            assert forall|i: int| 0 <= i < rows.len() implies is_readable(#[trigger] rows[i]) by {
                if i < last {
                    assert(is_readable(front[i]));
                }
            }
            assert forall|key: AccountKeyView| #[trigger]
                accounts.contains_key(key) <==> is_shown(key) && exists|i: int|
                    0 <= i < rows.len() && is_row_of(#[trigger] rows[i], key) by {
                if accounts.contains_key(key) {
                    if earlier.contains_key(key) {
                        let i = choose|i: int|
                            0 <= i < front.len() && is_row_of(#[trigger] front[i], key);
                        assert(is_row_of(rows[i], key));
                    } else {
                        assert(is_row_of(rows[last], key));
                    }
                }
                if is_shown(key) && exists|i: int|
                    0 <= i < rows.len() && is_row_of(#[trigger] rows[i], key) {
                    let i = choose|i: int|
                        0 <= i < rows.len() && is_row_of(#[trigger] rows[i], key);
                    if i < last {
                        assert(is_row_of(front[i], key));
                    }
                }
            }
            assert forall|key: AccountKeyView, i: int|
                is_shown(key) && 0 <= i < rows.len() && is_row_of(#[trigger] rows[i], key) && (
                forall|j: int| i < j < rows.len() ==> !is_row_of(#[trigger] rows[j], key)) implies {
                let account = #[trigger] accounts[key];
                &&& account.key == key
                &&& account.internal_name == column_text(rows[i]->Ok_0.name->Ok_0)
                &&& account.battle_tag == column_text(rows[i]->Ok_0.battle_tag->Ok_0)
            } by {
                if i < last {
                    assert(!is_row_of(rows[last], key));
                    assert(is_row_of(front[i], key));
                    assert forall|j: int| i < j < front.len() implies !is_row_of(
                        #[trigger] front[j],
                        key,
                    ) by {
                        assert(!is_row_of(rows[j], key));
                    }
                    assert(earlier.contains_key(key));
                    assert(earlier[key].key == key);
                }
            }
        } else {
            if forall|i: int| 0 <= i < rows.len() ==> is_readable(#[trigger] rows[i]) {
                assert(is_readable(rows[last]));
                assert forall|i: int| 0 <= i < front.len() implies is_readable(
                    #[trigger] front[i],
                ) by {
                    assert(is_readable(rows[i]));
                }
            }
        }
    }
}

/// The catalog of a database whose rows can be read lists exactly the accounts that are shown
/// and have a row, each once, with the names of its last row. Where the values that tell the
/// active account agree on an id, the account that is logged in is the one listed account
/// with that id, and none where none has it.
pub proof fn law_catalog_lists_the_accounts_of_the_rows(facts: CacheFacts, catalog: AccountCatalog)
    requires
        is_catalog(facts, Ok(catalog)),
    ensures
        facts.rows is Ok,
        ({
            let rows = facts.rows->Ok_0@;
            &&& forall|i: int| 0 <= i < rows.len() ==> is_readable(#[trigger] rows[i])
            &&& forall|key: AccountKeyView| #[trigger]
                account_keys(catalog.accounts@).contains(key) <==> is_shown(key) && exists|i: int|
                    0 <= i < rows.len() && is_row_of(#[trigger] rows[i], key)
            &&& forall|k: int, i: int|
                0 <= k < catalog.accounts.len() && 0 <= i < rows.len() && is_row_of(
                    #[trigger] rows[i],
                    (#[trigger] catalog.accounts@[k]).key@,
                ) && (forall|j: int|
                    i < j < rows.len() ==> !is_row_of(
                        #[trigger] rows[j],
                        catalog.accounts@[k].key@,
                    )) ==> {
                    &&& catalog.accounts@[k]@.internal_name == column_text(
                        rows[i]->Ok_0.name->Ok_0,
                    )
                    &&& catalog.accounts@[k]@.battle_tag == column_text(
                        rows[i]->Ok_0.battle_tag->Ok_0,
                    )
                }
        }),
        account_keys(catalog.accounts@).no_duplicates(),
{
    let rows = facts.rows->Ok_0@;
    law_every_shown_row_is_listed(rows);
    law_catalog_is_ordered_and_closed(facts, catalog);
    let map = listed_accounts(rows)->Ok_0;
    let keys = account_keys(catalog.accounts@);
    assert forall|key: AccountKeyView| #[trigger] keys.contains(key) <==> is_shown(key)
        && exists|i: int| 0 <= i < rows.len() && is_row_of(#[trigger] rows[i], key) by {
        assert(keys.contains(key) == keys.to_set().contains(key));
        assert(map.contains_key(key) == map.dom().contains(key));
    }
    assert forall|k: int, i: int|
        0 <= k < catalog.accounts.len() && 0 <= i < rows.len() && is_row_of(
            #[trigger] rows[i],
            (#[trigger] catalog.accounts@[k]).key@,
        ) && (forall|j: int|
            i < j < rows.len() ==> !is_row_of(#[trigger] rows[j], catalog.accounts@[k].key@)) implies {
        &&& catalog.accounts@[k]@.internal_name == column_text(rows[i]->Ok_0.name->Ok_0)
        &&& catalog.accounts@[k]@.battle_tag == column_text(rows[i]->Ok_0.battle_tag->Ok_0)
    } by {
        let key = catalog.accounts@[k].key@;
        assert(keys[k] == key);
        assert(keys.contains(key));
        assert(is_shown(key));
        assert(map[key] == catalog.accounts@[k]@);
    }
}

/// The second part of an id is what stands behind its one colon, where something stands on
/// both sides of it.
pub proof fn law_low_id_is_the_second_of_two_parts(
    account_id: Seq<char>,
    high: Seq<char>,
    low: Seq<char>,
)
    ensures
        account_id == high + ":"@ + low && high.len() > 0 && low.len() > 0 && !high.contains(':')
            && !low.contains(':') ==> low_id(account_id) == Some(low),
        low_id(account_id) is Some ==> {
            let second = low_id(account_id)->0;
            let first = account_id.take(account_id.len() - second.len() - 1);
            &&& account_id == first + ":"@ + second
            &&& first.len() > 0
            &&& second.len() > 0
            &&& !first.contains(':')
            &&& !second.contains(':')
        },
{
    reveal_strlit(":");
    text::lemma_position(account_id, ':');
    let at = text::position(account_id, ':') as int;
    let rest = text::after(account_id, ':');
    text::lemma_position(rest, ':');
    if account_id == high + ":"@ + low && high.len() > 0 && low.len() > 0 && !high.contains(':')
        && !low.contains(':') {
        assert(account_id[high.len() as int] == ':');
        assert(at == high.len()) by {
            if at < high.len() {
                assert(high[at] == account_id[at]);
                assert(high.contains(high[at]));
            }
        }
        assert(rest =~= low);
        if text::position(low, ':') < low.len() {
            assert(low.contains(low[text::position(low, ':') as int]));
        }
    }
    if low_id(account_id) is Some {
        let second = low_id(account_id)->0;
        let first = account_id.take(account_id.len() - second.len() - 1);
        assert(second.len() == account_id.len() - at - 1);
        assert(first.len() == at);
        assert(account_id =~= first + ":"@ + second);
    }
}

/// The active account is known exactly where all values can be read and name the same id, or
/// all name none: then that is the id.
pub proof fn law_active_account_is_what_all_values_name(values: Seq<Result<String, String>>)
    ensures
        active_account(values) is Ok <==> {
            &&& forall|i: int| 0 <= i < values.len() ==> active_id(#[trigger] values[i]) is Ok
            &&& forall|i: int, j: int|
                0 <= i < values.len() && 0 <= j < values.len() ==> active_id(
                    #[trigger] values[i],
                ) == active_id(#[trigger] values[j])
        },
        active_account(values) is Ok && values.len() > 0 ==> active_account(values) == active_id(
            values[0],
        ),
        values.len() == 0 ==> active_account(values) == Ok::<Option<Seq<char>>, ErrorView>(None),
{
    lemma_active_ids(values);
    if active_ids(values) is Ok {
        let ids = active_ids(values)->Ok_0;
        if active_account(values) is Ok {
            assert forall|i: int, j: int|
                0 <= i < values.len() && 0 <= j < values.len() implies active_id(
                #[trigger] values[i],
            ) == active_id(#[trigger] values[j]) by {
                assert(ids[i] == ids[0]);
                assert(ids[j] == ids[0]);
            }
        } else {
            let i = choose|i: int| 0 <= i < ids.len() && #[trigger] ids[i] != ids[0];
            assert(active_id(values[i]) != active_id(values[0]));
        }
    }
}

proof fn lemma_active_ids(values: Seq<Result<String, String>>)
    ensures
        active_ids(values) is Ok <==> forall|i: int|
            0 <= i < values.len() ==> active_id(#[trigger] values[i]) is Ok,
        active_ids(values) is Ok ==> active_ids(values)->Ok_0.len() == values.len() && forall|i: int|
            0 <= i < values.len() ==> active_id(values[i]) == Ok::<Option<Seq<char>>, ErrorView>(
                #[trigger] active_ids(values)->Ok_0[i],
            ),
    decreases values.len(),
{
    if values.len() > 0 {
        let front = values.drop_last();
        lemma_active_ids(front);
        assert forall|i: int| 0 <= i < front.len() implies front[i] == #[trigger] values[i] by {}
        if forall|i: int| 0 <= i < values.len() ==> active_id(#[trigger] values[i]) is Ok {
            assert forall|i: int| 0 <= i < front.len() implies active_id(#[trigger] front[i]) is Ok by {
                assert(active_id(values[i]) is Ok);
            }
            assert(active_id(values[values.len() - 1]) is Ok);
        }
        if active_ids(values) is Ok {
            assert forall|i: int| 0 <= i < values.len() implies active_id(#[trigger] values[i])
                is Ok by {
                if i < front.len() {
                    assert(active_id(front[i]) is Ok);
                }
            }
        }
    }
}

} // verus!
