//! The values that the front end and the library exchange.

use vstd::prelude::*;

use crate::text;

verus! {

/// An account: the Battle.net environment it belongs to and its id there.
#[derive(Debug, Eq, Hash)]
pub struct AccountKey {
    pub environment: String,
    pub account_id: String,
}

/// An [`AccountKey`] with its texts as character sequences.
pub struct AccountKeyView {
    pub environment: Seq<char>,
    pub account_id: Seq<char>,
}

impl View for AccountKey {
    type V = AccountKeyView;

    open spec fn view(&self) -> AccountKeyView {
        AccountKeyView { environment: self.environment@, account_id: self.account_id@ }
    }
}

impl Clone for AccountKey {
    fn clone(&self) -> (copy: Self)
        ensures
            copy == *self,
    {
        AccountKey { environment: self.environment.clone(), account_id: self.account_id.clone() }
    }
}

impl PartialEq for AccountKey {
    fn eq(&self, other: &Self) -> (same: bool) {
        text::same_text(self.environment.as_str(), other.environment.as_str()) && text::same_text(
            self.account_id.as_str(),
            other.account_id.as_str(),
        )
    }
}

impl vstd::std_specs::cmp::PartialEqSpecImpl for AccountKey {
    open spec fn obeys_eq_spec() -> bool {
        true
    }

    open spec fn eq_spec(&self, other: &Self) -> bool {
        self@ == other@
    }
}

impl AccountKeyView {
    /// The order of accounts: by environment, then by id.
    pub open spec fn less(self, other: AccountKeyView) -> bool {
        text::text_less(self.environment, other.environment) || (self.environment
            == other.environment && text::text_less(self.account_id, other.account_id))
    }
}

/// The order of accounts is total and strict.
pub proof fn lemma_account_order(a: AccountKeyView, b: AccountKeyView)
    ensures
        !a.less(a),
        !(a.less(b) && b.less(a)),
        a != b ==> a.less(b) || b.less(a),
{
    text::lemma_text_order(a.environment, b.environment);
    text::lemma_text_order(a.account_id, b.account_id);
}

/// The order of accounts is transitive.
pub proof fn lemma_account_order_transitive(
    a: AccountKeyView,
    b: AccountKeyView,
    c: AccountKeyView,
)
    requires
        a.less(b),
        b.less(c),
    ensures
        a.less(c),
{
    if text::text_less(a.environment, b.environment) {
        if text::text_less(b.environment, c.environment) {
            text::lemma_text_order_transitive(a.environment, b.environment, c.environment);
        }
    } else if !text::text_less(b.environment, c.environment) {
        text::lemma_text_order_transitive(a.account_id, b.account_id, c.account_id);
    }
}

impl AccountKeyView {
    /// The id of the account among all environments.
    pub open spec fn stable_id(self) -> Seq<char> {
        self.environment + ":"@ + self.account_id
    }
}

/// Different accounts have different ids, where no environment holds a colon.
pub proof fn law_stable_id_determines_account(first: AccountKeyView, second: AccountKeyView)
    requires
        first.stable_id() == second.stable_id(),
        !first.environment.contains(':'),
        !second.environment.contains(':'),
    ensures
        first == second,
{
    reveal_strlit(":");
    let a = first.stable_id();
    let n = first.environment.len() as int;
    let m = second.environment.len() as int;
    assert(a[n] == ':');
    assert(a[m] == ':');
    if n < m {
        assert(a[n] == second.environment[n]);
    }
    if m < n {
        assert(a[m] == first.environment[m]);
    }
    assert(first.environment =~= a.subrange(0, n));
    assert(second.environment =~= a.subrange(0, m));
    assert(first.account_id =~= a.subrange(n + 1, a.len() as int));
    assert(second.account_id =~= a.subrange(m + 1, a.len() as int));
}

impl AccountKey {
    /// The id of the account among all environments.
    pub fn stable_id(&self) -> (id: String)
        ensures
            id@ == self@.stable_id(),
    {
        text::joined3(self.environment.as_str(), ":", self.account_id.as_str())
    }

    /// Whether the account stands before `other`.
    pub fn is_before(&self, other: &AccountKey) -> (before: bool)
        ensures
            before == self@.less(other@),
    {
        text::is_less(self.environment.as_str(), other.environment.as_str()) || (text::same_text(
            self.environment.as_str(),
            other.environment.as_str(),
        ) && text::is_less(self.account_id.as_str(), other.account_id.as_str()))
    }
}

/// The region that a login is started for.
#[derive(Clone, Copy, Debug, PartialEq, Eq, Structural)]
pub enum LoginRegion {
    China,
    Asia,
    Europe,
    Americas,
}

/// The region whose environment `environment` names.
pub open spec fn region_of(environment: Seq<char>) -> Option<LoginRegion> {
    let name = text::lowered(text::trimmed(environment));
    if name == "cn"@ || name == "cn.actual.battlenet.com.cn"@ {
        Some(LoginRegion::China)
    } else if name == "kr"@ || name == "kr.actual.battle.net"@ {
        Some(LoginRegion::Asia)
    } else if name == "eu"@ || name == "eu.actual.battle.net"@ {
        Some(LoginRegion::Europe)
    } else if name == "us"@ || name == "us.actual.battle.net"@ {
        Some(LoginRegion::Americas)
    } else {
        None
    }
}

impl LoginRegion {
    /// The code that the client is launched with.
    pub open spec fn code(self) -> Seq<char> {
        match self {
            LoginRegion::China => "CN"@,
            LoginRegion::Asia => "KR"@,
            LoginRegion::Europe => "EU"@,
            LoginRegion::Americas => "US"@,
        }
    }

    /// The code that the client is launched with.
    pub fn launch_code(self) -> (code: &'static str)
        ensures
            code@ == self.code(),
    {
        match self {
            LoginRegion::China => "CN",
            LoginRegion::Asia => "KR",
            LoginRegion::Europe => "EU",
            LoginRegion::Americas => "US",
        }
    }

    /// The region whose environment `environment` names, where it names one.
    pub fn from_environment(environment: &str) -> (region: Option<Self>)
        ensures
            region == region_of(environment@),
    {
        let trimmed = text::trim(environment);
        let name = text::to_ascii_lowercase(trimmed.as_str());
        let name = name.as_str();
        if text::same_text(name, "cn") || text::same_text(name, "cn.actual.battlenet.com.cn") {
            Some(LoginRegion::China)
        } else if text::same_text(name, "kr") || text::same_text(name, "kr.actual.battle.net") {
            Some(LoginRegion::Asia)
        } else if text::same_text(name, "eu") || text::same_text(name, "eu.actual.battle.net") {
            Some(LoginRegion::Europe)
        } else if text::same_text(name, "us") || text::same_text(name, "us.actual.battle.net") {
            Some(LoginRegion::Americas)
        } else {
            None
        }
    }

    /// Whether `environment` names this region.
    pub fn matches_environment(self, environment: &str) -> (matches: bool)
        ensures
            matches == (region_of(environment@) == Some(self)),
    {
        match LoginRegion::from_environment(environment) {
            Some(region) => region == self,
            None => false,
        }
    }
}

/// What a login is meant for.
#[derive(Debug, Eq)]
pub enum LoginIntent {
    Reauthenticate { account_key: AccountKey },
}

/// A [`LoginIntent`] with its account as character sequences.
pub enum LoginIntentView {
    Reauthenticate { account_key: AccountKeyView },
}

impl View for LoginIntent {
    type V = LoginIntentView;

    open spec fn view(&self) -> LoginIntentView {
        match *self {
            LoginIntent::Reauthenticate { account_key } => LoginIntentView::Reauthenticate {
                account_key: account_key@,
            },
        }
    }
}

impl Clone for LoginIntent {
    fn clone(&self) -> (copy: Self)
        ensures
            copy == *self,
    {
        match self {
            LoginIntent::Reauthenticate { account_key } => LoginIntent::Reauthenticate {
                account_key: account_key.clone(),
            },
        }
    }
}

impl PartialEq for LoginIntent {
    fn eq(&self, other: &Self) -> (same: bool) {
        match (self, other) {
            (
                LoginIntent::Reauthenticate { account_key: left },
                LoginIntent::Reauthenticate { account_key: right },
            ) => *left == *right,
        }
    }
}

impl vstd::std_specs::cmp::PartialEqSpecImpl for LoginIntent {
    open spec fn obeys_eq_spec() -> bool {
        true
    }

    open spec fn eq_spec(&self, other: &Self) -> bool {
        self@ == other@
    }
}

impl LoginIntent {
    /// The account that has to be logged in.
    pub open spec fn account(self) -> AccountKey {
        match self {
            LoginIntent::Reauthenticate { account_key } => account_key,
        }
    }

    /// The account that has to be logged in.
    pub fn account_key(&self) -> (key: &AccountKey)
        ensures
            *key == self.account(),
    {
        match self {
            LoginIntent::Reauthenticate { account_key } => account_key,
        }
    }

    /// The region to launch the client for, where the account's environment
    /// names one.
    pub fn requested_region(&self) -> (region: Option<LoginRegion>)
        ensures
            region == region_of(self.account().environment@),
    {
        LoginRegion::from_environment(self.account_key().environment.as_str())
    }
}

/// What the front end shows of the whole application.
#[derive(Debug)]
pub struct AppSnapshot {
    pub app_name: String,
    pub version: String,
    pub mode: String,
    pub platform: String,
    pub data_directory: String,
    pub client: ClientSnapshot,
    pub accounts: Vec<AccountSnapshot>,
    pub login_session: Option<LoginSessionSnapshot>,
    pub notice: Option<String>,
    pub updated_at: u64,
}

/// A login that waits for the user.
#[derive(Debug)]
pub struct LoginSessionSnapshot {
    pub id: String,
    pub intent: LoginIntent,
    pub created_at: u64,
}

impl Clone for LoginSessionSnapshot {
    fn clone(&self) -> (copy: Self)
        ensures
            copy == *self,
    {
        LoginSessionSnapshot {
            id: self.id.clone(),
            intent: self.intent.clone(),
            created_at: self.created_at,
        }
    }
}

/// How a login ended.
#[derive(Debug)]
pub struct LoginCompletionResult {
    pub snapshot: AppSnapshot,
    pub cancelled: bool,
}

/// The answer to a request to cancel a login.
#[derive(Clone, Copy, Debug, PartialEq, Eq, Structural)]
pub enum LoginCancellationStatus {
    Accepted,
    Starting,
    TooLate,
}

/// What the front end shows of the client.
#[derive(Debug)]
pub struct ClientSnapshot {
    pub status: ClientStatus,
    pub executable_path: String,
    pub detected_automatically: bool,
}

/// What the front end shows of one account.
#[derive(Debug)]
pub struct AccountSnapshot {
    pub key: AccountKey,
    pub id: String,
    pub battle_tag: String,
    pub region: String,
    pub environment: String,
    pub snapshot_status: SnapshotStatus,
    pub last_saved_at: Option<u64>,
    pub note: Option<String>,
}

/// Whether the client is running.
#[derive(Clone, Copy, Debug, PartialEq, Eq, Structural)]
pub enum ClientStatus {
    Running,
    Stopped,
}

/// Whether an account can be switched to.
#[derive(Clone, Copy, Debug, PartialEq, Eq, Structural)]
pub enum SnapshotStatus {
    Ready,
    Expired,
    Missing,
}

/// What a progress report is about.
#[derive(Clone, Copy, Debug, PartialEq, Eq, Structural)]
pub enum OperationKind {
    Recovery,
    Switch,
    Login,
}

/// A progress report.
#[derive(Debug)]
pub struct OperationEvent {
    pub kind: OperationKind,
    pub phase: String,
    pub title: String,
    pub detail: String,
    pub progress: u8,
}

/// An [`OperationEvent`] with its texts as character sequences.
pub struct EventView {
    pub kind: OperationKind,
    pub phase: Seq<char>,
    pub title: Seq<char>,
    pub detail: Seq<char>,
    pub progress: u8,
}

impl View for OperationEvent {
    type V = EventView;

    open spec fn view(&self) -> EventView {
        EventView {
            kind: self.kind,
            phase: self.phase@,
            title: self.title@,
            detail: self.detail@,
            progress: self.progress,
        }
    }
}

/// An account found in the client's database.
#[derive(Debug)]
pub struct DiscoveredAccount {
    pub key: AccountKey,
    pub internal_name: String,
    pub battle_tag: String,
}

/// A [`DiscoveredAccount`] with its texts as character sequences.
pub struct DiscoveredAccountView {
    pub key: AccountKeyView,
    pub internal_name: Seq<char>,
    pub battle_tag: Seq<char>,
}

impl View for DiscoveredAccount {
    type V = DiscoveredAccountView;

    open spec fn view(&self) -> DiscoveredAccountView {
        DiscoveredAccountView {
            key: self.key@,
            internal_name: self.internal_name@,
            battle_tag: self.battle_tag@,
        }
    }
}

/// The accounts of the client, and the one that is logged in.
#[derive(Debug)]
pub struct AccountCatalog {
    pub accounts: Vec<DiscoveredAccount>,
    pub current_account_key: Option<AccountKey>,
}

/// The account `key`, where there is one, as character sequences.
pub open spec fn key_view(key: Option<AccountKey>) -> Option<AccountKeyView> {
    match key {
        Some(key) => Some(key@),
        None => None,
    }
}

} // verus!
