//! What the services of both platforms share.

use vstd::prelude::*;

use crate::contracts::AccountCatalog;
use crate::contracts::AccountKey;
use crate::contracts::AccountKeyView;
use crate::contracts::AccountSnapshot;
use crate::contracts::DiscoveredAccount;
use crate::contracts::EventView;
use crate::contracts::OperationEvent;
use crate::contracts::OperationKind;
use crate::contracts::SnapshotStatus;
use crate::data_store;
use crate::data_store::HiddenAccountKey;
use crate::data_store::HiddenAccounts;
use crate::data_store::RestoredAccounts;
use crate::error::AppError;
use crate::error::ErrorView;
use crate::step;
use crate::text;

verus! {

/// The accounts that are not hidden, in their order.
pub open spec fn shown_accounts(
    accounts: Seq<DiscoveredAccount>,
    hidden: Set<AccountKeyView>,
) -> Seq<DiscoveredAccount> {
    accounts.filter(|account: DiscoveredAccount| !hidden.contains(account.key@))
}

/// An account is among those that are shown where it is one of the accounts and not hidden.
pub proof fn lemma_shown(
    accounts: Seq<DiscoveredAccount>,
    hidden: Set<AccountKeyView>,
    account: DiscoveredAccount,
)
    ensures
        shown_accounts(accounts, hidden).contains(account) == (accounts.contains(account)
            && !hidden.contains(account.key@)),
{
    let shown = |account: DiscoveredAccount| !hidden.contains(account.key@);
    let kept = accounts.filter(shown);
    if kept.contains(account) {
        accounts.lemma_filter_contains_rev(shown, account);
        let i = choose|i: int| 0 <= i < kept.len() && kept[i] == account;
        accounts.lemma_filter_pred(shown, i);
    }
    if accounts.contains(account) && shown(account) {
        let i = choose|i: int| 0 <= i < accounts.len() && accounts[i] == account;
        accounts.lemma_filter_contains(shown, i);
    }
}

/// Whether `snapshot` shows `account` with the given saved state.
pub open spec fn shows_account(
    snapshot: AccountSnapshot,
    account: DiscoveredAccount,
    status: (SnapshotStatus, Option<u64>, Option<String>),
) -> bool {
    &&& snapshot.key == account.key
    &&& snapshot.id@ == account.key@.stable_id()
    &&& snapshot.battle_tag == (if text::trimmed(account.battle_tag@).len() == 0 {
        account.internal_name
    } else {
        account.battle_tag
    })
    &&& snapshot.region@ == region_name(account.key.environment@)
    &&& snapshot.environment == account.key.environment
    &&& snapshot.snapshot_status == status.0
    &&& snapshot.last_saved_at == status.1
    &&& snapshot.note == status.2
}

/// Whether `snapshot` shows `account` with a saved state that `snapshot_status`
/// gives for it.
pub open spec fn shown_as<
    F: Fn(&AccountKey) -> (SnapshotStatus, Option<u64>, Option<String>),
>(snapshot_status: F, snapshot: AccountSnapshot, account: DiscoveredAccount) -> bool {
    exists|status: (SnapshotStatus, Option<u64>, Option<String>)|
        call_ensures(snapshot_status, (&account.key,), status) && #[trigger] shows_account(
            snapshot,
            account,
            status,
        )
}

/// What the front end shows of the accounts that are not hidden, in their
/// order; `snapshot_status` says what is saved of an account.
pub fn account_snapshots<F: Fn(&AccountKey) -> (SnapshotStatus, Option<u64>, Option<String>)>(
    accounts: &Vec<DiscoveredAccount>,
    hidden_accounts: &HiddenAccounts,
    snapshot_status: F,
) -> (snapshots: Vec<AccountSnapshot>)
    requires
        forall|key: &AccountKey| #[trigger] call_requires(snapshot_status, (key,)),
    ensures
        snapshots.len() == shown_accounts(accounts@, hidden_accounts@).len(),
        forall|i: int|
            0 <= i < snapshots.len() ==> shown_as(
                snapshot_status,
                #[trigger] snapshots@[i],
                shown_accounts(accounts@, hidden_accounts@)[i],
            ),
{
    let mut snapshots: Vec<AccountSnapshot> = Vec::new();
    let mut i: usize = 0;
    assert(accounts@.take(0) =~= Seq::<DiscoveredAccount>::empty());
    proof {
        reveal(Seq::filter);
    }
    while i < accounts.len()
        invariant
            i <= accounts.len(),
            forall|key: &AccountKey| #[trigger] call_requires(snapshot_status, (key,)),
            snapshots.len() == shown_accounts(accounts@.take(i as int), hidden_accounts@).len(),
            forall|j: int|
                0 <= j < snapshots.len() ==> shown_as(
                    snapshot_status,
                    #[trigger] snapshots@[j],
                    shown_accounts(accounts@.take(i as int), hidden_accounts@)[j],
                ),
        decreases accounts.len() - i,
    {
        let account = &accounts[i];
        let ghost shorter = shown_accounts(accounts@.take(i as int), hidden_accounts@);
        let ghost before = snapshots@;
        proof {
            reveal(Seq::filter);
            assert(accounts@.take(i + 1).drop_last() =~= accounts@.take(i as int));
            assert(accounts@.take(i + 1).last() == *account);
        }
        let key = HiddenAccountKey::from(&account.key);
        assert(key@ == account.key@);
        if !hidden_accounts.contains(&key) {
            let status = snapshot_status(&account.key);
            let ghost saved = status;
            let battle_tag = if text::is_blank(account.battle_tag.as_str()) {
                account.internal_name.clone()
            } else {
                account.battle_tag.clone()
            };
            let snapshot = AccountSnapshot {
                id: account.key.stable_id(),
                region: region_label(account.key.environment.as_str()).to_owned(),
                environment: account.key.environment.clone(),
                key: account.key.clone(),
                battle_tag,
                snapshot_status: status.0,
                last_saved_at: status.1,
                note: status.2,
            };
            assert(shows_account(snapshot, *account, saved));
            assert(shown_as(snapshot_status, snapshot, *account));
            snapshots.push(snapshot);
            assert(shown_accounts(accounts@.take(i + 1), hidden_accounts@) == shorter.push(
                *account,
            ));
            assert forall|j: int| 0 <= j < snapshots.len() implies shown_as(
                snapshot_status,
                #[trigger] snapshots@[j],
                shown_accounts(accounts@.take(i + 1), hidden_accounts@)[j],
            ) by {
                if j < before.len() {
                    assert(snapshots@[j] == before[j]);
                }
            }
        } else {
            assert(shown_accounts(accounts@.take(i + 1), hidden_accounts@) == shorter);
        }
        i = i + 1;
    }
    assert(accounts@.take(i as int) =~= accounts@);
    snapshots
}

/// Whether a login is proved: it was authenticated, and the account that is
/// logged in is the one that was asked for.
pub fn login_evidence_ready(
    authenticated: bool,
    current: Option<&AccountKey>,
    target: &AccountKey,
) -> (ready: bool)
    ensures
        ready == (authenticated && current is Some && current->0@ == target@),
{
    match current {
        Some(current) => authenticated && *current == *target,
        None => false,
    }
}

/// The name of the region that an environment belongs to.
pub open spec fn region_name(environment: Seq<char>) -> Seq<char> {
    let name = text::lowered(text::trimmed(environment));
    let host = text::before(name, '.');
    if name == "cn"@ || text::begins_with(name, "cn."@) || text::holds_text(
        name,
        "battlenet.com.cn"@,
    ) || text::holds_text(name, "battle.net.cn"@) {
        "国服"@
    } else if host == "us"@ {
        "美服"@
    } else if host == "eu"@ {
        "欧服"@
    } else if host == "kr"@ {
        "亚服"@
    } else if host == "tw"@ {
        "台服"@
    } else if host == "sea"@ {
        "东南亚服"@
    } else if host == "global"@ {
        "国际服"@
    } else {
        "未知区服"@
    }
}

/// The name of the region that an environment belongs to.
pub fn region_label(environment: &str) -> (label: &'static str)
    ensures
        label@ == region_name(environment@),
{
    let trimmed = text::trim(environment);
    let lower = text::to_ascii_lowercase(trimmed.as_str());
    let name = lower.as_str();
    if text::same_text(name, "cn") || text::starts_with(name, "cn.") || text::contains(
        name,
        "battlenet.com.cn",
    ) || text::contains(name, "battle.net.cn") {
        return "国服";
    }
    let first = text::first_part(name, '.');
    let host = first.as_str();
    if text::same_text(host, "us") {
        "美服"
    } else if text::same_text(host, "eu") {
        "欧服"
    } else if text::same_text(host, "kr") {
        "亚服"
    } else if text::same_text(host, "tw") {
        "台服"
    } else if text::same_text(host, "sea") {
        "东南亚服"
    } else if text::same_text(host, "global") {
        "国际服"
    } else {
        "未知区服"
    }
}

/// One file of a directory whose changes are watched: its name, its size and
/// the nanoseconds of its last change.
#[derive(Debug)]
pub struct FileStamp {
    pub name: String,
    pub size: u64,
    pub modified: u128,
}

/// A [`FileStamp`] with its name as a character sequence.
pub struct FileStampView {
    pub name: Seq<char>,
    pub size: u64,
    pub modified: u128,
}

impl View for FileStamp {
    type V = FileStampView;

    open spec fn view(&self) -> FileStampView {
        FileStampView { name: self.name@, size: self.size, modified: self.modified }
    }
}

/// The state of a directory: its files in the order of their names.
pub open spec fn stamp_views(stamps: Seq<FileStamp>) -> Seq<FileStampView> {
    stamps.map_values(|stamp: FileStamp| stamp@)
}

/// Whether both samples saw the same files.
pub fn same_stamps(left: &Vec<FileStamp>, right: &Vec<FileStamp>) -> (same: bool)
    ensures
        same == (stamp_views(left@) == stamp_views(right@)),
{
    if left.len() != right.len() {
        assert(stamp_views(left@).len() != stamp_views(right@).len());
        return false;
    }
    let mut i: usize = 0;
    while i < left.len()
        invariant
            i <= left.len() == right.len(),
            forall|j: int| 0 <= j < i ==> left@[j]@ == right@[j]@,
        decreases left.len() - i,
    {
        if !text::same_text(left[i].name.as_str(), right[i].name.as_str()) || left[i].size
            != right[i].size || left[i].modified != right[i].modified {
            assert(stamp_views(left@)[i as int] != stamp_views(right@)[i as int]);
            return false;
        }
        i = i + 1;
    }
    assert(stamp_views(left@) =~= stamp_views(right@));
    true
}

/// One entry of a directory whose changes are watched.
#[derive(Debug)]
pub struct WatchedEntry {
    pub is_file: bool,
    pub stamp: FileStamp,
}

/// The stamps of the entries that are files.
pub open spec fn file_stamps(entries: Seq<WatchedEntry>) -> Seq<FileStampView>
    decreases entries.len(),
{
    if entries.len() == 0 {
        Seq::empty()
    } else if entries.last().is_file {
        file_stamps(entries.drop_last()).push(entries.last().stamp@)
    } else {
        file_stamps(entries.drop_last())
    }
}

impl FileStampView {
    /// The order of stamps: by name, then by size, then by the last change.
    pub open spec fn less(self, other: FileStampView) -> bool {
        if self.name != other.name {
            text::text_less(self.name, other.name)
        } else if self.size != other.size {
            self.size < other.size
        } else {
            self.modified < other.modified
        }
    }
}

impl FileStamp {
    fn is_before(&self, other: &FileStamp) -> (before: bool)
        ensures
            before == self@.less(other@),
    {
        if !text::same_text(self.name.as_str(), other.name.as_str()) {
            text::is_less(self.name.as_str(), other.name.as_str())
        } else if self.size != other.size {
            self.size < other.size
        } else {
            self.modified < other.modified
        }
    }
}

proof fn lemma_stamp_order(a: FileStampView, b: FileStampView, c: FileStampView)
    ensures
        !a.less(a),
        !(a.less(b) && b.less(a)),
        a != b ==> a.less(b) || b.less(a),
        a.less(b) && b.less(c) ==> a.less(c),
{
    text::lemma_text_order(a.name, b.name);
    text::lemma_text_order(b.name, c.name);
    text::lemma_text_order(a.name, c.name);
    if text::text_less(a.name, b.name) && text::text_less(b.name, c.name) {
        text::lemma_text_order_transitive(a.name, b.name, c.name);
    }
}

/// Whether no stamp stands after a greater one.
pub open spec fn in_order(stamps: Seq<FileStampView>) -> bool {
    forall|i: int, j: int|
        0 <= i < j < stamps.len() ==> !(#[trigger] stamps[j]).less(#[trigger] stamps[i])
}

/// The state of a directory: the stamps of its files, in order.
pub fn directory_fingerprint(entries: Vec<WatchedEntry>) -> (fingerprint: Vec<FileStamp>)
    ensures
        stamp_views(fingerprint@).to_multiset() == file_stamps(entries@).to_multiset(),
        in_order(stamp_views(fingerprint@)),
{
    let ghost all = entries@;
    let mut rest = entries;
    let mut sorted: Vec<FileStamp> = Vec::new();
    let ghost mut taken: Seq<FileStampView> = Seq::empty();
    proof {
        broadcast use vstd::seq_lib::group_to_multiset_ensures;
        assert(file_stamps(all) =~= file_stamps(rest@) + taken);
        assert(stamp_views(sorted@) =~= taken);
    }
    while rest.len() > 0
        invariant
            file_stamps(all) =~= file_stamps(rest@) + taken,
            stamp_views(sorted@).to_multiset() == taken.to_multiset(),
            in_order(stamp_views(sorted@)),
        decreases rest.len(),
    {
        let ghost before_rest = rest@;
        let entry = rest.pop();
        match entry {
            None => {},
            Some(entry) => {
                assert(rest@ =~= before_rest.drop_last());
                assert(entry == before_rest.last());
                if entry.is_file {
                    let ghost before = stamp_views(sorted@);
                    let stamp = entry.stamp;
                    let mut at: usize = sorted.len();
                    while at > 0 && stamp.is_before(&sorted[at - 1])
                        invariant
                            at <= sorted.len(),
                            stamp_views(sorted@) == before,
                            in_order(before),
                            forall|j: int|
                                at <= j < sorted.len() ==> stamp@.less(#[trigger] before[j]),
                        decreases at,
                    {
                        assert(before[at - 1] == sorted@[at - 1]@);
                        at = at - 1;
                    }
                    proof {
                        if at > 0 {
                            assert(before[at - 1] == sorted@[at - 1]@);
                            assert forall|j: int| 0 <= j < at implies !stamp@.less(
                                #[trigger] before[j],
                            ) by {
                                if j < at - 1 {
                                    lemma_stamp_order(stamp@, before[j], before[at - 1]);
                                    lemma_stamp_order(before[j], before[at - 1], stamp@);
                                }
                            }
                        }
                    }
                    let ghost view = stamp@;
                    sorted.insert(at, stamp);
                    proof {
                        let after = stamp_views(sorted@);
                        assert(after =~= before.insert(at as int, view));
                        assert forall|a: int, b: int| 0 <= a < b < after.len() implies !(
                        #[trigger] after[b]).less(#[trigger] after[a]) by {
                            if b < at {
                                assert(after[a] == before[a] && after[b] == before[b]);
                            } else if b == at {
                                assert(after[a] == before[a]);
                            } else if a < at {
                                assert(after[a] == before[a] && after[b] == before[b - 1]);
                            } else if a == at {
                                assert(after[b] == before[b - 1]);
                                lemma_stamp_order(view, before[b - 1], view);
                            } else {
                                assert(after[a] == before[a - 1] && after[b] == before[b - 1]);
                            }
                        }
                        vstd::seq_lib::to_multiset_insert(before, at as int, view);
                        vstd::seq_lib::to_multiset_insert(taken, 0, view);
                        assert(taken.insert(0, view) =~= seq![view] + taken);
                        taken = seq![view] + taken;
                    }
                }
            },
        }
    }
    assert(file_stamps(rest@) + taken =~= taken);
    sorted
}

proof fn lemma_order_is_unique(first: Seq<FileStampView>, second: Seq<FileStampView>)
    requires
        in_order(first),
        in_order(second),
        first.to_multiset() == second.to_multiset(),
    ensures
        first == second,
    decreases first.len(),
{
    broadcast use vstd::seq_lib::group_to_multiset_ensures;

    vstd::seq_lib::to_multiset_len(first);
    vstd::seq_lib::to_multiset_len(second);
    if first.len() == 0 {
        assert(second =~= first);
    } else {
        let a = first.last();
        let b = second.last();
        assert(second.to_multiset().count(a) > 0);
        assert(first.to_multiset().count(b) > 0);
        let i = choose|i: int| 0 <= i < second.len() && second[i] == a;
        let j = choose|j: int| 0 <= j < first.len() && first[j] == b;
        lemma_stamp_order(a, b, a);
        assert(a == b);
        assert(first =~= first.drop_last().push(a));
        assert(second =~= second.drop_last().push(a));
        vstd::seq_lib::to_multiset_build(first.drop_last(), a);
        vstd::seq_lib::to_multiset_build(second.drop_last(), a);
        assert(first.drop_last().to_multiset() =~= second.drop_last().to_multiset()) by {
            assert(first.to_multiset().remove(a) =~= first.drop_last().to_multiset());
            assert(second.to_multiset().remove(a) =~= second.drop_last().to_multiset());
        }
        lemma_order_is_unique(first.drop_last(), second.drop_last());
    }
}

/// The state of a directory does not depend on the order in which its entries are
/// listed.
pub proof fn law_fingerprint_ignores_listing_order(
    first: Seq<FileStamp>,
    second: Seq<FileStamp>,
    entries: Seq<WatchedEntry>,
    reordered: Seq<WatchedEntry>,
)
    requires
        file_stamps(entries).to_multiset() == file_stamps(reordered).to_multiset(),
        stamp_views(first).to_multiset() == file_stamps(entries).to_multiset(),
        in_order(stamp_views(first)),
        stamp_views(second).to_multiset() == file_stamps(reordered).to_multiset(),
        in_order(stamp_views(second)),
    ensures
        stamp_views(first) == stamp_views(second),
{
    lemma_order_is_unique(stamp_views(first), stamp_views(second));
}

/// A watch that waits until something stops changing: what was seen last, and
/// how often in a row it was seen again.
#[derive(Debug)]
pub struct StabilityWatch {
    pub previous: Vec<FileStamp>,
    pub stable_samples: u8,
}

/// What a watch says after a sample.
#[derive(Debug)]
pub enum Stability {
    Stable,
    Watching(StabilityWatch),
}

/// The number of equal samples at the end of `samples`, counted from the sample
/// that the watch began with.
pub open spec fn equal_samples_in_a_row<S>(first: S, samples: Seq<S>) -> nat
    decreases samples.len(),
{
    if samples.len() == 0 {
        0
    } else {
        let before = if samples.len() == 1 {
            first
        } else {
            samples[samples.len() - 2]
        };
        if samples.last() == before {
            equal_samples_in_a_row(first, samples.drop_last()) + 1
        } else {
            0
        }
    }
}

impl StabilityWatch {
    /// Begins with a first sample.
    pub fn new(first: Vec<FileStamp>) -> (watch: StabilityWatch)
        ensures
            watch.previous == first,
            watch.stable_samples == 0,
    {
        StabilityWatch { previous: first, stable_samples: 0 }
    }

    /// Whether the watch goes on after `elapsed_ms` of the `timeout_ms` that it
    /// may take.
    pub fn may_go_on(&self, elapsed_ms: u64, timeout_ms: u64) -> (may: bool)
        ensures
            may == (elapsed_ms < timeout_ms),
    {
        elapsed_ms < timeout_ms
    }

    /// Takes one more sample: the second one in a row that equals its
    /// predecessor ends the watch.
    pub fn wait_for_stable(self, current: Vec<FileStamp>) -> (stability: Stability)
        ensures
            ({
                let same = stamp_views(current@) == stamp_views(self.previous@);
                if same && self.stable_samples >= 1 {
                    stability is Stable
                } else if same {
                    stability == Stability::Watching(
                        StabilityWatch { previous: self.previous, stable_samples: 1 },
                    )
                } else {
                    stability == Stability::Watching(
                        StabilityWatch { previous: current, stable_samples: 0 },
                    )
                }
            }),
    {
        if same_stamps(&current, &self.previous) {
            if self.stable_samples >= 1 {
                Stability::Stable
            } else {
                Stability::Watching(
                    StabilityWatch { previous: self.previous, stable_samples: 1 },
                )
            }
        } else {
            Stability::Watching(StabilityWatch { previous: current, stable_samples: 0 })
        }
    }
}

/// Whether `watch` is what the watch has become after the samples, without
/// having ended.
pub open spec fn watched(
    first: Seq<FileStampView>,
    samples: Seq<Seq<FileStampView>>,
    watch: StabilityWatch,
) -> bool {
    &&& stamp_views(watch.previous@) == (if samples.len() == 0 {
        first
    } else {
        samples.last()
    })
    &&& watch.stable_samples == equal_samples_in_a_row(first, samples)
    &&& watch.stable_samples <= 1
}

/// A watch ends exactly at the second sample in a row that equals its
/// predecessor: whatever was seen before, `current` ends it if and only if the
/// two samples before it equal it.
pub proof fn law_stable_after_two_equal_samples(
    first: Seq<FileStampView>,
    samples: Seq<Seq<FileStampView>>,
    watch: StabilityWatch,
    current: Seq<FileStampView>,
)
    requires
        watched(first, samples, watch),
    ensures
        (current == stamp_views(watch.previous@) && watch.stable_samples >= 1) == (
        equal_samples_in_a_row(first, samples.push(current)) >= 2),
        !(current == stamp_views(watch.previous@) && watch.stable_samples >= 1) ==> forall|
            next: StabilityWatch,
        |
            stamp_views(next.previous@) == current && next.stable_samples == (if current
                == stamp_views(watch.previous@) {
                1int
            } else {
                0int
            }) ==> watched(first, samples.push(current), next),
{
    assert(samples.push(current).drop_last() =~= samples);
}

/// When looking at a login began to fail.
pub open spec fn failing_from(failing_since: Option<u64>, now_ms: u64) -> u64 {
    match failing_since {
        Some(since) => since,
        None => now_ms,
    }
}

/// Whether looking at a login has failed for too long.
pub open spec fn failed_too_long(failing_since: Option<u64>, now_ms: u64, timeout_ms: u64) -> bool {
    now_ms - failing_from(failing_since, now_ms) >= timeout_ms
}

/// A report about a login.
pub open spec fn login_event(
    phase: Seq<char>,
    title: Seq<char>,
    detail: Seq<char>,
    progress: u8,
) -> EventView {
    step::event(OperationKind::Login, phase, title, detail, progress)
}

/// A report about a login.
pub fn login_report(phase: &str, title: &str, detail: &str, progress: u8) -> (event:
    OperationEvent)
    ensures
        event@ == login_event(phase@, title@, detail@, progress),
{
    step::emit(OperationKind::Login, phase, title, detail, progress)
}

/// A login error about two errors.
pub open spec fn both_failed(first: ErrorView, what: Seq<char>, second: ErrorView) -> ErrorView {
    ErrorView::Login(first.nested() + what + second.nested())
}

/// A login error about two errors.
pub fn both_failures(first: AppError, what: &str, second: AppError) -> (error: AppError)
    ensures
        error@ == both_failed(first@, what@, second@),
{
    AppError::Login(
        text::joined3(first.nested_message().as_str(), what, second.nested_message().as_str()),
    )
}

/// The keys of the accounts.
pub open spec fn account_keys(accounts: Seq<DiscoveredAccount>) -> Seq<AccountKeyView> {
    accounts.map_values(|account: DiscoveredAccount| account.key@)
}

/// The keys of the accounts, as the hidden accounts are kept.
pub fn detected_keys(accounts: &Vec<DiscoveredAccount>) -> (keys: Vec<HiddenAccountKey>)
    ensures
        data_store::key_views(keys@) == account_keys(accounts@),
{
    let mut keys: Vec<HiddenAccountKey> = Vec::new();
    let mut i: usize = 0;
    while i < accounts.len()
        invariant
            i <= accounts.len(),
            data_store::key_views(keys@) =~= account_keys(accounts@.take(i as int)),
        decreases accounts.len() - i,
    {
        let ghost before = keys@;
        keys.push(HiddenAccountKey::from(&accounts[i].key));
        assert(accounts@.take(i + 1) =~= accounts@.take(i as int).push(accounts@[i as int]));
        assert(data_store::key_views(keys@) =~= data_store::key_views(before).push(
            accounts@[i as int].key@,
        ));
        i = i + 1;
    }
    assert(accounts@.take(i as int) =~= accounts@);
    keys
}

/// Whether the accounts that stay hidden are those of the stored record that were
/// not detected, with a record to be written where they are fewer.
pub open spec fn is_restored(
    restored: RestoredAccounts,
    hidden: Set<AccountKeyView>,
    catalog: AccountCatalog,
) -> bool {
    let remaining = hidden.difference(account_keys(catalog.accounts@).to_set());
    &&& restored.hidden@ == remaining
    &&& restored.document is Some == (remaining != hidden)
    &&& restored.document is Some ==> data_store::is_document_of(restored.document->0, remaining)
}

/// An account that was removed is hidden, and one that is then detected is shown
/// again: of the hidden accounts it alone is taken out.
pub proof fn law_detected_account_is_shown_again(
    hidden: Set<AccountKeyView>,
    removed: AccountKey,
    catalog: AccountCatalog,
    restored: RestoredAccounts,
)
    requires
        account_keys(catalog.accounts@) == seq![removed@],
        is_restored(restored, hidden.insert(removed@), catalog),
    ensures
        restored.hidden@ == hidden.remove(removed@),
        restored.document is Some,
{
    let shown = account_keys(catalog.accounts@).to_set();
    assert(shown =~= set![removed@]) by {
        assert(seq![removed@][0] == removed@);
        assert forall|key: AccountKeyView| shown.contains(key) implies key == removed@ by {}
        assert(account_keys(catalog.accounts@).contains(removed@));
    }
    assert(hidden.insert(removed@).difference(shown) =~= hidden.remove(removed@));
    assert(!hidden.insert(removed@).difference(shown).contains(removed@));
    assert(hidden.insert(removed@).contains(removed@));
}

/// Whether the entry is a file with this stamp.
pub open spec fn is_file_stamp(entry: WatchedEntry, value: FileStampView) -> bool {
    entry.is_file && entry.stamp@ == value
}

/// The stamps that are compared are exactly those of the entries that are files.
pub proof fn law_only_files_are_watched(
    entries: Seq<WatchedEntry>,
    value: FileStampView,
)
    ensures
        file_stamps(entries).contains(value) <==> exists|i: int|
            0 <= i < entries.len() && is_file_stamp(#[trigger] entries[i], value),
    decreases entries.len(),
{
    if entries.len() > 0 {
        let front = entries.drop_last();
        law_only_files_are_watched(front, value);
        let some = file_stamps(front);
        let all = file_stamps(entries);
        if all.contains(value) {
            let at = choose|at: int| 0 <= at < all.len() && all[at] == value;
            if at < some.len() {
                assert(some[at] == value);
                let i = choose|i: int| 0 <= i < front.len() && is_file_stamp(#[trigger] front[i], value);
                assert(is_file_stamp(entries[i], value));
            } else {
                assert(is_file_stamp(entries[entries.len() - 1], value));
            }
        }
        if exists|i: int| 0 <= i < entries.len() && is_file_stamp(#[trigger] entries[i], value) {
            let i = choose|i: int| 0 <= i < entries.len() && is_file_stamp(#[trigger] entries[i], value);
            if i < front.len() {
                assert(is_file_stamp(front[i], value));
                let at = choose|at: int| 0 <= at < some.len() && some[at] == value;
                assert(all[at] == value);
            } else {
                assert(all[some.len() as int] == value);
            }
        }
    }
}

} // verus!
