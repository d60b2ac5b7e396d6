//! The client's preferences on macOS: which of them hold the login, and how they are
//! replaced and cleared. Reading and writing them is the system's work.

use vstd::prelude::*;

use crate::error::AppError;
use crate::error::ErrorView;
use crate::step::Taken;
use crate::step;
use crate::step::Moment;
use crate::step::Step;
use crate::step::StepView;
use crate::text;

verus! {

/// The preferences of all hosts and of this host, as the system writes them.
#[derive(Debug)]
pub struct PreferenceSnapshot {
    pub any_host: Vec<u8>,
    pub current_host: Vec<u8>,
}

/// The hosts that preferences are for.
#[derive(Clone, Copy, Debug, PartialEq, Eq, Structural)]
pub enum HostScope {
    Any,
    Current,
}

/// The key of a preference.
#[derive(Debug)]
pub enum PreferenceKey {
    Missing,
    NotText,
    Text(String),
}

/// A preference. A number stands for its value: two values that are compared have the
/// same number exactly where they are equal.
#[derive(Debug)]
pub struct PreferenceEntry {
    pub key: PreferenceKey,
    pub value: u64,
}

/// What was read from a snapshot's preferences.
#[derive(Debug)]
pub enum ReadPreferences {
    /// They cannot be read.
    Invalid,
    /// They are no dictionary.
    NotDictionary,
    Dictionary(Vec<PreferenceEntry>),
}

/// Whether the key is that of a login.
pub open spec fn is_login_key(key: Seq<char>) -> bool {
    text::begins_with(key, "UnifiedAuth/"@)
}

/// Whether the preference is one of a login.
pub open spec fn holds_login(entry: PreferenceEntry) -> bool {
    entry.key matches PreferenceKey::Text(key) && is_login_key(key@)
}

/// Why the keys of the preferences cannot be told: what is wrong with the first of them.
pub open spec fn keys_error(entries: Seq<PreferenceEntry>) -> Option<ErrorView>
    decreases entries.len(),
{
    if entries.len() == 0 {
        None
    } else {
        match keys_error(entries.drop_last()) {
            Some(error) => Some(error),
            None => match entries.last().key {
                PreferenceKey::Missing => Some(ErrorView::Snapshot("战网偏好域包含空键"@)),
                PreferenceKey::NotText => Some(ErrorView::Snapshot("战网偏好域包含非文本键"@)),
                PreferenceKey::Text(_) => None,
            },
        }
    }
}

/// Whether a login is among the preferences.
pub open spec fn has_login(entries: Seq<PreferenceEntry>) -> bool {
    exists|i: int| 0 <= i < entries.len() && holds_login(#[trigger] entries[i])
}

/// The preferences in what was read, or why there are none.
pub open spec fn dictionary_of(read: ReadPreferences) -> Result<Seq<PreferenceEntry>, ErrorView> {
    match read {
        ReadPreferences::Invalid => Err(ErrorView::Snapshot("认证快照中的偏好域格式无效"@)),
        ReadPreferences::NotDictionary => Err(ErrorView::Snapshot("认证快照中的偏好域不是字典"@)),
        ReadPreferences::Dictionary(entries) => Ok(entries@),
    }
}

/// The preferences in what was read, with keys that are texts.
pub open spec fn keyed(read: ReadPreferences) -> Result<Seq<PreferenceEntry>, ErrorView> {
    match dictionary_of(read) {
        Err(error) => Err(error),
        Ok(entries) => match keys_error(entries) {
            Some(error) => Err(error),
            None => Ok(entries),
        },
    }
}

/// The preferences in what was read.
pub fn parse_dictionary(read: &ReadPreferences) -> (entries: Result<&Vec<PreferenceEntry>, AppError>)
    ensures
        match (entries, dictionary_of(*read)) {
            (Ok(entries), Ok(expected)) => entries@ == expected,
            (Err(error), Err(expected)) => error@ == expected,
            _ => false,
        },
{
    match read {
        ReadPreferences::Invalid => Err(
            AppError::Snapshot("认证快照中的偏好域格式无效".to_owned()),
        ),
        ReadPreferences::NotDictionary => Err(
            AppError::Snapshot("认证快照中的偏好域不是字典".to_owned()),
        ),
        ReadPreferences::Dictionary(entries) => Ok(entries),
    }
}

/// Checks that the preferences of both scopes can be read, those of any host first.
pub fn check_dictionaries(any_host: &ReadPreferences, current_host: &ReadPreferences) -> (result:
    Result<(), AppError>)
    ensures
        match (dictionary_of(*any_host), dictionary_of(*current_host)) {
            (Err(error), _) => result is Err && result->Err_0@ == error,
            (Ok(_), Err(error)) => result is Err && result->Err_0@ == error,
            (Ok(_), Ok(_)) => result is Ok,
        },
{
    match parse_dictionary(any_host) {
        Err(error) => Err(error),
        Ok(_) => match parse_dictionary(current_host) {
            Err(error) => Err(error),
            Ok(_) => Ok(()),
        },
    }
}

/// Whether the preferences of both scopes are the expected ones: those of the current host
/// count only where those of any host are.
pub fn same_in_both(any_host: Result<bool, AppError>, current_host: Result<bool, AppError>) -> (same:
    Result<bool, AppError>)
    ensures
        same == (if any_host == Ok::<bool, AppError>(true) {
            current_host
        } else {
            any_host
        }),
{
    match any_host {
        Ok(true) => current_host,
        Ok(false) => Ok(false),
        Err(error) => Err(error),
    }
}

/// Checks that the keys of the preferences are texts.
pub fn check_keys(entries: &Vec<PreferenceEntry>) -> (result: Result<(), AppError>)
    ensures
        match result {
            Ok(_) => keys_error(entries@) is None,
            Err(error) => keys_error(entries@) == Some(error@),
        },
{
    let mut failure: Option<AppError> = None;
    let mut i: usize = 0;
    while i < entries.len()
        invariant
            i <= entries.len(),
            match failure {
                None => keys_error(entries@.take(i as int)) is None,
                Some(error) => keys_error(entries@.take(i as int)) == Some(error@),
            },
        decreases entries.len() - i,
    {
        assert(entries@.take(i + 1).drop_last() =~= entries@.take(i as int));
        if failure.is_none() {
            match &entries[i].key {
                PreferenceKey::Missing => {
                    failure = Some(AppError::Snapshot("战网偏好域包含空键".to_owned()));
                },
                PreferenceKey::NotText => {
                    failure = Some(AppError::Snapshot("战网偏好域包含非文本键".to_owned()));
                },
                PreferenceKey::Text(_) => {},
            }
        }
        i = i + 1;
    }
    assert(entries@.take(i as int) =~= entries@);
    match failure {
        None => Ok(()),
        Some(error) => Err(error),
    }
}

fn is_login_entry(entry: &PreferenceEntry) -> (yes: bool)
    ensures
        yes == holds_login(*entry),
{
    match &entry.key {
        PreferenceKey::Text(key) => text::starts_with(key.as_str(), "UnifiedAuth/"),
        _ => false,
    }
}

/// Whether a login is among the preferences.
pub fn contains_login(entries: &Vec<PreferenceEntry>) -> (yes: bool)
    ensures
        yes == has_login(entries@),
{
    let mut i: usize = 0;
    while i < entries.len()
        invariant
            i <= entries.len(),
            forall|j: int| 0 <= j < i ==> !holds_login(#[trigger] entries@[j]),
        decreases entries.len() - i,
    {
        if is_login_entry(&entries[i]) {
            return true;
        }
        i = i + 1;
    }
    false
}

/// Whether a login is among the preferences of either kind.
pub open spec fn authenticated(any_host: ReadPreferences, current_host: ReadPreferences) -> Result<
    bool,
    ErrorView,
> {
    match (keyed(any_host), keyed(current_host)) {
        (Err(error), _) => Err(error),
        (Ok(_), Err(error)) => Err(error),
        (Ok(any), Ok(current)) => Ok(has_login(any) || has_login(current)),
    }
}

impl PreferenceSnapshot {
    /// Whether a login is among the preferences of either kind; the arguments are what
    /// was read from them.
    pub fn has_authentication_keys(any_host: &ReadPreferences, current_host: &ReadPreferences) -> (yes:
        Result<bool, AppError>)
        ensures
            match (yes, authenticated(*any_host, *current_host)) {
                (Ok(yes), Ok(expected)) => yes == expected,
                (Err(error), Err(expected)) => error@ == expected,
                _ => false,
            },
    {
        let any = match parse_dictionary(any_host) {
            Ok(entries) => entries,
            Err(error) => {
                return Err(error);
            },
        };
        match check_keys(any) {
            Ok(_) => {},
            Err(error) => {
                return Err(error);
            },
        }
        let current = match parse_dictionary(current_host) {
            Ok(entries) => entries,
            Err(error) => {
                return Err(error);
            },
        };
        match check_keys(current) {
            Ok(_) => {},
            Err(error) => {
                return Err(error);
            },
        }
        Ok(contains_login(any) || contains_login(current))
    }
}

/// Whether the preference with the key and the value is among the preferences.
pub open spec fn holds(entries: Seq<PreferenceEntry>, key: Seq<char>, value: u64) -> bool {
    exists|i: int|
        0 <= i < entries.len() && is_preference(#[trigger] entries[i], key, value)
}

/// Whether it is the preference with the key and the value.
pub open spec fn is_preference(entry: PreferenceEntry, key: Seq<char>, value: u64) -> bool {
    entry.value == value && (entry.key matches PreferenceKey::Text(name) && name@ == key)
}

/// Whether the preferences other than those of a login are the same.
pub open spec fn others_equal(first: Seq<PreferenceEntry>, second: Seq<PreferenceEntry>) -> bool {
    forall|key: Seq<char>, value: u64|
        !is_login_key(key) ==> holds(first, key, value) == holds(second, key, value)
}

fn holds_entry(entries: &Vec<PreferenceEntry>, key: &str, value: u64) -> (yes: bool)
    ensures
        yes == holds(entries@, key@, value),
{
    let mut i: usize = 0;
    while i < entries.len()
        invariant
            i <= entries.len(),
            forall|j: int| 0 <= j < i ==> !is_preference(#[trigger] entries@[j], key@, value),
        decreases entries.len() - i,
    {
        if entries[i].value == value {
            match &entries[i].key {
                PreferenceKey::Text(name) => {
                    if text::same_text(name.as_str(), key) {
                        assert(is_preference(entries@[i as int], key@, value));
                        return true;
                    }
                },
                _ => {},
            }
        }
        i = i + 1;
    }
    false
}

/// Whether the other preferences hold all of these but those of a login.
pub open spec fn others_within(first: Seq<PreferenceEntry>, second: Seq<PreferenceEntry>) -> bool {
    forall|key: Seq<char>, value: u64|
        !is_login_key(key) && #[trigger] holds(first, key, value) ==> holds(second, key, value)
}

fn others_are_within(first: &Vec<PreferenceEntry>, second: &Vec<PreferenceEntry>) -> (yes: bool)
    ensures
        yes == others_within(first@, second@),
{
    let mut i: usize = 0;
    while i < first.len()
        invariant
            i <= first.len(),
            forall|j: int|
                #![trigger first@[j]]
                0 <= j < i ==> (first@[j].key matches PreferenceKey::Text(key) ==> (!is_login_key(
                    key@,
                ) ==> holds(second@, key@, first@[j].value))),
        decreases first.len() - i,
    {
        match &first[i].key {
            PreferenceKey::Text(key) => {
                if !text::starts_with(key.as_str(), "UnifiedAuth/") && !holds_entry(
                    second,
                    key.as_str(),
                    first[i].value,
                ) {
                    proof {
                        assert(is_preference(first@[i as int], key@, first@[i as int].value));
                        assert(holds(first@, key@, first@[i as int].value));
                    }
                    return false;
                }
            },
            _ => {},
        }
        i = i + 1;
    }
    assert forall|key: Seq<char>, value: u64|
        !is_login_key(key) && #[trigger] holds(first@, key, value) implies holds(
        second@,
        key,
        value,
    ) by {
        let j = choose|j: int| 0 <= j < first@.len() && is_preference(first@[j], key, value);
        assert(first@[j].value == value);
    }
    true
}

/// Whether the preferences in what was read are the same but for those of a login.
pub open spec fn same_others(first: ReadPreferences, second: ReadPreferences) -> Result<
    bool,
    ErrorView,
> {
    match (dictionary_of(first), dictionary_of(second)) {
        (Err(error), _) => Err(error),
        (Ok(_), Err(error)) => Err(error),
        (Ok(left), Ok(right)) => match (keys_error(left), keys_error(right)) {
            (Some(error), _) => Err(error),
            (None, Some(error)) => Err(error),
            (None, None) => Ok(others_equal(left, right)),
        },
    }
}

/// Whether the preferences in what was read are the same but for those of a login.
pub fn non_authentication_equal(first: &ReadPreferences, second: &ReadPreferences) -> (equal: Result<
    bool,
    AppError,
>)
    ensures
        match (equal, same_others(*first, *second)) {
            (Ok(equal), Ok(expected)) => equal == expected,
            (Err(error), Err(expected)) => error@ == expected,
            _ => false,
        },
{
    let left = match parse_dictionary(first) {
        Ok(entries) => entries,
        Err(error) => {
            return Err(error);
        },
    };
    let right = match parse_dictionary(second) {
        Ok(entries) => entries,
        Err(error) => {
            return Err(error);
        },
    };
    match check_keys(left) {
        Ok(_) => {},
        Err(error) => {
            return Err(error);
        },
    }
    match check_keys(right) {
        Ok(_) => {},
        Err(error) => {
            return Err(error);
        },
    }
    let equal = others_are_within(left, right) && others_are_within(right, left);
    proof {
        if others_equal(left@, right@) {
            assert forall|key: Seq<char>, value: u64|
                !is_login_key(key) && #[trigger] holds(left@, key, value) implies holds(
                right@,
                key,
                value,
            ) by {}
            assert forall|key: Seq<char>, value: u64|
                !is_login_key(key) && #[trigger] holds(right@, key, value) implies holds(
                left@,
                key,
                value,
            ) by {
                assert(holds(left@, key, value) == holds(right@, key, value));
            }
        }
        if others_within(left@, right@) && others_within(right@, left@) {
            assert forall|key: Seq<char>, value: u64| !is_login_key(key) implies holds(
                left@,
                key,
                value,
            ) == holds(right@, key, value) by {}
        }
    }
    Ok(equal)
}

/// What came of the work on the preferences.
#[derive(Debug)]
pub enum PreferenceReply {
    Done(Result<(), AppError>),
    /// Whether there are no keys.
    Empty(bool),
    Copied(Result<Vec<PreferenceEntry>, AppError>),
    /// Whether the preferences are those that were written.
    Compared(Result<bool, AppError>),
    /// The preferences after the login's were removed, and what is read from both in
    /// the form in which the system writes them.
    Reread {
        after: Result<Vec<PreferenceEntry>, AppError>,
        written: Result<(ReadPreferences, ReadPreferences), AppError>,
    },
}

/// Replacing the preferences of one kind: those that are there are removed, the others
/// are written, and have to be found. Each state names the work that is to be done.
#[derive(Clone, Copy, Debug, PartialEq, Eq, Structural)]
pub enum ReplaceScope {
    /// It is to be found out whether there are any preferences.
    Listing { scope: HostScope },
    /// The preferences are to be removed.
    Removing { scope: HostScope },
    /// The preferences are to be written.
    Writing { scope: HostScope },
    /// The preferences are to be compared with those that were written.
    Comparing { scope: HostScope },
}

impl ReplaceScope {
    /// What the answer leads to.
    pub open spec fn next(self, reply: PreferenceReply) -> StepView<ReplaceScope, ()> {
        match (self, reply) {
            (ReplaceScope::Listing { scope }, PreferenceReply::Empty(empty)) => if empty {
                step::going(ReplaceScope::Writing { scope })
            } else {
                step::going(ReplaceScope::Removing { scope })
            },
            (ReplaceScope::Removing { scope }, PreferenceReply::Done(done)) => match done {
                Err(error) => step::failing(error@),
                Ok(_) => step::going(ReplaceScope::Writing { scope }),
            },
            (ReplaceScope::Writing { scope }, PreferenceReply::Done(done)) => match done {
                Err(error) => step::failing(error@),
                Ok(_) => step::going(ReplaceScope::Comparing { scope }),
            },
            (ReplaceScope::Comparing { .. }, PreferenceReply::Compared(compared)) =>
                match compared {
                    Err(error) => step::failing(error@),
                    Ok(true) => step::ending(()),
                    Ok(false) => step::failing(
                        ErrorView::Transaction("macOS 战网偏好域替换后校验失败"@),
                    ),
                },
            _ => step::confused(),
        }
    }

    /// Takes the answer.
    pub fn resume(self, reply: PreferenceReply) -> (step: Step<ReplaceScope, ()>)
        ensures
            step@ == self.next(reply),
    {
        match (self, reply) {
            (ReplaceScope::Listing { scope }, PreferenceReply::Empty(empty)) => if empty {
                step::go(ReplaceScope::Writing { scope })
            } else {
                step::go(ReplaceScope::Removing { scope })
            },
            (ReplaceScope::Removing { scope }, PreferenceReply::Done(done)) => match done {
                Err(error) => step::fail(error),
                Ok(_) => step::go(ReplaceScope::Writing { scope }),
            },
            (ReplaceScope::Writing { scope }, PreferenceReply::Done(done)) => match done {
                Err(error) => step::fail(error),
                Ok(_) => step::go(ReplaceScope::Comparing { scope }),
            },
            (ReplaceScope::Comparing { scope: _ }, PreferenceReply::Compared(compared)) =>
                match compared {
                    Err(error) => step::fail(error),
                    Ok(true) => step::end(()),
                    Ok(false) => step::fail(
                        AppError::Transaction("macOS 战网偏好域替换后校验失败".to_owned()),
                    ),
                },
            _ => step::give_up(),
        }
    }
}

/// Begins to replace the preferences of one kind.
pub fn replace_scope(scope: HostScope) -> (operation: ReplaceScope)
    ensures
        operation == (ReplaceScope::Listing { scope }),
{
    ReplaceScope::Listing { scope }
}

/// Replacing all preferences by those of a snapshot: both kinds are cleared, both are
/// replaced, and both have to be found. Each state names the work that is to be done.
#[derive(Clone, Copy, Debug, PartialEq, Eq, Structural)]
pub enum ReplacePreferences {
    /// The snapshot's preferences are to be read.
    Reading,
    /// The preferences of the kind are to be replaced by none.
    Clearing { scope: HostScope },
    /// The preferences of the kind are to be replaced by the snapshot's.
    Replacing { scope: HostScope },
    /// All preferences are to be compared with the snapshot's.
    Comparing,
}

impl ReplacePreferences {
    /// What the answer leads to.
    pub open spec fn next(self, reply: PreferenceReply) -> StepView<ReplacePreferences, ()> {
        match (self, reply) {
            (ReplacePreferences::Reading, PreferenceReply::Done(done)) => match done {
                Err(error) => step::failing(error@),
                Ok(_) => step::going(ReplacePreferences::Clearing { scope: HostScope::Any }),
            },
            (ReplacePreferences::Clearing { scope }, PreferenceReply::Done(done)) => match done {
                Err(error) => step::failing(error@),
                Ok(_) => if scope == HostScope::Any {
                    step::going(ReplacePreferences::Clearing { scope: HostScope::Current })
                } else {
                    step::going(ReplacePreferences::Replacing { scope: HostScope::Any })
                },
            },
            (ReplacePreferences::Replacing { scope }, PreferenceReply::Done(done)) => match done {
                Err(error) => step::failing(error@),
                Ok(_) => if scope == HostScope::Any {
                    step::going(ReplacePreferences::Replacing { scope: HostScope::Current })
                } else {
                    step::going(ReplacePreferences::Comparing)
                },
            },
            (ReplacePreferences::Comparing, PreferenceReply::Compared(compared)) => match compared {
                Err(error) => step::failing(error@),
                Ok(true) => step::ending(()),
                Ok(false) => step::failing(
                    ErrorView::Transaction("macOS 战网偏好域写入后校验不一致"@),
                ),
            },
            _ => step::confused(),
        }
    }

    /// Takes the answer.
    pub fn resume(self, reply: PreferenceReply) -> (step: Step<ReplacePreferences, ()>)
        ensures
            step@ == self.next(reply),
    {
        match (self, reply) {
            (ReplacePreferences::Reading, PreferenceReply::Done(done)) => match done {
                Err(error) => step::fail(error),
                Ok(_) => step::go(ReplacePreferences::Clearing { scope: HostScope::Any }),
            },
            (ReplacePreferences::Clearing { scope }, PreferenceReply::Done(done)) => match done {
                Err(error) => step::fail(error),
                Ok(_) => match scope {
                    HostScope::Any => step::go(
                        ReplacePreferences::Clearing { scope: HostScope::Current },
                    ),
                    HostScope::Current => step::go(
                        ReplacePreferences::Replacing { scope: HostScope::Any },
                    ),
                },
            },
            (ReplacePreferences::Replacing { scope }, PreferenceReply::Done(done)) => match done {
                Err(error) => step::fail(error),
                Ok(_) => match scope {
                    HostScope::Any => step::go(
                        ReplacePreferences::Replacing { scope: HostScope::Current },
                    ),
                    HostScope::Current => step::go(ReplacePreferences::Comparing),
                },
            },
            (ReplacePreferences::Comparing, PreferenceReply::Compared(compared)) => match compared {
                Err(error) => step::fail(error),
                Ok(true) => step::end(()),
                Ok(false) => step::fail(
                    AppError::Transaction("macOS 战网偏好域写入后校验不一致".to_owned()),
                ),
            },
            _ => step::give_up(),
        }
    }
}

/// Begins to replace all preferences by those of a snapshot.
pub fn replace() -> (operation: ReplacePreferences)
    ensures
        operation == ReplacePreferences::Reading,
{
    ReplacePreferences::Reading
}

/// Removing the login from the preferences, first for all hosts, then for this one.
/// Each state names the work that is to be done.
#[derive(Debug)]
pub enum ClearAuthentication {
    /// The preferences are to be read.
    Reading { scope: HostScope },
    /// The preferences with these keys are to be removed.
    Removing { scope: HostScope, keys: Vec<String> },
    /// The preferences are to be read again.
    Rereading { scope: HostScope },
}

/// The keys of the login among the preferences.
pub open spec fn login_keys(entries: Seq<PreferenceEntry>) -> Seq<Seq<char>>
    decreases entries.len(),
{
    if entries.len() == 0 {
        Seq::empty()
    } else if holds_login(entries.last()) {
        login_keys(entries.drop_last()).push(entries.last().key->Text_0@)
    } else {
        login_keys(entries.drop_last())
    }
}

/// The texts as character sequences.
pub open spec fn key_texts(keys: Seq<String>) -> Seq<Seq<char>> {
    keys.map_values(|key: String| key@)
}

fn find_login_keys(entries: &Vec<PreferenceEntry>) -> (keys: Vec<String>)
    ensures
        key_texts(keys@) == login_keys(entries@),
{
    let mut keys: Vec<String> = Vec::new();
    let mut i: usize = 0;
    assert(key_texts(keys@) =~= Seq::<Seq<char>>::empty());
    while i < entries.len()
        invariant
            i <= entries.len(),
            key_texts(keys@) == login_keys(entries@.take(i as int)),
        decreases entries.len() - i,
    {
        assert(entries@.take(i + 1).drop_last() =~= entries@.take(i as int));
        if is_login_entry(&entries[i]) {
            match &entries[i].key {
                PreferenceKey::Text(key) => {
                    let ghost before = key_texts(keys@);
                    keys.push(key.clone());
                    assert(key_texts(keys@) =~= before.push(key@));
                },
                _ => {},
            }
        }
        i = i + 1;
    }
    assert(entries@.take(i as int) =~= entries@);
    keys
}

/// Whether the login is gone and nothing else has changed.
pub open spec fn is_cleared(
    after: Seq<PreferenceEntry>,
    written: Result<(ReadPreferences, ReadPreferences), AppError>,
) -> Result<bool, ErrorView> {
    match keys_error(after) {
        Some(error) => Err(error),
        None => if has_login(after) {
            Ok(false)
        } else {
            match written {
                Err(error) => Err(error@),
                Ok(pair) => same_others(pair.0, pair.1),
            }
        },
    }
}

impl ClearAuthentication {
    /// Whether the answer leads to the step.
    pub open spec fn leads_to(
        self,
        reply: PreferenceReply,
        step: Step<ClearAuthentication, ()>,
    ) -> bool {
        match (self, reply) {
            (ClearAuthentication::Reading { scope }, PreferenceReply::Copied(copied)) =>
                match copied {
                    Err(error) => step@ == step::failing::<ClearAuthentication, ()>(error@),
                    Ok(entries) => match keys_error(entries@) {
                        Some(error) => step@ == step::failing::<ClearAuthentication, ()>(error),
                        None => if login_keys(entries@).len() == 0 {
                            step@ == step::going::<ClearAuthentication, ()>(
                                ClearAuthentication::Rereading { scope },
                            )
                        } else {
                            &&& step matches Step::Perform {
                                operation: ClearAuthentication::Removing { scope: kept, keys },
                                report: None,
                            }
                            &&& kept == scope
                            &&& key_texts(keys@) == login_keys(entries@)
                        },
                    },
                },
            (ClearAuthentication::Removing { scope, .. }, PreferenceReply::Done(done)) => step@ == (
            match done {
                Err(error) => step::failing::<ClearAuthentication, ()>(error@),
                Ok(_) => step::going(ClearAuthentication::Rereading { scope }),
            }),
            (ClearAuthentication::Rereading { scope }, PreferenceReply::Reread { after, written }) =>
                step@ == (match after {
                    Err(error) => step::failing::<ClearAuthentication, ()>(error@),
                    Ok(after) => match is_cleared(after@, written) {
                        Err(error) => step::failing(error),
                        Ok(false) => step::failing(
                            ErrorView::Login("无法确认 macOS 战网认证偏好已清除"@),
                        ),
                        Ok(true) => if scope == HostScope::Any {
                            step::going(ClearAuthentication::Reading { scope: HostScope::Current })
                        } else {
                            step::ending(())
                        },
                    },
                }),
            _ => step@ == step::confused::<ClearAuthentication, ()>(),
        }
    }

    /// Takes the answer.
    pub fn resume(self, reply: PreferenceReply) -> (step: Step<ClearAuthentication, ()>)
        ensures
            self.leads_to(reply, step),
    {
        match (self, reply) {
            (ClearAuthentication::Reading { scope }, PreferenceReply::Copied(copied)) =>
                match copied {
                    Err(error) => step::fail(error),
                    Ok(entries) => match check_keys(&entries) {
                        Err(error) => step::fail(error),
                        Ok(_) => {
                            let keys = find_login_keys(&entries);
                            assert(key_texts(keys@).len() == keys.len());
                            if keys.len() == 0 {
                                step::go(ClearAuthentication::Rereading { scope })
                            } else {
                                step::go(ClearAuthentication::Removing { scope, keys })
                            }
                        },
                    },
                },
            (ClearAuthentication::Removing { scope, keys: _ }, PreferenceReply::Done(done)) =>
                match done {
                    Err(error) => step::fail(error),
                    Ok(_) => step::go(ClearAuthentication::Rereading { scope }),
                },
            (ClearAuthentication::Rereading { scope }, PreferenceReply::Reread { after, written }) => {
                let after = match after {
                    Err(error) => {
                        return step::fail(error);
                    },
                    Ok(after) => after,
                };
                match check_keys(&after) {
                    Err(error) => {
                        return step::fail(error);
                    },
                    Ok(_) => {},
                }
                if contains_login(&after) {
                    return step::fail(
                        AppError::Login("无法确认 macOS 战网认证偏好已清除".to_owned()),
                    );
                }
                let pair = match written {
                    Err(error) => {
                        return step::fail(error);
                    },
                    Ok(pair) => pair,
                };
                match non_authentication_equal(&pair.0, &pair.1) {
                    Err(error) => step::fail(error),
                    Ok(false) => step::fail(
                        AppError::Login("无法确认 macOS 战网认证偏好已清除".to_owned()),
                    ),
                    Ok(true) => match scope {
                        HostScope::Any => step::go(
                            ClearAuthentication::Reading { scope: HostScope::Current },
                        ),
                        HostScope::Current => step::end(()),
                    },
                }
            },
            _ => step::give_up(),
        }
    }
}

/// Begins to remove the login from the preferences.
pub fn clear_authentication_only() -> (operation: ClearAuthentication)
    ensures
        operation == (ClearAuthentication::Reading { scope: HostScope::Any }),
{
    ClearAuthentication::Reading { scope: HostScope::Any }
}

/// The login counts as removed from the preferences of one kind only where none of it
/// is left and all other preferences are as before.
pub proof fn law_clearing_keeps_other_preferences(
    operation: ClearAuthentication,
    reply: PreferenceReply,
    step: Step<ClearAuthentication, ()>,
)
    requires
        operation.leads_to(reply, step),
        operation is Rereading,
        step matches Step::Perform { .. } || step matches Step::Finished(Ok(_)),
    ensures
        reply matches PreferenceReply::Reread { after: Ok(after), written: Ok(pair) } && !has_login(
            after@,
        ) && same_others(pair.0, pair.1) == Ok::<bool, ErrorView>(true),
{
}

impl PreferenceReply {
    /// Whether the work was done.
    pub open spec fn is_done(self) -> bool {
        self matches PreferenceReply::Done(Ok(_))
    }

    /// Why the work was not done.
    pub open spec fn failure(self) -> Option<ErrorView> {
        match self {
            PreferenceReply::Done(Err(error)) => Some(error@),
            _ => None,
        }
    }
}

impl ReplaceScope {
    /// How the operation goes on.
    pub open spec fn steps() -> spec_fn(ReplaceScope, PreferenceReply) -> StepView<ReplaceScope, ()> {
        |operation: ReplaceScope, reply: PreferenceReply| operation.next(reply)
    }
}

/// A run of replacing the preferences of one kind succeeds exactly where, one after the
/// other, it was found out whether there were any, those that were there were removed, the
/// new ones were written, and they were found to be the ones that are there. All work is on
/// the preferences of that kind, and the first work that fails ends the run with its error.
pub proof fn law_replaced_scope_was_written_and_compared(
    scope: HostScope,
    run: Seq<Moment<ReplaceScope, PreferenceReply>>,
)
    requires
        step::is_run(ReplaceScope::steps(), ReplaceScope::Listing { scope }, run),
    ensures
        step::result_of(ReplaceScope::steps(), run) is Ok <==> {
            let there = run[0].reply == PreferenceReply::Empty(false);
            let w: int = if there { 2 } else { 1 };
            &&& run.len() == w + 2
            &&& run[0].reply is Empty
            &&& there ==> run[1].operation == (ReplaceScope::Removing { scope })
            &&& there ==> run[1].reply.is_done()
            &&& run[w].operation == (ReplaceScope::Writing { scope })
            &&& run[w].reply.is_done()
            &&& run[w + 1].operation == (ReplaceScope::Comparing { scope })
            &&& run[w + 1].reply == PreferenceReply::Compared(Ok(true))
        },
        run.len() <= 4,
        forall|i: int|
            0 <= i < run.len() && (run[i].operation is Removing || run[i].operation is Writing)
                && (#[trigger] run[i].reply.failure()) is Some ==> {
                &&& i == run.len() - 1
                &&& step::result_of(ReplaceScope::steps(), run) == Err::<(), ErrorView>(
                    run[i].reply.failure()->0,
                )
            },
{
    let steps = ReplaceScope::steps();
    assert(step::follows(steps, run, 0));
    if run.len() > 1 {
        assert(step::follows(steps, run, 1));
    }
    if run.len() > 2 {
        assert(step::follows(steps, run, 2));
    }
    if run.len() > 3 {
        assert(step::follows(steps, run, 3));
    }
}

impl ReplacePreferences {
    /// How the operation goes on.
    pub open spec fn steps() -> spec_fn(ReplacePreferences, PreferenceReply) -> StepView<
        ReplacePreferences,
        (),
    > {
        |operation: ReplacePreferences, reply: PreferenceReply| operation.next(reply)
    }
}

/// Replacing the preferences succeeds exactly where the new ones were read, those of both
/// kinds were cleared and then replaced, and all of them were found to be the new ones.
/// The first work that fails ends it with its error.
pub proof fn law_preferences_are_cleared_replaced_and_compared(
    run: Seq<Moment<ReplacePreferences, PreferenceReply>>,
)
    requires
        step::is_run(ReplacePreferences::steps(), ReplacePreferences::Reading, run),
    ensures
        step::result_of(ReplacePreferences::steps(), run) is Ok <==> {
            &&& run.len() == 6
            &&& run[0].reply.is_done()
            &&& run[1].operation == (ReplacePreferences::Clearing { scope: HostScope::Any })
            &&& run[1].reply.is_done()
            &&& run[2].operation == (ReplacePreferences::Clearing { scope: HostScope::Current })
            &&& run[2].reply.is_done()
            &&& run[3].operation == (ReplacePreferences::Replacing { scope: HostScope::Any })
            &&& run[3].reply.is_done()
            &&& run[4].operation == (ReplacePreferences::Replacing { scope: HostScope::Current })
            &&& run[4].reply.is_done()
            &&& run[5].operation is Comparing
            &&& run[5].reply == PreferenceReply::Compared(Ok(true))
        },
        forall|i: int|
            0 <= i < run.len() && (#[trigger] run[i].reply.failure()) is Some && (match run[i].operation {
                ReplacePreferences::Comparing => false,
                _ => true,
            }) ==> i == run.len() - 1 && step::result_of(ReplacePreferences::steps(), run) == Err::<(), ErrorView>(run[i].reply.failure()->0),
        run.len() <= 6,
{
    let steps = ReplacePreferences::steps();
    assert(step::follows(steps, run, 0));
    if run.len() > 1 {
        assert(step::follows(steps, run, 1));
    }
    if run.len() > 2 {
        assert(step::follows(steps, run, 2));
    }
    if run.len() > 3 {
        assert(step::follows(steps, run, 3));
    }
    if run.len() > 4 {
        assert(step::follows(steps, run, 4));
    }
    if run.len() > 5 {
        assert(step::follows(steps, run, 5));
    }
}

/// The keys that are removed are exactly those of the login's preferences.
pub proof fn law_login_keys_are_those_of_the_login(entries: Seq<PreferenceEntry>, key: Seq<char>)
    ensures
        login_keys(entries).contains(key) <==> exists|i: int|
            0 <= i < entries.len() && (#[trigger] entries[i]).key is Text
                && entries[i].key->Text_0@ == key && text::begins_with(key, "UnifiedAuth/"@),
    decreases entries.len(),
{
    if entries.len() > 0 {
        let front = entries.drop_last();
        let last = entries.last();
        law_login_keys_are_those_of_the_login(front, key);
        let some = login_keys(front);
        let all = login_keys(entries);
        if all.contains(key) {
            let at = choose|at: int| 0 <= at < all.len() && all[at] == key;
            if at < some.len() {
                assert(some[at] == key);
                let i = choose|i: int|
                    0 <= i < front.len() && (#[trigger] front[i]).key is Text
                        && front[i].key->Text_0@ == key && text::begins_with(
                        key,
                        "UnifiedAuth/"@,
                    );
                assert(entries[i].key is Text);
            } else {
                assert(entries[entries.len() - 1].key is Text);
            }
        }
        if exists|i: int|
            0 <= i < entries.len() && (#[trigger] entries[i]).key is Text
                && entries[i].key->Text_0@ == key && text::begins_with(key, "UnifiedAuth/"@) {
            let i = choose|i: int|
                0 <= i < entries.len() && (#[trigger] entries[i]).key is Text
                    && entries[i].key->Text_0@ == key && text::begins_with(key, "UnifiedAuth/"@);
            if i < front.len() {
                assert(front[i].key is Text);
                let at = choose|at: int| 0 <= at < some.len() && some[at] == key;
                assert(all[at] == key);
            } else {
                assert(all[some.len() as int] == key);
            }
        }
    }
}

/// The keys of the preferences can be told exactly where all of them are texts.
pub proof fn law_keys_can_be_told_where_all_are_texts(entries: Seq<PreferenceEntry>)
    ensures
        keys_error(entries) is None <==> forall|i: int|
            0 <= i < entries.len() ==> (#[trigger] entries[i]).key is Text,
    decreases entries.len(),
{
    if entries.len() > 0 {
        let front = entries.drop_last();
        law_keys_can_be_told_where_all_are_texts(front);
        if keys_error(entries) is None {
            assert forall|i: int| 0 <= i < entries.len() implies (#[trigger] entries[i]).key is Text by {
                if i < front.len() {
                    assert(front[i].key is Text);
                }
            }
        }
        if forall|i: int| 0 <= i < entries.len() ==> (#[trigger] entries[i]).key is Text {
            assert forall|i: int| 0 <= i < front.len() implies (#[trigger] front[i]).key is Text by {
                assert(entries[i].key is Text);
            }
            assert(entries[entries.len() - 1].key is Text);
        }
    }
}

impl ClearAuthentication {
    /// How the operation may go on.
    pub open spec fn leads() -> spec_fn(ClearAuthentication, PreferenceReply, Step<ClearAuthentication, ()>) -> bool {
        |operation: ClearAuthentication, reply: PreferenceReply, step: Step<ClearAuthentication, ()>|
            operation.leads_to(reply, step)
    }
}

/// Whether the preferences of one kind were found to be without a login and otherwise as
/// they were.
pub open spec fn was_cleared(reply: PreferenceReply) -> bool {
    reply matches PreferenceReply::Reread { after: Ok(after), written } && is_cleared(
        after@,
        written,
    ) == Ok::<bool, ErrorView>(true)
}

/// Clearing the authentication succeeds exactly where, for the preferences of any host and
/// then for those of this one, they were read, those of the login, where there are any, were
/// removed, and they were then found to be without a login and otherwise as they were.
#[verifier::rlimit(40)]
pub proof fn law_authentication_is_cleared_in_both_kinds(
    run: Seq<Taken<ClearAuthentication, PreferenceReply, ()>>,
)
    requires
        step::is_taken_run(
            ClearAuthentication::leads(),
            ClearAuthentication::Reading { scope: HostScope::Any },
            run,
        ),
    ensures
        run.len() <= 6,
        step::taken_result(run) is Ok <==> {
            let a: int = if run.len() > 1 && run[1].operation is Removing {
                1
            } else {
                0
            };
            let b: int = if run.len() > 3 + a && run[3 + a].operation is Removing {
                1
            } else {
                0
            };
            &&& run.len() == 4 + a + b
            &&& run[0].reply is Copied
            &&& run[0].reply->Copied_0 is Ok
            &&& a == 1 <==> login_keys(run[0].reply->Copied_0->Ok_0@).len() > 0
            &&& a == 1 ==> run[1].operation->Removing_scope == HostScope::Any
            &&& a == 1 ==> key_texts(run[1].operation->keys@) == login_keys(
                run[0].reply->Copied_0->Ok_0@,
            )
            &&& a == 1 ==> run[1].reply.is_done()
            &&& run[1 + a].operation == (ClearAuthentication::Rereading { scope: HostScope::Any })
            &&& was_cleared(run[1 + a].reply)
            &&& run[2 + a].operation == (ClearAuthentication::Reading { scope: HostScope::Current })
            &&& run[2 + a].reply is Copied
            &&& run[2 + a].reply->Copied_0 is Ok
            &&& b == 1 <==> login_keys(run[2 + a].reply->Copied_0->Ok_0@).len() > 0
            &&& b == 1 ==> run[3 + a].operation->Removing_scope == HostScope::Current
            &&& b == 1 ==> key_texts(run[3 + a].operation->keys@) == login_keys(
                run[2 + a].reply->Copied_0->Ok_0@,
            )
            &&& b == 1 ==> run[3 + a].reply.is_done()
            &&& run[3 + a + b].operation == (ClearAuthentication::Rereading {
                scope: HostScope::Current,
            })
            &&& was_cleared(run[3 + a + b].reply)
        },
{
    let leads = ClearAuthentication::leads();
    assert(step::goes_on(leads, run, 0));
    if run.len() > 1 {
        assert(step::goes_on(leads, run, 1));
    }
    if run.len() > 2 {
        assert(step::goes_on(leads, run, 2));
    }
    if run.len() > 3 {
        assert(step::goes_on(leads, run, 3));
    }
    if run.len() > 4 {
        assert(step::goes_on(leads, run, 4));
    }
    if run.len() > 5 {
        assert(step::goes_on(leads, run, 5));
    }
}

} // verus!
