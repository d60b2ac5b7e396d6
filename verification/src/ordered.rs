//! Maps from text to text whose entries stand in the order of their keys.

use vstd::prelude::*;

use crate::text;

verus! {

/// An entry of a [`TextMap`].
#[derive(Debug)]
pub struct TextEntry {
    pub key: String,
    pub value: String,
}

/// Whether the keys stand in ascending order, none of them twice.
pub open spec fn ascending(entries: Seq<TextEntry>) -> bool {
    forall|i: int, j: int|
        0 <= i < j < entries.len() ==> text::text_less(
            #[trigger] entries[i].key@,
            #[trigger] entries[j].key@,
        )
}

/// The keys of the entries and their values.
pub open spec fn map_of(entries: Seq<TextEntry>) -> Map<Seq<char>, Seq<char>>
    decreases entries.len(),
{
    if entries.len() == 0 {
        Map::empty()
    } else {
        map_of(entries.drop_last()).insert(entries.last().key@, entries.last().value@)
    }
}

/// Whether the entry at `i` is the one of the key.
pub open spec fn entry_at(entries: Seq<TextEntry>, i: int, key: Seq<char>) -> bool {
    0 <= i < entries.len() && entries[i].key@ == key
}

/// The map of ascending entries has exactly these entries.
pub proof fn lemma_map_of(entries: Seq<TextEntry>)
    requires
        ascending(entries),
    ensures
        forall|i: int|
            0 <= i < entries.len() ==> map_of(entries).dom().contains(#[trigger] entries[i].key@)
                && map_of(entries)[entries[i].key@] == entries[i].value@,
        forall|key: Seq<char>|
            map_of(entries).dom().contains(key) ==> exists|i: int| entry_at(entries, i, key),
    decreases entries.len(),
{
    if entries.len() > 0 {
        let shorter = entries.drop_last();
        assert forall|i: int, j: int| 0 <= i < j < shorter.len() implies text::text_less(
            #[trigger] shorter[i].key@,
            #[trigger] shorter[j].key@,
        ) by {
            assert(entries[i] == shorter[i] && entries[j] == shorter[j]);
        }
        lemma_map_of(shorter);
        let last = entries.len() - 1;
        assert forall|i: int| 0 <= i < entries.len() implies map_of(entries).dom().contains(
            #[trigger] entries[i].key@,
        ) && map_of(entries)[entries[i].key@] == entries[i].value@ by {
            if i < last {
                assert(shorter[i] == entries[i]);
                assert(text::text_less(entries[i].key@, entries[last].key@));
                text::lemma_text_order(entries[i].key@, entries[last].key@);
            }
        }
        assert forall|key: Seq<char>| map_of(entries).dom().contains(key) implies exists|i: int|
            entry_at(entries, i, key) by {
            if key == entries[last].key@ {
                assert(entry_at(entries, last, key));
            } else {
                assert(map_of(shorter).dom().contains(key));
                let i = choose|i: int| entry_at(shorter, i, key);
                assert(shorter[i] == entries[i]);
                assert(entry_at(entries, i, key));
            }
        }
    }
}

/// A map from text to text, kept in the order of its keys.
#[derive(Debug)]
pub struct TextMap {
    entries: Vec<TextEntry>,
}

impl View for TextMap {
    type V = Map<Seq<char>, Seq<char>>;

    closed spec fn view(&self) -> Map<Seq<char>, Seq<char>> {
        map_of(self.entries@)
    }
}

impl TextMap {
    #[verifier::type_invariant]
    closed spec fn in_order(self) -> bool {
        ascending(self.entries@)
    }

    /// The empty map.
    pub fn new() -> (map: TextMap)
        ensures
            map@ == Map::<Seq<char>, Seq<char>>::empty(),
    {
        TextMap { entries: Vec::new() }
    }

    /// The map with `value` under `key`.
    pub fn with(self, key: String, value: String) -> (map: TextMap)
        ensures
            map@ == self@.insert(key@, value@),
    {
        proof {
            use_type_invariant(&self);
            lemma_map_of(self.entries@);
        }
        let mut entries = self.entries;
        let ghost before = entries@;
        let ghost new_key = key@;
        let ghost new_value = value@;
        let mut at: usize = 0;
        while at < entries.len() && text::is_less(entries[at].key.as_str(), key.as_str())
            invariant
                at <= entries.len(),
                forall|j: int| 0 <= j < at ==> text::text_less(entries@[j].key@, key@),
            decreases entries.len() - at,
        {
            at = at + 1;
        }
        if at < entries.len() && text::same_text(entries[at].key.as_str(), key.as_str()) {
            entries.set(at, TextEntry { key, value });
            proof {
                assert(ascending(entries@)) by {
                    assert forall|i: int, j: int| 0 <= i < j < entries.len() implies text::text_less(
                        #[trigger] entries@[i].key@,
                        #[trigger] entries@[j].key@,
                    ) by {
                        assert(entries@[i].key@ == before[i].key@);
                        assert(entries@[j].key@ == before[j].key@);
                    }
                }
                lemma_map_of(entries@);
                lemma_same_map(before, entries@, at as int, new_key, new_value);
            }
        } else {
            proof {
                assert forall|i: int| at <= i < before.len() implies text::text_less(
                    new_key,
                    #[trigger] before[i].key@,
                ) by {
                    text::lemma_text_order(new_key, before[at as int].key@);
                    if i > at {
                        text::lemma_text_order_transitive(
                            new_key,
                            before[at as int].key@,
                            before[i].key@,
                        );
                    }
                }
            }
            entries.insert(at, TextEntry { key, value });
            proof {
                assert(ascending(entries@)) by {
                    assert forall|i: int, j: int| 0 <= i < j < entries.len() implies text::text_less(
                        #[trigger] entries@[i].key@,
                        #[trigger] entries@[j].key@,
                    ) by {
                        if j < at {
                            assert(entries@[i] == before[i] && entries@[j] == before[j]);
                        } else if j == at {
                            assert(entries@[i] == before[i]);
                        } else if i < at {
                            assert(entries@[i] == before[i] && entries@[j] == before[j - 1]);
                        } else if i == at {
                            assert(entries@[j] == before[j - 1]);
                        } else {
                            assert(entries@[i] == before[i - 1] && entries@[j] == before[j - 1]);
                        }
                    }
                }
                lemma_map_of(entries@);
                lemma_same_map(before, entries@, at as int, new_key, new_value);
            }
        }
        TextMap { entries }
    }

    /// The value under `key`.
    pub fn get(&self, key: &str) -> (value: Option<&String>)
        ensures
            value is Some == self@.dom().contains(key@),
            value is Some ==> value->0@ == self@[key@],
    {
        proof {
            use_type_invariant(self);
            lemma_map_of(self.entries@);
        }
        let mut i: usize = 0;
        while i < self.entries.len()
            invariant
                i <= self.entries.len(),
                forall|j: int| 0 <= j < i ==> (#[trigger] self.entries@[j]).key@ != key@,
                forall|j: int|
                    0 <= j < self.entries.len() ==> self@.dom().contains(
                        #[trigger] self.entries@[j].key@,
                    ) && self@[self.entries@[j].key@] == self.entries@[j].value@,
                forall|k: Seq<char>|
                    self@.dom().contains(k) ==> exists|j: int| entry_at(self.entries@, j, k),
            decreases self.entries.len() - i,
        {
            if text::same_text(self.entries[i].key.as_str(), key) {
                return Some(&self.entries[i].value);
            }
            i = i + 1;
        }
        None
    }

    /// The entries, in the order of their keys.
    pub fn entries(&self) -> (entries: &Vec<TextEntry>)
        ensures
            ascending(entries@),
            map_of(entries@) == self@,
    {
        proof {
            use_type_invariant(self);
        }
        &self.entries
    }

    /// The entries themselves, in the order of their keys.
    pub fn into_entries(self) -> (entries: Vec<TextEntry>)
        ensures
            ascending(entries@),
            map_of(entries@) == self@,
    {
        proof {
            use_type_invariant(&self);
        }
        self.entries
    }

    /// Whether both maps are the same.
    pub fn same(&self, other: &TextMap) -> (same: bool)
        ensures
            same == (self@ == other@),
    {
        proof {
            use_type_invariant(self);
            use_type_invariant(other);
            lemma_map_of(self.entries@);
            lemma_map_of(other.entries@);
        }
        let same = self.within(other) && other.within(self);
        proof {
            if same {
                assert(self@.dom() =~= other@.dom());
                assert(self@ =~= other@);
            }
        }
        same
    }

    /// Whether every entry of this map stands in `other`.
    pub fn within(&self, other: &TextMap) -> (within: bool)
        ensures
            within == self@.submap_of(other@),
    {
        proof {
            use_type_invariant(self);
            lemma_map_of(self.entries@);
        }
        let mut i: usize = 0;
        while i < self.entries.len()
            invariant
                i <= self.entries.len(),
                forall|j: int|
                    0 <= j < self.entries.len() ==> self@.dom().contains(
                        #[trigger] self.entries@[j].key@,
                    ) && self@[self.entries@[j].key@] == self.entries@[j].value@,
                forall|j: int|
                    0 <= j < i ==> other@.dom().contains(#[trigger] self.entries@[j].key@)
                        && other@[self.entries@[j].key@] == self.entries@[j].value@,
            decreases self.entries.len() - i,
        {
            let found = match other.get(self.entries[i].key.as_str()) {
                Some(value) => text::same_text(value.as_str(), self.entries[i].value.as_str()),
                None => false,
            };
            if !found {
                assert(self@.dom().contains(self.entries@[i as int].key@));
                return false;
            }
            i = i + 1;
        }
        proof {
            assert forall|k: Seq<char>| self@.dom().contains(k) implies other@.dom().contains(k)
                && other@[k] == self@[k] by {
                let j = choose|j: int| entry_at(self.entries@, j, k);
                assert(self.entries@[j].key@ == k);
            }
        }
        true
    }
}

impl Clone for TextMap {
    fn clone(&self) -> (copy: Self)
        ensures
            copy@ == self@,
    {
        proof {
            use_type_invariant(self);
        }
        let mut entries: Vec<TextEntry> = Vec::new();
        let mut i: usize = 0;
        while i < self.entries.len()
            invariant
                i <= self.entries.len(),
                entries@ == self.entries@.take(i as int),
            decreases self.entries.len() - i,
        {
            let entry = TextEntry {
                key: self.entries[i].key.clone(),
                value: self.entries[i].value.clone(),
            };
            assert(entry == self.entries@[i as int]);
            entries.push(entry);
            assert(self.entries@.take(i + 1) =~= self.entries@.take(i as int).push(
                self.entries@[i as int],
            ));
            i = i + 1;
        }
        assert(entries@ =~= self.entries@);
        TextMap { entries }
    }
}

/// Putting one entry at its place, be it over the one that stands there, gives
/// the map with that entry.
proof fn lemma_same_map(
    before: Seq<TextEntry>,
    after: Seq<TextEntry>,
    at: int,
    key: Seq<char>,
    value: Seq<char>,
)
    requires
        ascending(before),
        ascending(after),
        0 <= at < after.len(),
        after[at].key@ == key,
        after[at].value@ == value,
        (after.len() == before.len() && before[at].key@ == key && forall|i: int|
            0 <= i < before.len() && i != at ==> after[i] == before[i]) || (after.len()
            == before.len() + 1 && (forall|i: int| 0 <= i < at ==> after[i] == before[i]) && (
        forall|i: int| at < i < after.len() ==> after[i] == before[i - 1])),
    ensures
        map_of(after) == map_of(before).insert(key, value),
{
    lemma_map_of(before);
    lemma_map_of(after);
    let left = map_of(after);
    let right = map_of(before).insert(key, value);
    assert forall|k: Seq<char>| #[trigger] left.dom().contains(k) implies right.dom().contains(k)
        && left[k] == right[k] by {
        let i = choose|i: int| entry_at(after, i, k);
        if i != at {
            if i < at {
                text::lemma_text_order(after[i].key@, after[at].key@);
            } else {
                text::lemma_text_order(after[at].key@, after[i].key@);
            }
            assert(k != key);
            let j = if after.len() == before.len() || i < at {
                i
            } else {
                i - 1
            };
            assert(before[j] == after[i]);
            assert(map_of(before).dom().contains(before[j].key@));
        }
    }
    assert forall|k: Seq<char>| #[trigger] right.dom().contains(k) implies left.dom().contains(
        k,
    ) by {
        if k != key {
            assert(map_of(before).dom().contains(k));
            let j = choose|j: int| entry_at(before, j, k);
            let i = if after.len() == before.len() || j < at {
                j
            } else {
                j + 1
            };
            assert(after[i] == before[j]);
            assert(left.dom().contains(after[i].key@));
        } else {
            assert(left.dom().contains(after[at].key@));
        }
    }
    assert(left.dom() =~= right.dom());
    assert(left =~= right);
}

} // verus!
