//! The contents of a bounded cache that evicts the entry used least recently,
//! as a sequence of keyed entries with the most recently used one first.

use vstd::prelude::*;

verus! {

/// No key occurs twice.
pub open spec fn distinct_keys<K, V>(entries: Seq<(K, V)>) -> bool {
    forall|i: int, j: int|
        0 <= i < j < entries.len() ==> (#[trigger] entries[i]).0 != (#[trigger] entries[j]).0
}

/// The index of the first entry at or after `from` that has the key `key`.
pub open spec fn position_from<K, V>(entries: Seq<(K, V)>, key: K, from: int) -> Option<int>
    decreases entries.len() - from,
{
    if from < 0 || from >= entries.len() {
        None
    } else if entries[from].0 == key {
        Some(from)
    } else {
        position_from(entries, key, from + 1)
    }
}

/// The index of the first entry that has the key `key`.
pub open spec fn position<K, V>(entries: Seq<(K, V)>, key: K) -> Option<int> {
    position_from(entries, key, 0)
}

/// The value held under `key`.
pub open spec fn value_of<K, V>(entries: Seq<(K, V)>, key: K) -> Option<V> {
    match position(entries, key) {
        Some(index) => Some(entries[index].1),
        None => None,
    }
}

/// The entries after a use of `key`: its entry, if there is one, has moved to
/// the front.
pub open spec fn touched<K, V>(entries: Seq<(K, V)>, key: K) -> Seq<(K, V)> {
    match position(entries, key) {
        Some(index) => seq![entries[index]] + entries.remove(index),
        None => entries,
    }
}

/// The entries after `value` was stored under `key` in a cache that holds at
/// most `limit` entries: the new entry stands at the front; it replaces the
/// entry that had the key or, in a full cache without one, the last entry.
pub open spec fn stored<K, V>(entries: Seq<(K, V)>, limit: nat, key: K, value: V) -> Seq<(K, V)> {
    match position(entries, key) {
        Some(index) => seq![(key, value)] + entries.remove(index),
        None => if entries.len() == limit {
            seq![(key, value)] + entries.drop_last()
        } else {
            seq![(key, value)] + entries
        },
    }
}

/// The entry that leaves when a value is stored under `key`: the one that
/// had the key, under the key as it was given, or the last entry of a full
/// cache.
pub open spec fn displaced<K, V>(entries: Seq<(K, V)>, limit: nat, key: K) -> Option<(K, V)> {
    match position(entries, key) {
        Some(index) => Some((key, entries[index].1)),
        None => if entries.len() == limit {
            Some(entries.last())
        } else {
            None
        },
    }
}

/// Distinct keys, at most `limit` entries, and room for at least one.
pub open spec fn bounded<K, V>(entries: Seq<(K, V)>, limit: nat) -> bool {
    &&& distinct_keys(entries)
    &&& entries.len() <= limit
    &&& limit > 0
}

/// What `position_from` finds is the first entry with the key, and it finds
/// nothing only where no entry has the key.
pub proof fn lemma_position_from<K, V>(entries: Seq<(K, V)>, key: K, from: int)
    requires
        0 <= from,
    ensures
        match position_from(entries, key, from) {
            Some(index) => {
                &&& from <= index < entries.len()
                &&& entries[index].0 == key
                &&& forall|j: int| from <= j < index ==> (#[trigger] entries[j]).0 != key
            },
            None => forall|j: int| from <= j < entries.len() ==> (#[trigger] entries[j]).0 != key,
        },
    decreases entries.len() - from,
{
    if from < entries.len() && entries[from].0 != key {
        lemma_position_from(entries, key, from + 1);
    }
}

/// What `position` finds is the first entry with the key, and it finds
/// nothing only where no entry has the key.
pub proof fn lemma_position<K, V>(entries: Seq<(K, V)>, key: K)
    ensures
        match position(entries, key) {
            Some(index) => {
                &&& 0 <= index < entries.len()
                &&& entries[index].0 == key
                &&& forall|j: int| 0 <= j < index ==> (#[trigger] entries[j]).0 != key
            },
            None => forall|j: int| 0 <= j < entries.len() ==> (#[trigger] entries[j]).0 != key,
        },
{
    lemma_position_from(entries, key, 0);
}

/// The first entry with the key is what `position` finds.
pub proof fn lemma_position_is<K, V>(entries: Seq<(K, V)>, key: K, index: int)
    requires
        0 <= index < entries.len(),
        entries[index].0 == key,
        forall|j: int| 0 <= j < index ==> (#[trigger] entries[j]).0 != key,
    ensures
        position(entries, key) == Some(index),
{
    lemma_position(entries, key);
}

/// Among distinct keys, the one entry with the key is what `position` finds.
pub proof fn lemma_position_distinct<K, V>(entries: Seq<(K, V)>, key: K, index: int)
    requires
        distinct_keys(entries),
        0 <= index < entries.len(),
        entries[index].0 == key,
    ensures
        position(entries, key) == Some(index),
{
    lemma_position(entries, key);
}

/// A use of a key keeps the entries, moves the used one to the front, and
/// changes no value.
pub proof fn lemma_touched<K, V>(entries: Seq<(K, V)>, key: K)
    requires
        distinct_keys(entries),
    ensures
        distinct_keys(touched(entries, key)),
        touched(entries, key).len() == entries.len(),
        forall|other: K| value_of(touched(entries, key), other) == value_of(entries, other),
        value_of(entries, key) is Some ==> position(touched(entries, key), key) == Some(0int),
{
    lemma_position(entries, key);
    let after = touched(entries, key);
    match position(entries, key) {
        Some(index) => {
            assert forall|i: int, j: int| 0 <= i < j < after.len() implies (#[trigger] after[i]).0
                != (#[trigger] after[j]).0 by {
                let from_i = if i == 0 { index } else if i - 1 < index { i - 1 } else { i };
                let from_j = if j - 1 < index { j - 1 } else { j };
                assert(after[i] == entries[from_i]);
                assert(after[j] == entries[from_j]);
            }
            lemma_position_is(after, key, 0);
            assert forall|other: K| value_of(after, other) == value_of(entries, other) by {
                lemma_position(entries, other);
                match position(entries, other) {
                    Some(at) => {
                        let to = if at == index { 0 } else if at < index { at + 1 } else { at };
                        assert(after[to] == entries[at]);
                        lemma_position_distinct(after, other, to);
                    },
                    None => {
                        lemma_position(after, other);
                        if let Some(to) = position(after, other) {
                            let at = if to == 0 { index } else if to - 1 < index { to - 1 } else { to };
                            assert(after[to] == entries[at]);
                        }
                    },
                }
            }
        },
        None => {},
    }
}

/// Storing a value keeps the keys distinct and the cache within its limit,
/// puts the value at the front under its key, and changes no other value
/// that stays.
pub proof fn lemma_stored<K, V>(entries: Seq<(K, V)>, limit: nat, key: K, value: V)
    requires
        bounded(entries, limit),
    ensures
        bounded(stored(entries, limit, key, value), limit),
        stored(entries, limit, key, value)[0] == (key, value),
        position(stored(entries, limit, key, value), key) == Some(0int),
        value_of(stored(entries, limit, key, value), key) == Some(value),
        forall|other: K|
            other != key ==> (#[trigger] value_of(stored(entries, limit, key, value), other))
                is None || value_of(stored(entries, limit, key, value), other) == value_of(
                entries,
                other,
            ),
{
    lemma_position(entries, key);
    let after = stored(entries, limit, key, value);
    let rest = match position(entries, key) {
        Some(index) => entries.remove(index),
        None => if entries.len() == limit {
            entries.drop_last()
        } else {
            entries
        },
    };
    assert(after =~= seq![(key, value)] + rest);
    // An entry of `rest` is an entry of `entries` with another key, and the
    // order of those that stay is kept.
    let source = |i: int|
        match position(entries, key) {
            Some(index) => if i < index { i } else { i + 1 },
            None => i,
        };
    assert forall|i: int| 0 <= i < rest.len() implies (#[trigger] rest[i]) == entries[source(i)]
        && rest[i].0 != key && 0 <= source(i) < entries.len() by {}
    assert forall|i: int, j: int| 0 <= i < j < after.len() implies (#[trigger] after[i]).0 != (
    #[trigger] after[j]).0 by {
        assert(after[j] == rest[j - 1]);
        if i > 0 {
            assert(after[i] == rest[i - 1]);
            assert(source(i - 1) < source(j - 1));
        }
    }
    lemma_position_is(after, key, 0);
    assert forall|other: K| other != key implies (#[trigger] value_of(after, other)) is None
        || value_of(after, other) == value_of(entries, other) by {
        lemma_position(after, other);
        if let Some(to) = position(after, other) {
            assert(after[to] == rest[to - 1]);
            lemma_position_distinct(entries, other, source(to - 1));
        }
    }
}

} // verus!
