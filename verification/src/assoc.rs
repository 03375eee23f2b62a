//! Small tables from numbers to values.
use vstd::prelude::*;

use crate::seqs::{
    first_index, lemma_first_index, lemma_first_index_is, lemma_first_index_none,
};

verus! {

/// Whether an entry has the given key.
pub open spec fn keyed<T>(key: u64) -> spec_fn((u64, T)) -> bool {
    |entry: (u64, T)| entry.0 == key
}

/// The value of a key, the first one where there are several.
pub open spec fn lookup<T>(entries: Seq<(u64, T)>, key: u64) -> Option<T> {
    match first_index(entries, keyed::<T>(key)) {
        Some(i) => Some(entries[i].1),
        None => None,
    }
}

/// The table with a key set to a value.
pub open spec fn inserted<T>(entries: Seq<(u64, T)>, key: u64, value: T) -> Seq<(u64, T)> {
    match first_index(entries, keyed::<T>(key)) {
        Some(i) => entries.update(i, (key, value)),
        None => entries.push((key, value)),
    }
}

/// The table without a key.
pub open spec fn removed<T>(entries: Seq<(u64, T)>, key: u64) -> Seq<(u64, T)> {
    match first_index(entries, keyed::<T>(key)) {
        Some(i) => entries.remove(i),
        None => entries,
    }
}

/// No key occurs twice.
pub open spec fn unique_keys<T>(entries: Seq<(u64, T)>) -> bool {
    forall|i: int, j: int|
        0 <= i < j < entries.len() ==> (#[trigger] entries[i]).0 != (#[trigger] entries[j]).0
}

/// Where a key stands.
pub fn index_of_key<T>(entries: &Vec<(u64, T)>, key: u64) -> (r: Option<usize>)
    ensures
        r matches Some(i) ==> i < entries@.len() && first_index(entries@, keyed::<T>(key)) == Some(
            i as int,
        ) && entries@[i as int].0 == key,
        r is None <==> first_index(entries@, keyed::<T>(key)) is None,
{
    let mut i: usize = 0;
    while i < entries.len()
        invariant
            0 <= i <= entries.len(),
            forall|j: int| 0 <= j < i ==> (#[trigger] entries@[j]).0 != key,
        decreases entries.len() - i,
    {
        if entries[i].0 == key {
            proof {
                lemma_first_index_is(entries@, keyed::<T>(key), i as int);
            }
            return Some(i);
        }
        i += 1;
    }
    proof {
        lemma_first_index_none(entries@, keyed::<T>(key));
    }
    None
}

/// Set a key to a value.
pub fn insert<T>(entries: &mut Vec<(u64, T)>, key: u64, value: T)
    ensures
        final(entries)@ == inserted(old(entries)@, key, value),
{
    match index_of_key(entries, key) {
        Some(i) => {
            entries[i] = (key, value);
        },
        None => {
            entries.push((key, value));
        },
    }
}

/// The value of a key.
pub fn get<T: Copy>(entries: &Vec<(u64, T)>, key: u64) -> (r: Option<T>)
    ensures
        r == lookup(entries@, key),
{
    match index_of_key(entries, key) {
        Some(i) => Some(entries[i].1),
        None => None,
    }
}

/// Drop a key. Returns its value.
pub fn take<T>(entries: &mut Vec<(u64, T)>, key: u64) -> (r: Option<T>)
    ensures
        r == lookup(old(entries)@, key),
        final(entries)@ == removed(old(entries)@, key),
{
    match index_of_key(entries, key) {
        Some(i) => {
            let (_, value) = entries.remove(i);
            Some(value)
        },
        None => None,
    }
}

/// A key that is set has its value, and no other key changes.
pub proof fn lemma_lookup_inserted<T>(entries: Seq<(u64, T)>, key: u64, value: T, other: u64)
    ensures
        lookup(inserted(entries, key, value), key) == Some(value),
        other != key ==> lookup(inserted(entries, key, value), other) == lookup(entries, other),
{
    let after = inserted(entries, key, value);
    lemma_first_index(entries, keyed::<T>(key));
    match first_index(entries, keyed::<T>(key)) {
        Some(i) => {
            assert forall|j: int| 0 <= j < i implies !keyed::<T>(key)(#[trigger] after[j]) by {
                assert(!keyed::<T>(key)(entries[j]));
            }
            lemma_first_index_is(after, keyed::<T>(key), i);
        },
        None => {
            assert forall|j: int| 0 <= j < entries.len() implies !keyed::<T>(key)(
                #[trigger] after[j],
            ) by {
                assert(!keyed::<T>(key)(entries[j]));
            }
            lemma_first_index_is(after, keyed::<T>(key), entries.len() as int);
        },
    }
    if other != key {
        lemma_first_index(entries, keyed::<T>(other));
        match first_index(entries, keyed::<T>(other)) {
            Some(k) => {
                assert forall|j: int| 0 <= j < k implies !keyed::<T>(other)(
                    #[trigger] after[j],
                ) by {
                    assert(!keyed::<T>(other)(entries[j]));
                }
                lemma_first_index_is(after, keyed::<T>(other), k);
            },
            None => {
                assert forall|j: int| 0 <= j < after.len() implies !keyed::<T>(other)(
                    #[trigger] after[j],
                ) by {
                    if j < entries.len() {
                        assert(!keyed::<T>(other)(entries[j]));
                    }
                }
                lemma_first_index_none(after, keyed::<T>(other));
            },
        }
    }
}

/// Setting a key keeps keys unique.
pub proof fn lemma_inserted_unique<T>(entries: Seq<(u64, T)>, key: u64, value: T)
    requires
        unique_keys(entries),
    ensures
        unique_keys(inserted(entries, key, value)),
{
    let after = inserted(entries, key, value);
    lemma_first_index(entries, keyed::<T>(key));
    assert forall|i: int, j: int| 0 <= i < j < after.len() implies (#[trigger] after[i]).0 != (
    #[trigger] after[j]).0 by {
        if j < entries.len() {
            assert(entries[i].0 != entries[j].0);
        } else {
            assert(!keyed::<T>(key)(entries[i]));
        }
    }
}

/// A key that is dropped is gone.
pub proof fn lemma_lookup_removed<T>(entries: Seq<(u64, T)>, key: u64)
    requires
        unique_keys(entries),
    ensures
        lookup(removed(entries, key), key) is None,
        unique_keys(removed(entries, key)),
{
    let after = removed(entries, key);
    lemma_first_index(entries, keyed::<T>(key));
    if let Some(i) = first_index(entries, keyed::<T>(key)) {
        assert forall|j: int| 0 <= j < after.len() implies !keyed::<T>(key)(
            #[trigger] after[j],
        ) by {
            if j < i {
                assert(after[j] == entries[j]);
            } else {
                assert(after[j] == entries[j + 1]);
                assert(entries[i].0 != entries[j + 1].0);
            }
        }
        lemma_first_index_none(after, keyed::<T>(key));
        assert forall|j: int, k: int| 0 <= j < k < after.len() implies (#[trigger] after[j]).0 != (
        #[trigger] after[k]).0 by {
            let j0 = if j < i { j } else { j + 1 };
            let k0 = if k < i { k } else { k + 1 };
            assert(entries[j0].0 != entries[k0].0);
        }
    }
}

/// Keeping only some entries keeps keys unique.
pub proof fn lemma_filter_unique<T>(entries: Seq<(u64, T)>, p: spec_fn((u64, T)) -> bool)
    requires
        unique_keys(entries),
    ensures
        unique_keys(entries.filter(p)),
        forall|i: int|
            0 <= i < entries.filter(p).len() ==> exists|k: int|
                0 <= k < entries.len() && #[trigger] entries[k] == #[trigger] entries.filter(p)[i],
    decreases entries.len(),
{
    reveal(Seq::filter);
    if entries.len() > 0 {
        let front = entries.drop_last();
        let last = entries.last();
        assert(unique_keys(front)) by {
            assert forall|i: int, j: int| 0 <= i < j < front.len() implies (
            #[trigger] front[i]).0 != (#[trigger] front[j]).0 by {
                assert(entries[i].0 != entries[j].0);
            }
        }
        lemma_filter_unique(front, p);
        let kept = front.filter(p);
        let all = entries.filter(p);
        assert(all == if p(last) { kept.push(last) } else { kept });
        assert forall|i: int| 0 <= i < all.len() implies exists|k: int|
            0 <= k < entries.len() && #[trigger] entries[k] == #[trigger] all[i] by {
            if i < kept.len() {
                let k = choose|k: int| 0 <= k < front.len() && #[trigger] front[k] == kept[i];
                assert(entries[k] == all[i]);
            } else {
                assert(entries[entries.len() - 1] == all[i]);
            }
        }
        assert forall|i: int, j: int| 0 <= i < j < all.len() implies (#[trigger] all[i]).0 != (
        #[trigger] all[j]).0 by {
            if j < kept.len() {
                assert(kept[i].0 != kept[j].0);
            } else {
                let k = choose|k: int| 0 <= k < front.len() && #[trigger] front[k] == kept[i];
                assert(entries[k].0 != entries[entries.len() - 1].0);
            }
        }
    }
}

/// A key has the value that stands beside it, and none if it stands nowhere.
pub proof fn keys_have_their_values<T>(entries: Seq<(u64, T)>, key: u64, i: int)
    requires
        unique_keys(entries),
    ensures
        0 <= i < entries.len() && entries[i].0 == key ==> lookup(entries, key) == Some(entries[i].1),
        (forall|j: int| 0 <= j < entries.len() ==> (#[trigger] entries[j]).0 != key) ==> lookup(
            entries,
            key,
        ) is None,
{
    lemma_first_index(entries, keyed::<T>(key));
    if 0 <= i < entries.len() && entries[i].0 == key {
        assert(keyed::<T>(key)(entries[i]));
        let k = first_index(entries, keyed::<T>(key))->0;
        assert(keyed::<T>(key)(entries[k]));
        if k < i {
            assert(entries[k].0 != entries[i].0);
        }
    }
    if first_index(entries, keyed::<T>(key)) is Some {
        let k = first_index(entries, keyed::<T>(key))->0;
        assert(keyed::<T>(key)(entries[k]));
    }
}

/// Dropping a key leaves all other keys as they are.
pub proof fn other_keys_are_kept<T>(entries: Seq<(u64, T)>, key: u64, other: u64)
    requires
        unique_keys(entries),
        other != key,
    ensures
        lookup(removed(entries, key), other) == lookup(entries, other),
{
    let after = removed(entries, key);
    lemma_lookup_removed(entries, key);
    lemma_first_index(entries, keyed::<T>(other));
    lemma_first_index(entries, keyed::<T>(key));
    if let Some(i) = first_index(entries, keyed::<T>(key)) {
        assert(keyed::<T>(key)(entries[i]));
        match first_index(entries, keyed::<T>(other)) {
            Some(k) => {
                assert(keyed::<T>(other)(entries[k]));
                let at = if k < i { k } else { k - 1 };
                assert(after[at] == entries[k]);
                keys_have_their_values(after, other, at);
            },
            None => {
                assert forall|j: int| 0 <= j < after.len() implies (#[trigger] after[j]).0
                    != other by {
                    let from = if j < i { j } else { j + 1 };
                    assert(after[j] == entries[from]);
                    assert(!keyed::<T>(other)(entries[from]));
                }
                keys_have_their_values(after, other, 0);
            },
        }
    }
}

} // verus!
