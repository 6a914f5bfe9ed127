//! Lookups in string-keyed lists of entries, as a map answers them.

use vstd::prelude::*;
use crate::params::same_text;

verus! {

/// The value of the first entry whose key is `key`, if any.
pub open spec fn lookup_entry<V>(entries: Seq<(String, V)>, key: Seq<char>) -> Option<V>
    decreases entries.len(),
{
    if entries.len() == 0 {
        None
    } else if entries[0].0@ == key {
        Some(entries[0].1)
    } else {
        lookup_entry(entries.drop_first(), key)
    }
}

/// Finds the value of the first entry whose key is `key`.
pub fn find_entry<'a, V>(entries: &'a Vec<(String, V)>, key: &str) -> (r: Option<&'a V>)
    ensures
        match r {
            Some(v) => lookup_entry(entries@, key@) == Some(*v),
            None => lookup_entry(entries@, key@) is None,
        },
{
    let mut i: usize = 0;
    assert(entries@.subrange(0, entries@.len() as int) =~= entries@);
    while i < entries.len()
        invariant
            i <= entries@.len(),
            lookup_entry(entries@, key@) == lookup_entry(entries@.subrange(i as int, entries@.len() as int), key@),
        decreases entries@.len() - i,
    {
        let ghost rest = entries@.subrange(i as int, entries@.len() as int);
        assert(rest.drop_first() =~= entries@.subrange(i + 1, entries@.len() as int));
        if same_text(entries[i].0.as_str(), key) {
            return Some(&entries[i].1);
        }
        i = i + 1;
    }
    None
}

/// The keys of a list of entries, in order.
pub open spec fn keys_of<V>(entries: Seq<(String, V)>) -> Seq<Seq<char>> {
    entries.map_values(|e: (String, V)| e.0@)
}

/// No key occurs twice among the entries, as in a map.
pub open spec fn distinct_keys<V>(entries: Seq<(String, V)>) -> bool {
    keys_of(entries).no_duplicates()
}

/// A lookup finds nothing exactly when no entry has the key.
pub proof fn lemma_lookup_none<V>(entries: Seq<(String, V)>, key: Seq<char>)
    ensures
        lookup_entry(entries, key) is None <==> !keys_of(entries).contains(key),
    decreases entries.len(),
{
    if entries.len() > 0 {
        let rest = entries.drop_first();
        lemma_lookup_none(rest, key);
        assert(keys_of(rest) =~= keys_of(entries).drop_first());
        if keys_of(entries).contains(key) {
            let i = choose|i: int| 0 <= i < keys_of(entries).len() && keys_of(entries)[i] == key;
            if i > 0 {
                assert(keys_of(rest)[i - 1] == key);
            }
        }
        if keys_of(rest).contains(key) {
            let i = choose|i: int| 0 <= i < keys_of(rest).len() && keys_of(rest)[i] == key;
            assert(keys_of(entries)[i + 1] == key);
        }
        assert(keys_of(entries)[0] == entries[0].0@);
    }
}

/// Whether no key occurs twice among the entries.
pub fn has_distinct_keys<V>(entries: &Vec<(String, V)>) -> (b: bool)
    ensures
        b == distinct_keys(entries@),
{
    let mut i: usize = 0;
    while i < entries.len()
        invariant
            i <= entries@.len(),
            forall|a: int, c: int| 0 <= a < c < entries@.len() && a < i ==> #[trigger] keys_of(entries@)[a] != #[trigger] keys_of(entries@)[c],
        decreases entries@.len() - i,
    {
        let mut j: usize = i + 1;
        while j < entries.len()
            invariant
                i < entries@.len(),
                i + 1 <= j <= entries@.len(),
                forall|a: int, c: int| 0 <= a < c < entries@.len() && a < i ==> #[trigger] keys_of(entries@)[a] != #[trigger] keys_of(entries@)[c],
                forall|c: int| i < c < j ==> keys_of(entries@)[i as int] != #[trigger] keys_of(entries@)[c],
            decreases entries@.len() - j,
        {
            if same_text(entries[i].0.as_str(), entries[j].0.as_str()) {
                proof {
                    assert(keys_of(entries@)[i as int] == keys_of(entries@)[j as int]);
                }
                return false;
            }
            proof {
                assert(keys_of(entries@)[j as int] == entries@[j as int].0@);
                assert(keys_of(entries@)[i as int] == entries@[i as int].0@);
            }
            j = j + 1;
        }
        i = i + 1;
    }
    true
}

/// The values present in a list of lookups, in order.
pub open spec fn found<T>(s: Seq<Option<T>>) -> Seq<T>
    decreases s.len(),
{
    if s.len() == 0 {
        seq![]
    } else {
        match s[0] {
            Some(x) => seq![x] + found(s.drop_first()),
            None => found(s.drop_first()),
        }
    }
}

/// The results of a series of lookups that found something, in the order
/// of the lookups; the lookups that found nothing are skipped.
pub fn found_items<T>(lookups: Vec<Option<T>>) -> (r: Vec<T>)
    ensures
        r@ == found(lookups@),
{
    let mut rest = lookups;
    let mut r: Vec<T> = Vec::new();
    while rest.len() > 0
        invariant
            r@ + found(rest@) == found(lookups@),
        decreases rest@.len(),
    {
        let ghost before = rest@;
        let first = rest.remove(0);
        assert(rest@ =~= before.drop_first());
        match first {
            Some(x) => {
                r.push(x);
                assert(r@ + found(rest@) =~= found(lookups@));
            },
            None => {},
        }
    }
    assert(found(rest@) =~= Seq::<T>::empty());
    assert(r@ =~= found(lookups@));
    r
}

} // verus!
