//! Association-list lookup, shared by the resolution and execution
//! contexts and by the template-placeholder tables.
//!
//! Lookups are specified against [`assoc_find`], a first-match search over
//! the view of the list; insertion order is therefore significant and
//! preserved, exactly as in the providers these lists stand for.

use vstd::prelude::*;

use crate::data::assoc_view;

verus! {

/// First entry of `entries` whose key is `key`, if any.
pub open spec fn assoc_find<V>(entries: Seq<(Seq<char>, V)>, key: Seq<char>) -> Option<V>
    decreases entries.len(),
{
    if entries.len() == 0 {
        None
    } else if entries[0].0 == key {
        Some(entries[0].1)
    } else {
        assoc_find(entries.drop_first(), key)
    }
}

/// A search may start after any prefix free of the key without changing
/// its result.
proof fn lemma_assoc_find_skip<V>(entries: Seq<(Seq<char>, V)>, key: Seq<char>, i: int)
    requires
        0 <= i <= entries.len(),
        forall|j: int| 0 <= j < i ==> #[trigger] entries[j].0 != key,
    ensures
        assoc_find(entries, key) == assoc_find(entries.skip(i), key),
    decreases i,
{
    if i == 0 {
        assert(entries.skip(0) =~= entries);
    } else {
        lemma_assoc_find_skip(entries, key, i - 1);
        assert(entries.skip(i - 1)[0] == entries[i - 1]);
        assert(entries.skip(i - 1).drop_first() =~= entries.skip(i));
    }
}

/// Looks `key` up in an association list with `String` keys, returning a
/// reference to the value of the first matching entry.
pub fn assoc_get<'a, V: View>(entries: &'a Vec<(String, V)>, key: &String) -> (res: Option<
    &'a V,
>)
    ensures
        match res {
            Some(v) => assoc_find(assoc_view(entries@), key@) == Some(v@),
            None => assoc_find(assoc_view(entries@), key@) is None,
        },
{
    let mut i: usize = 0;
    while i < entries.len()
        invariant
            i <= entries.len(),
            forall|j: int| 0 <= j < i ==> #[trigger] assoc_view(entries@)[j].0 != key@,
        decreases entries.len() - i,
    {
        if entries[i].0 == *key {
            proof {
                lemma_assoc_find_skip(assoc_view(entries@), key@, i as int);
                assert(assoc_view(entries@).skip(i as int)[0] == assoc_view(entries@)[i as int]);
            }
            return Some(&entries[i].1);
        }
        proof {
            assert(assoc_view(entries@)[i as int].0 == entries@[i as int].0@);
        }
        i += 1;
    }
    proof {
        lemma_assoc_find_skip(assoc_view(entries@), key@, entries@.len() as int);
        assert(assoc_view(entries@).skip(entries@.len() as int) =~= Seq::empty());
    }
    None
}

} // verus!
