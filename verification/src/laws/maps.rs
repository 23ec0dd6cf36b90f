//! Laws of maps by name.
use crate::text_map::TextMap;
use vstd::prelude::*;

verus! {

/// A map gives what was last put under a name, and nothing where nothing was.
pub proof fn law_map_gives_what_it_holds<V>(map: TextMap<V>, key: &str, res: Option<&V>, has: bool)
    requires
        call_ensures(TextMap::<V>::get, (&map, key), res),
        call_ensures(TextMap::<V>::contains_key, (&map, key), has),
    ensures
        has == map@.contains_key(key@),
        has <==> res is Some,
        res matches Some(value) ==> *value == map@[key@],
{
}

/// What is put under a name replaces what was there, and all else stays.
pub proof fn law_map_keeps_the_last<V>(
    map: &mut TextMap<V>,
    key: String,
    value: V,
    other: Seq<char>,
)
    requires
        call_ensures(TextMap::<V>::insert, (map, key, value), ()),
    ensures
        final(map)@.contains_pair(key@, value),
        other != key@ ==> final(map)@.contains_key(other) == old(map)@.contains_key(other),
        other != key@ && old(map)@.contains_key(other) ==> final(map)@[other] == old(map)@[other],
{
}

/// What is taken from a name is what was there, nothing is there then, and all else stays.
pub proof fn law_map_gives_away<V>(
    map: &mut TextMap<V>,
    key: &str,
    res: Option<V>,
    other: Seq<char>,
)
    requires
        call_ensures(TextMap::<V>::remove, (map, key), res),
    ensures
        !final(map)@.contains_key(key@),
        res is Some <==> old(map)@.contains_key(key@),
        res matches Some(value) ==> value == old(map)@[key@],
        other != key@ ==> final(map)@.contains_key(other) == old(map)@.contains_key(other),
        other != key@ && old(map)@.contains_key(other) ==> final(map)@[other] == old(map)@[other],
{
}

/// Where two maps are joined, the second has the last word.
pub proof fn law_joined_maps<V>(map: &mut TextMap<V>, more: TextMap<V>, key: Seq<char>)
    requires
        call_ensures(TextMap::<V>::extend, (map, more), ()),
    ensures
        final(map)@.contains_key(key) <==> old(map)@.contains_key(key) || more@.contains_key(key),
        more@.contains_key(key) ==> final(map)@[key] == more@[key],
        !more@.contains_key(key) && old(map)@.contains_key(key) ==> final(map)@[key]
            == old(map)@[key],
{
}

/// A map of entries holds their names and no others, and under each name the last value.
pub proof fn law_map_of_entries<V>(entries: Vec<(String, V)>, map: TextMap<V>, i: int)
    requires
        call_ensures(TextMap::<V>::from_entries, (entries,), map),
        0 <= i < entries@.len(),
        forall|j: int| i < j < entries@.len() ==> (#[trigger] entries@[j]).0@ != entries@[i].0@,
    ensures
        map@.contains_pair(entries@[i].0@, entries@[i].1),
{
    let all = entries@.map_values(|e: (String, V)| (e.0@, e.1));
    assert forall|j: int| i < j < all.len() implies (#[trigger] all[j]).0 != all[i].0 by {
        assert(entries@[j].0@ != entries@[i].0@);
    }
    lemma_last_entry_wins(all, i);
}

proof fn lemma_last_entry_wins<V>(pairs: Seq<(Seq<char>, V)>, i: int)
    requires
        0 <= i < pairs.len(),
        forall|j: int| i < j < pairs.len() ==> (#[trigger] pairs[j]).0 != pairs[i].0,
    ensures
        crate::text_map::pairs_map(pairs).contains_pair(pairs[i].0, pairs[i].1),
    decreases pairs.len(),
{
    if i < pairs.len() - 1 {
        let init = pairs.drop_last();
        assert forall|j: int| i < j < init.len() implies (#[trigger] init[j]).0 != init[i].0 by {
            assert(pairs[j].0 != pairs[i].0);
        }
        lemma_last_entry_wins(init, i);
        assert(pairs[pairs.len() - 1].0 != pairs[i].0);
    }
}

} // verus!
