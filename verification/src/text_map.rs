//! A map keyed by text, kept as a list of entries whose keys differ, so that the entries can be
//! walked as well as looked up.
use crate::text::equals;
use vstd::prelude::*;

verus! {

/// The map that a list of entries stands for, later entries over earlier ones.
pub open spec fn pairs_map<V>(pairs: Seq<(Seq<char>, V)>) -> Map<Seq<char>, V>
    decreases pairs.len(),
{
    if pairs.len() == 0 {
        Map::empty()
    } else {
        pairs_map(pairs.drop_last()).insert(pairs.last().0, pairs.last().1)
    }
}

/// No key occurs twice.
pub open spec fn distinct_keys<V>(pairs: Seq<(Seq<char>, V)>) -> bool {
    forall|i: int, j: int|
        0 <= i < j < pairs.len() ==> (#[trigger] pairs[i]).0 != (#[trigger] pairs[j]).0
}

/// The keys of the map are the keys of the entries.
pub proof fn lemma_pairs_map_keys<V>(pairs: Seq<(Seq<char>, V)>)
    ensures
        forall|k: Seq<char>| #[trigger]
            pairs_map(pairs).contains_key(k) <==> exists|i: int|
                0 <= i < pairs.len() && (#[trigger] pairs[i]).0 == k,
    decreases pairs.len(),
{
    if pairs.len() > 0 {
        let init = pairs.drop_last();
        lemma_pairs_map_keys(init);
        assert forall|k: Seq<char>| #[trigger]
            pairs_map(pairs).contains_key(k) <==> exists|i: int|
                0 <= i < pairs.len() && (#[trigger] pairs[i]).0 == k by {
            if pairs_map(pairs).contains_key(k) {
                if k == pairs.last().0 {
                    assert(pairs[pairs.len() - 1].0 == k);
                } else {
                    assert(pairs_map(init).contains_key(k));
                    let i = choose|i: int| 0 <= i < init.len() && (#[trigger] init[i]).0 == k;
                    assert(pairs[i].0 == k);
                }
            }
            if exists|i: int| 0 <= i < pairs.len() && (#[trigger] pairs[i]).0 == k {
                let i = choose|i: int| 0 <= i < pairs.len() && (#[trigger] pairs[i]).0 == k;
                if i < init.len() {
                    assert(init[i].0 == k);
                    assert(pairs_map(init).contains_key(k));
                }
            }
        }
    }
}

/// Where keys differ, the map holds each entry's value under its key.
pub proof fn lemma_pairs_map_values<V>(pairs: Seq<(Seq<char>, V)>)
    requires
        distinct_keys(pairs),
    ensures
        forall|i: int|
            0 <= i < pairs.len() ==> pairs_map(pairs).contains_key((#[trigger] pairs[i]).0)
                && pairs_map(pairs)[pairs[i].0] == pairs[i].1,
    decreases pairs.len(),
{
    if pairs.len() > 0 {
        let init = pairs.drop_last();
        assert forall|i: int, j: int| 0 <= i < j < init.len() implies (#[trigger] init[i]).0 != (
        #[trigger] init[j]).0 by {
            assert(pairs[i].0 != pairs[j].0);
        }
        lemma_pairs_map_values(init);
        assert forall|i: int| 0 <= i < pairs.len() implies pairs_map(pairs).contains_key(
            (#[trigger] pairs[i]).0,
        ) && pairs_map(pairs)[pairs[i].0] == pairs[i].1 by {
            if i < init.len() {
                assert(init[i] == pairs[i]);
                assert(pairs[i].0 != pairs[pairs.len() - 1].0);
            }
        }
    }
}

/// A map from text to values.
pub struct TextMap<V> {
    entries: Vec<(String, V)>,
}

impl<V> View for TextMap<V> {
    type V = Map<Seq<char>, V>;

    closed spec fn view(&self) -> Map<Seq<char>, V> {
        pairs_map(self.pairs())
    }
}

impl<V> TextMap<V> {
    /// The entries in the order in which they are listed.
    pub closed spec fn pairs(self) -> Seq<(Seq<char>, V)> {
        self.entries@.map_values(|e: (String, V)| (e.0@, e.1))
    }

    #[verifier::type_invariant]
    spec fn keys_differ(self) -> bool {
        distinct_keys(self.pairs())
    }

    /// An empty map.
    pub fn new() -> (res: TextMap<V>)
        ensures
            res@ == Map::<Seq<char>, V>::empty(),
            res.pairs().len() == 0,
    {
        TextMap { entries: Vec::new() }
    }

    /// The number of entries.
    pub fn len(&self) -> (res: usize)
        ensures
            res == self.pairs().len(),
            distinct_keys(self.pairs()),
            pairs_map(self.pairs()) == self@,
    {
        proof {
            use_type_invariant(&*self);
        }
        self.entries.len()
    }

    /// The `i`th entry.
    pub fn entry(&self, i: usize) -> (res: (&String, &V))
        requires
            i < self.pairs().len(),
        ensures
            (res.0@, *res.1) == self.pairs()[i as int],
            self@.contains_key(res.0@),
            self@[res.0@] == *res.1,
    {
        proof {
            use_type_invariant(&*self);
            lemma_pairs_map_values(self.pairs());
        }
        let e = &self.entries[i];
        assert(self.pairs()[i as int] == (e.0@, e.1));
        (&e.0, &e.1)
    }

    /// The position of `key`, or the number of entries where it is absent.
    fn position(&self, key: &str) -> (res: usize)
        ensures
            res <= self.entries.len(),
            res < self.entries.len() ==> self.entries@[res as int].0@ == key@,
            res == self.entries.len() ==> forall|j: int|
                0 <= j < self.entries.len() ==> (#[trigger] self.entries@[j]).0@ != key@,
    {
        let mut i: usize = 0;
        while i < self.entries.len()
            invariant
                i <= self.entries.len(),
                forall|j: int| 0 <= j < i ==> (#[trigger] self.entries@[j]).0@ != key@,
            decreases self.entries.len() - i,
        {
            if equals(self.entries[i].0.as_str(), key) {
                return i;
            }
            i += 1;
        }
        i
    }

    proof fn lemma_position(self, key: Seq<char>, i: int)
        requires
            self.keys_differ(),
            0 <= i <= self.entries.len(),
            i < self.entries.len() ==> self.entries@[i].0@ == key,
            i == self.entries.len() ==> forall|j: int|
                0 <= j < self.entries.len() ==> (#[trigger] self.entries@[j]).0@ != key,
        ensures
            self@.contains_key(key) <==> i < self.entries.len(),
            i < self.entries.len() ==> self@[key] == self.entries@[i].1,
    {
        lemma_pairs_map_keys(self.pairs());
        lemma_pairs_map_values(self.pairs());
        if i < self.entries.len() {
            assert(self.pairs()[i].0 == key);
        } else if self@.contains_key(key) {
            let j = choose|j: int|
                0 <= j < self.pairs().len() && (#[trigger] self.pairs()[j]).0 == key;
            assert(self.entries@[j].0@ == key);
        }
    }

    /// The value under `key`.
    pub fn get(&self, key: &str) -> (res: Option<&V>)
        ensures
            match res {
                Some(v) => self@.contains_key(key@) && self@[key@] == *v,
                None => !self@.contains_key(key@),
            },
    {
        let i: usize = self.position(key);
        proof {
            use_type_invariant(&*self);
            self.lemma_position(key@, i as int);
        }
        if i < self.entries.len() {
            Some(&self.entries[i].1)
        } else {
            None
        }
    }

    /// Whether there is a value under `key`.
    pub fn contains_key(&self, key: &str) -> (res: bool)
        ensures
            res == self@.contains_key(key@),
    {
        self.get(key).is_some()
    }

    /// Puts `value` under `key`, in place of what was there.
    pub fn insert(&mut self, key: String, value: V)
        ensures
            final(self)@ == old(self)@.insert(key@, value),
    {
        let i: usize = self.position(key.as_str());
        proof {
            use_type_invariant(&*self);
            self.lemma_position(key@, i as int);
        }
        let ghost before = *self;
        let mut entries: Vec<(String, V)> = Vec::new();
        std::mem::swap(&mut entries, &mut self.entries);
        if i < entries.len() {
            entries.set(i, (key, value));
        } else {
            entries.push((key, value));
        }
        let ghost after = TextMap { entries };
        proof {
            assert(after.pairs() =~= if i < before.entries.len() {
                before.pairs().update(i as int, (key@, value))
            } else {
                before.pairs().push((key@, value))
            });
            lemma_insert(before, after, i as int, key@, value);
        }
        self.entries = entries;
    }

    /// Takes away what is under `key`.
    pub fn remove(&mut self, key: &str) -> (res: Option<V>)
        ensures
            final(self)@ == old(self)@.remove(key@),
            match res {
                Some(v) => old(self)@.contains_key(key@) && old(self)@[key@] == v,
                None => !old(self)@.contains_key(key@),
            },
    {
        let i: usize = self.position(key);
        proof {
            use_type_invariant(&*self);
            self.lemma_position(key@, i as int);
        }
        if i == self.entries.len() {
            assert(self@.remove(key@) =~= self@);
            return None;
        }
        let ghost before = *self;
        let mut entries: Vec<(String, V)> = Vec::new();
        std::mem::swap(&mut entries, &mut self.entries);
        let removed = entries.remove(i);
        let ghost after = TextMap { entries };
        proof {
            assert(after.pairs() =~= before.pairs().remove(i as int));
            lemma_remove(before, after, i as int, key@);
        }
        self.entries = entries;
        Some(removed.1)
    }

    /// The map of the given entries, later ones over earlier ones.
    pub fn from_entries(entries: Vec<(String, V)>) -> (res: TextMap<V>)
        ensures
            res@ == pairs_map(entries@.map_values(|e: (String, V)| (e.0@, e.1))),
    {
        let mut out: TextMap<V> = TextMap::new();
        let ghost all = entries@.map_values(|e: (String, V)| (e.0@, e.1));
        assert(all.take(0) =~= Seq::<(Seq<char>, V)>::empty());
        let ghost given = entries@;
        for e in it: entries
            invariant
                it.seq() == given,
                all == given.map_values(|e: (String, V)| (e.0@, e.1)),
                out@ == pairs_map(all.take(it.index() as int)),
        {
            let ghost n = it.index() as int;
            assert(all.take(n + 1).drop_last() =~= all.take(n));
            assert(all.take(n + 1).last() == (e.0@, e.1));
            out.insert(e.0, e.1);
        }
        assert(all.take(all.len() as int) =~= all);
        out
    }
}

impl<V> TextMap<V> {
    /// Puts every entry of `other` into this map, in place of what was under its key.
    pub fn extend(&mut self, other: TextMap<V>)
        ensures
            final(self)@ == old(self)@.union_prefer_right(other@),
    {
        let ghost all = other.pairs();
        let ghost before = self@;
        let ghost given = other.entries@;
        assert(pairs_map(all.take(0)) =~= Map::<Seq<char>, V>::empty());
        assert(before.union_prefer_right(Map::empty()) =~= before);
        for e in it: other.entries
            invariant
                it.seq() == given,
                all == given.map_values(|e: (String, V)| (e.0@, e.1)),
                self@ == before.union_prefer_right(pairs_map(all.take(it.index() as int))),
        {
            let ghost n = it.index() as int;
            assert(all.take(n + 1).drop_last() =~= all.take(n));
            assert(all.take(n + 1).last() == (e.0@, e.1));
            let ghost so_far = pairs_map(all.take(n));
            self.insert(e.0, e.1);
            assert(before.union_prefer_right(so_far).insert(e.0@, e.1)
                =~= before.union_prefer_right(so_far.insert(e.0@, e.1)));
        }
        assert(all.take(all.len() as int) =~= all);
    }
}

impl TextMap<String> {
    /// The text under each key.
    pub open spec fn texts(self) -> Map<Seq<char>, Seq<char>> {
        self@.map_values(|v: String| v@)
    }
}

impl Clone for TextMap<String> {
    fn clone(&self) -> (res: TextMap<String>)
        ensures
            res@ == self@,
    {
        let mut out: TextMap<String> = TextMap::new();
        let n: usize = self.len();
        let ghost all = self.pairs();
        let mut i: usize = 0;
        while i < n
            invariant
                i <= n,
                n == all.len(),
                all == self.pairs(),
                out@ == pairs_map(all.take(i as int)),
            decreases n - i,
        {
            let (key, value) = self.entry(i);
            assert(all.take(i + 1).drop_last() =~= all.take(i as int));
            out.insert(key.clone(), value.clone());
            i += 1;
        }
        assert(all.take(n as int) =~= all);
        out
    }
}

proof fn lemma_insert<V>(
    before: TextMap<V>,
    after: TextMap<V>,
    i: int,
    key: Seq<char>,
    value: V,
)
    requires
        before.keys_differ(),
        0 <= i <= before.entries.len(),
        before@.contains_key(key) <==> i < before.entries.len(),
        i < before.entries.len() ==> before.entries@[i].0@ == key,
        after.pairs() == if i < before.entries.len() {
            before.pairs().update(i, (key, value))
        } else {
            before.pairs().push((key, value))
        },
    ensures
        after.keys_differ(),
        after@ == before@.insert(key, value),
{
    let p = before.pairs();
    let q = after.pairs();
    lemma_pairs_map_keys(p);
    lemma_pairs_map_values(p);
    if i == p.len() {
        assert(q.drop_last() =~= p);
        assert forall|a: int, b: int| 0 <= a < b < q.len() implies (#[trigger] q[a]).0 != (
        #[trigger] q[b]).0 by {
            assert(q[a] == p[a]);
            if b < p.len() {
                assert(q[b] == p[b]);
            } else {
                assert(p[a].0 != key);
            }
        }
    } else {
        assert(p[i].0 == key);
        assert forall|a: int, b: int| 0 <= a < b < q.len() implies (#[trigger] q[a]).0 != (
        #[trigger] q[b]).0 by {
            assert(p[a].0 != p[b].0);
        }
        lemma_pairs_map_keys(q);
        lemma_pairs_map_values(q);
        assert forall|k: Seq<char>|
            before@.insert(key, value).contains_key(k) == after@.contains_key(k) by {
            if before@.contains_key(k) {
                let j = choose|j: int| 0 <= j < p.len() && (#[trigger] p[j]).0 == k;
                assert(q[j].0 == k);
            }
            if after@.contains_key(k) {
                let j = choose|j: int| 0 <= j < q.len() && (#[trigger] q[j]).0 == k;
                assert(p[j].0 == k);
            }
            assert(q[i].0 == key);
        }
        assert forall|k: Seq<char>| after@.contains_key(k) implies before@.insert(
            key,
            value,
        )[k] == after@[k] by {
            let j = choose|j: int| 0 <= j < q.len() && (#[trigger] q[j]).0 == k;
            assert(q[j].0 == k);
            if j != i {
                assert(p[j] == q[j]);
                assert(p[j].0 != p[i].0);
            }
        }
        assert(after@ =~= before@.insert(key, value));
    }
}

proof fn lemma_remove<V>(before: TextMap<V>, after: TextMap<V>, i: int, key: Seq<char>)
    requires
        before.keys_differ(),
        0 <= i < before.entries.len(),
        before.entries@[i].0@ == key,
        after.pairs() == before.pairs().remove(i),
    ensures
        after.keys_differ(),
        after@ == before@.remove(key),
{
    let p = before.pairs();
    let q = after.pairs();
    assert(p[i].0 == key);
    assert forall|a: int, b: int| 0 <= a < b < q.len() implies (#[trigger] q[a]).0 != (
    #[trigger] q[b]).0 by {
        let x = if a < i {
            a
        } else {
            a + 1
        };
        let y = if b < i {
            b
        } else {
            b + 1
        };
        assert(q[a] == p[x] && q[b] == p[y]);
    }
    lemma_pairs_map_keys(p);
    lemma_pairs_map_values(p);
    lemma_pairs_map_keys(q);
    lemma_pairs_map_values(q);
    assert forall|k: Seq<char>| before@.remove(key).contains_key(k) == after@.contains_key(k) by {
        if before@.remove(key).contains_key(k) {
            let j = choose|j: int| 0 <= j < p.len() && (#[trigger] p[j]).0 == k;
            let x = if j < i {
                j
            } else {
                j - 1
            };
            assert(q[x] == p[j]);
        }
        if after@.contains_key(k) {
            let j = choose|j: int| 0 <= j < q.len() && (#[trigger] q[j]).0 == k;
            let x = if j < i {
                j
            } else {
                j + 1
            };
            assert(q[j] == p[x]);
            assert(p[x].0 != p[i].0);
        }
    }
    assert forall|k: Seq<char>| after@.contains_key(k) implies before@.remove(key)[k]
        == after@[k] by {
        let j = choose|j: int| 0 <= j < q.len() && (#[trigger] q[j]).0 == k;
        let x = if j < i {
            j
        } else {
            j + 1
        };
        assert(q[j] == p[x]);
    }
    assert(after@ =~= before@.remove(key));
}

} // verus!
