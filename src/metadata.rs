//! Key-value metadata of a transaction: a map from names to values, kept as
//! entries in ascending order of their keys.
use vstd::prelude::*;
use core::cmp::Ordering;
use crate::isi::{Value, ValueModel};
use crate::text::{compare_text, lemma_text_transitive, lemma_text_trichotomy, text_lt};

verus! {

/// Metadata: each key at most once, entries in ascending order of keys.
#[derive(Debug, PartialEq, Eq)]
pub struct UnlimitedMetadata {
    entries: Vec<(String, Value)>,
}

/// Key of entry `i`.
pub open spec fn key_at(e: Seq<(String, Value)>, i: int) -> Seq<char> {
    e[i].0@
}

/// `i` is an entry of `e` whose key is `k`.
pub open spec fn holds_key_at(e: Seq<(String, Value)>, k: Seq<char>, i: int) -> bool {
    0 <= i < e.len() && key_at(e, i) == k
}

/// Keys ascend strictly along `e`.
pub open spec fn keys_ascend(e: Seq<(String, Value)>) -> bool {
    forall|i: int, j: int| 0 <= i < j < e.len() ==> text_lt(key_at(e, i), key_at(e, j))
}

/// The map that entries `e` stand for.
pub open spec fn map_of(e: Seq<(String, Value)>) -> Map<Seq<char>, ValueModel> {
    Map::new(
        |k: Seq<char>| exists|i: int| holds_key_at(e, k, i),
        |k: Seq<char>| e[choose|i: int| holds_key_at(e, k, i)].1@,
    )
}

/// With ascending keys, each entry is found under its own key.
proof fn lemma_map_of(e: Seq<(String, Value)>)
    requires
        keys_ascend(e),
    ensures
        forall|i: int|
            0 <= i < e.len() ==> #[trigger] map_of(e).contains_key(key_at(e, i)) && map_of(e)[key_at(
                e,
                i,
            )] == e[i].1@,
{
    assert forall|i: int| 0 <= i < e.len() implies #[trigger] map_of(e).contains_key(
        key_at(e, i),
    ) && map_of(e)[key_at(e, i)] == e[i].1@ by {
        assert(holds_key_at(e, key_at(e, i), i));
        let j = choose|j: int| holds_key_at(e, key_at(e, i), j);
        if j < i {
            lemma_text_trichotomy(key_at(e, j), key_at(e, i));
        } else if i < j {
            lemma_text_trichotomy(key_at(e, i), key_at(e, j));
        }
    }
}

impl UnlimitedMetadata {
    #[verifier::type_invariant]
    spec fn ascending(self) -> bool {
        keys_ascend(self.entries@)
    }
}

impl View for UnlimitedMetadata {
    type V = Map<Seq<char>, ValueModel>;

    closed spec fn view(&self) -> Map<Seq<char>, ValueModel> {
        map_of(self.entries@)
    }
}

impl UnlimitedMetadata {
    /// Metadata without entries.
    pub fn new() -> (r: UnlimitedMetadata)
        ensures
            r@ == Map::<Seq<char>, ValueModel>::empty(),
    {
        let r = UnlimitedMetadata { entries: Vec::new() };
        assert(r@ =~= Map::<Seq<char>, ValueModel>::empty());
        r
    }

    /// The entries, in ascending order of keys.
    pub fn entries(&self) -> (r: &Vec<(String, Value)>)
        ensures
            keys_ascend(r@),
            map_of(r@) == self@,
    {
        proof {
            use_type_invariant(self);
        }
        &self.entries
    }

    /// The value under `key`.
    pub fn get(&self, key: &str) -> (r: Option<&Value>)
        ensures
            match r {
                Some(v) => self@.contains_key(key@) && self@[key@] == v@,
                None => !self@.contains_key(key@),
            },
    {
        proof {
            use_type_invariant(self);
            lemma_map_of(self.entries@);
        }
        let mut i: usize = 0;
        while i < self.entries.len()
            invariant
                i <= self.entries@.len(),
                forall|j: int| 0 <= j < i ==> key_at(self.entries@, j) != key@,
                forall|j: int|
                    0 <= j < self.entries@.len() ==> #[trigger] map_of(self.entries@).contains_key(
                        key_at(self.entries@, j),
                    ) && map_of(self.entries@)[key_at(self.entries@, j)] == self.entries@[j].1@,
            decreases self.entries@.len() - i,
        {
            if matches!(compare_text(self.entries[i].0.as_str(), key), Ordering::Equal) {
                assert(key_at(self.entries@, i as int) == key@);
                proof {
                    use_type_invariant(self);
                    lemma_map_of(self.entries@);
                }
                assert(map_of(self.entries@).contains_key(key_at(self.entries@, i as int)));
                return Some(&self.entries[i].1);
            }
            i = i + 1;
        }
        None
    }

    /// Sets `key` to `value`, in place of any value it had.
    pub fn insert(&mut self, key: String, value: Value)
        ensures
            final(self)@ == old(self)@.insert(key@, value@),
    {
        proof {
            use_type_invariant(&*self);
        }
        let mut entries: Vec<(String, Value)> = Vec::new();
        core::mem::swap(&mut self.entries, &mut entries);
        let ghost k = key@;
        let ghost before = entries@;
        let n = entries.len();
        let mut p: usize = 0;
        let mut ahead = true;
        while ahead && p < n
            invariant
                k == key@,
                before == entries@,
                keys_ascend(before),
                n == before.len(),
                p <= n,
                forall|i: int| 0 <= i < p ==> text_lt(#[trigger] key_at(before, i), k),
                !ahead ==> p < n && !text_lt(key_at(before, p as int), k),
            decreases n - p + if ahead { 1int } else { 0int },
        {
            if matches!(compare_text(entries[p].0.as_str(), key.as_str()), Ordering::Less) {
                p = p + 1;
            } else {
                ahead = false;
            }
        }
        proof {
            lemma_map_of(before);
            if p < n {
                lemma_text_trichotomy(key_at(before, p as int), k);
            }
        }
        let replace = p < n && matches!(
            compare_text(entries[p].0.as_str(), key.as_str()),
            Ordering::Equal
        );
        let ghost v = value@;
        if replace {
            let ghost after = before.update(p as int, (key, value));
            proof {
                assert(keys_ascend(after)) by {
                    assert forall|i: int, j: int| 0 <= i < j < after.len() implies text_lt(
                        key_at(after, i),
                        key_at(after, j),
                    ) by {
                        assert(key_at(after, i) == key_at(before, i));
                        assert(key_at(after, j) == key_at(before, j));
                    }
                }
            }
            entries.set(p, (key, value));
            proof {
                assert(entries@ == after);
                lemma_map_of(after);
                assert forall|q: Seq<char>| #[trigger] map_of(after).contains_key(q) <==> map_of(
                    before,
                ).insert(k, v).contains_key(q) by {
                    if map_of(after).contains_key(q) {
                        let j = choose|j: int| holds_key_at(after, q, j);
                        if j != p {
                            assert(holds_key_at(before, q, j));
                        }
                    }
                    if map_of(before).contains_key(q) {
                        let j = choose|j: int| holds_key_at(before, q, j);
                        assert(key_at(after, j) == key_at(before, j));
                        assert(holds_key_at(after, q, j));
                    }
                    if q == k {
                        assert(holds_key_at(after, q, p as int));
                    }
                }
                assert forall|q: Seq<char>| #[trigger] map_of(after).contains_key(q) implies map_of(
                    after,
                )[q] == map_of(before).insert(k, v)[q] by {
                    let j = choose|j: int| holds_key_at(after, q, j);
                    assert(key_at(after, j) == q);
                    assert(map_of(after).contains_key(key_at(after, j)));
                    if j != p {
                        assert(after[j] == before[j]);
                        assert(map_of(before).contains_key(key_at(before, j)));
                    }
                }
                assert(map_of(after) =~= map_of(before).insert(k, v));
            }
        } else {
            proof {
                assert forall|j: int| p <= j < n implies text_lt(k, #[trigger] key_at(before, j)) by {
                    lemma_text_trichotomy(key_at(before, p as int), k);
                    if j > p {
                        lemma_text_transitive(k, key_at(before, p as int), key_at(before, j));
                    }
                }
            }
            let ghost after = before.insert(p as int, (key, value));
            proof {
                assert(keys_ascend(after)) by {
                    assert forall|i: int, j: int| 0 <= i < j < after.len() implies text_lt(
                        key_at(after, i),
                        key_at(after, j),
                    ) by {
                        assert(key_at(after, p as int) == k);
                        if i < p {
                            assert(key_at(after, i) == key_at(before, i));
                            assert(text_lt(key_at(before, i), k));
                        }
                        if j < p {
                            assert(key_at(after, j) == key_at(before, j));
                        }
                        if j > p {
                            assert(key_at(after, j) == key_at(before, j - 1));
                            assert(text_lt(k, key_at(before, j - 1)));
                        }
                        if i > p {
                            assert(key_at(after, i) == key_at(before, i - 1));
                        }
                        if i < p && j > p {
                            lemma_text_transitive(key_at(before, i), k, key_at(before, j - 1));
                        }
                    }
                }
            }
            entries.insert(p, (key, value));
            proof {
                assert(entries@ == after);
                lemma_map_of(after);
                assert forall|q: Seq<char>| #[trigger] map_of(after).contains_key(q) <==> map_of(
                    before,
                ).insert(k, v).contains_key(q) by {
                    if map_of(after).contains_key(q) {
                        let j = choose|j: int| holds_key_at(after, q, j);
                        if j < p {
                            assert(holds_key_at(before, q, j));
                        } else if j > p {
                            assert(holds_key_at(before, q, j - 1));
                        }
                    }
                    if map_of(before).contains_key(q) {
                        let j = choose|j: int| holds_key_at(before, q, j);
                        if j < p {
                            assert(holds_key_at(after, q, j));
                        } else {
                            assert(holds_key_at(after, q, j + 1));
                        }
                    }
                    if q == k {
                        assert(holds_key_at(after, q, p as int));
                    }
                }
                assert forall|q: Seq<char>| #[trigger] map_of(after).contains_key(q) implies map_of(
                    after,
                )[q] == map_of(before).insert(k, v)[q] by {
                    let j = choose|j: int| holds_key_at(after, q, j);
                    assert(key_at(after, j) == q);
                    assert(map_of(after).contains_key(key_at(after, j)));
                    if j < p {
                        assert(after[j] == before[j]);
                        assert(map_of(before).contains_key(key_at(before, j)));
                    } else if j > p {
                        assert(after[j] == before[j - 1]);
                        assert(map_of(before).contains_key(key_at(before, j - 1)));
                    }
                }
                assert(map_of(after) =~= map_of(before).insert(k, v));
            }
        }
        self.entries = entries;
    }
}

impl Clone for UnlimitedMetadata {
    fn clone(&self) -> Self {
        self.duplicate()
    }
}

impl UnlimitedMetadata {
    /// A copy with the same value.
    pub fn duplicate(&self) -> (r: UnlimitedMetadata)
        ensures
            r@ == self@,
    {
        proof {
            use_type_invariant(self);
        }
        let mut entries: Vec<(String, Value)> = Vec::new();
        let mut i: usize = 0;
        while i < self.entries.len()
            invariant
                i <= self.entries@.len(),
                entries@.len() == i,
                forall|j: int| 0 <= j < i ==> key_at(entries@, j) == key_at(self.entries@, j)
                    && (#[trigger] entries@[j]).1@ == self.entries@[j].1@,
            decreases self.entries@.len() - i,
        {
            let e = &self.entries[i];
            entries.push((e.0.clone(), e.1.duplicate()));
            i = i + 1;
        }
        proof {
            let a = entries@;
            let b = self.entries@;
            assert(keys_ascend(a)) by {
                assert forall|x: int, y: int| 0 <= x < y < a.len() implies text_lt(
                    key_at(a, x),
                    key_at(a, y),
                ) by {
                    assert(key_at(a, x) == key_at(b, x));
                    assert(key_at(a, y) == key_at(b, y));
                }
            }
            lemma_map_of(a);
            lemma_map_of(b);
            assert forall|q: Seq<char>| map_of(a).contains_key(q) <==> map_of(b).contains_key(q) by {
                if map_of(a).contains_key(q) {
                    let j = choose|j: int| holds_key_at(a, q, j);
                    assert(holds_key_at(b, q, j));
                }
                if map_of(b).contains_key(q) {
                    let j = choose|j: int| holds_key_at(b, q, j);
                    assert(key_at(a, j) == key_at(b, j));
                    assert(holds_key_at(a, q, j));
                }
            }
            assert forall|q: Seq<char>| #[trigger] map_of(a).contains_key(q) implies map_of(a)[q]
                == map_of(b)[q] by {
                let j = choose|j: int| holds_key_at(a, q, j);
                assert(map_of(a).contains_key(key_at(a, j)));
                assert(key_at(a, j) == key_at(b, j));
                assert(map_of(b).contains_key(key_at(b, j)));
                assert(a[j].1@ == b[j].1@);
            }
            assert(map_of(a) =~= map_of(b));
        }
        UnlimitedMetadata { entries }
    }

    /// Whether both hold the same keys with the same values.
    pub fn same_as(&self, other: &UnlimitedMetadata) -> (r: bool)
        ensures
            r == (self@ == other@),
    {
        proof {
            use_type_invariant(self);
            use_type_invariant(other);
            lemma_map_of(self.entries@);
            lemma_map_of(other.entries@);
        }
        let mut i: usize = 0;
        while i < self.entries.len()
            invariant
                i <= self.entries@.len(),
                forall|j: int|
                    0 <= j < self.entries@.len() ==> #[trigger] map_of(self.entries@).contains_key(
                        key_at(self.entries@, j),
                    ) && map_of(self.entries@)[key_at(self.entries@, j)] == self.entries@[j].1@,
                forall|j: int|
                    0 <= j < i ==> other@.contains_key(#[trigger] key_at(self.entries@, j))
                        && other@[key_at(self.entries@, j)] == self.entries@[j].1@,
            decreases self.entries@.len() - i,
        {
            let e = &self.entries[i];
            assert(map_of(self.entries@).contains_key(key_at(self.entries@, i as int)));
            match other.get(e.0.as_str()) {
                Some(v) => {
                    if !v.same_as(&e.1) {
                        return false;
                    }
                },
                None => {
                    return false;
                },
            }
            i = i + 1;
        }
        let mut i: usize = 0;
        while i < other.entries.len()
            invariant
                i <= other.entries@.len(),
                forall|j: int| 0 <= j < i ==> self@.contains_key(#[trigger] key_at(other.entries@, j)),
            decreases other.entries@.len() - i,
        {
            if self.get(other.entries[i].0.as_str()).is_none() {
                proof {
                    use_type_invariant(other);
                    lemma_map_of(other.entries@);
                    assert(other@.contains_key(key_at(other.entries@, i as int)));
                }
                return false;
            }
            i = i + 1;
        }
        proof {
            let a = self.entries@;
            let b = other.entries@;
            assert forall|q: Seq<char>| self@.contains_key(q) <==> other@.contains_key(q) by {
                if self@.contains_key(q) {
                    let j = choose|j: int| holds_key_at(a, q, j);
                    assert(other@.contains_key(key_at(a, j)));
                }
                if other@.contains_key(q) {
                    let j = choose|j: int| holds_key_at(b, q, j);
                    assert(self@.contains_key(key_at(b, j)));
                }
            }
            assert forall|q: Seq<char>| #[trigger] self@.contains_key(q) implies self@[q]
                == other@[q] by {
                let j = choose|j: int| holds_key_at(a, q, j);
                assert(map_of(a).contains_key(key_at(a, j)));
                assert(other@.contains_key(key_at(a, j)));
            }
            assert(self@ =~= other@);
        }
        true
    }
}

} // verus!
