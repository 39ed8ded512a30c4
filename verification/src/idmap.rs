//! A map from string identifiers to values, backed by parallel vectors and
//! viewed as a `Map<Seq<char>, _>`.  The registry and the comment structure
//! key their entries with it.

use vstd::prelude::*;

use crate::text::str_eq;

verus! {

/// The map described by parallel key and value sequences; a later binding of
/// a key shadows an earlier one.
pub open spec fn assoc_map<T>(keys: Seq<Seq<char>>, vals: Seq<T>) -> Map<Seq<char>, T>
    decreases keys.len(),
{
    if keys.len() == 0 || vals.len() == 0 {
        Map::empty()
    } else {
        assoc_map(keys.drop_last(), vals.drop_last()).insert(keys.last(), vals.last())
    }
}

proof fn lemma_assoc_contains<T>(keys: Seq<Seq<char>>, vals: Seq<T>, k: Seq<char>)
    requires
        keys.len() == vals.len(),
    ensures
        assoc_map(keys, vals).contains_key(k) <==> keys.contains(k),
    decreases keys.len(),
{
    if keys.len() > 0 {
        lemma_assoc_contains(keys.drop_last(), vals.drop_last(), k);
        if keys.contains(k) {
            let i = choose|i: int| 0 <= i < keys.len() && keys[i] == k;
            if i < keys.len() - 1 {
                assert(keys.drop_last()[i] == k);
            }
        }
        if keys.drop_last().contains(k) {
            let i = choose|i: int| 0 <= i < keys.drop_last().len() && keys.drop_last()[i] == k;
            assert(keys[i] == k);
        }
    }
}

/// Distinct keys, pairwise, at the level of character sequences.
pub open spec fn distinct_keys(keys: Seq<Seq<char>>) -> bool {
    forall|i: int, j: int| 0 <= i < j < keys.len() ==> keys[i] != keys[j]
}

proof fn lemma_assoc_get<T>(keys: Seq<Seq<char>>, vals: Seq<T>, i: int)
    requires
        keys.len() == vals.len(),
        distinct_keys(keys),
        0 <= i < keys.len(),
    ensures
        assoc_map(keys, vals).contains_key(keys[i]),
        assoc_map(keys, vals)[keys[i]] == vals[i],
    decreases keys.len(),
{
    if i < keys.len() - 1 {
        lemma_assoc_get(keys.drop_last(), vals.drop_last(), i);
    }
}

proof fn lemma_assoc_update<T>(keys: Seq<Seq<char>>, vals: Seq<T>, i: int, v: T)
    requires
        keys.len() == vals.len(),
        distinct_keys(keys),
        0 <= i < keys.len(),
    ensures
        assoc_map(keys, vals.update(i, v)) == assoc_map(keys, vals).insert(keys[i], v),
    decreases keys.len(),
{
    let n = keys.len() - 1;
    if i == n {
        assert(vals.update(i, v).drop_last() =~= vals.drop_last());
        assert(assoc_map(keys, vals.update(i, v)) =~= assoc_map(keys, vals).insert(keys[i], v));
    } else {
        lemma_assoc_update(keys.drop_last(), vals.drop_last(), i, v);
        assert(vals.update(i, v).drop_last() =~= vals.drop_last().update(i, v));
        assert(assoc_map(keys, vals.update(i, v)) =~= assoc_map(keys, vals).insert(keys[i], v));
    }
}

proof fn lemma_assoc_remove<T>(keys: Seq<Seq<char>>, vals: Seq<T>, i: int)
    requires
        keys.len() == vals.len(),
        distinct_keys(keys),
        0 <= i < keys.len(),
    ensures
        assoc_map(keys.remove(i), vals.remove(i)) == assoc_map(keys, vals).remove(keys[i]),
    decreases keys.len(),
{
    let n = keys.len() - 1;
    lemma_assoc_contains(keys.drop_last(), vals.drop_last(), keys[i]);
    if i == n {
        assert(keys.remove(i) =~= keys.drop_last());
        assert(vals.remove(i) =~= vals.drop_last());
        assert(!keys.drop_last().contains(keys[i]));
        assert(assoc_map(keys.remove(i), vals.remove(i)) =~= assoc_map(keys, vals).remove(
            keys[i],
        ));
    } else {
        lemma_assoc_remove(keys.drop_last(), vals.drop_last(), i);
        assert(keys.remove(i).drop_last() =~= keys.drop_last().remove(i));
        assert(vals.remove(i).drop_last() =~= vals.drop_last().remove(i));
        assert(keys.remove(i).last() == keys.last());
        assert(vals.remove(i).last() == vals.last());
        assert(assoc_map(keys.remove(i), vals.remove(i)) =~= assoc_map(keys, vals).remove(
            keys[i],
        ));
    }
}

proof fn lemma_assoc_dom_len<T>(keys: Seq<Seq<char>>, vals: Seq<T>)
    requires
        keys.len() == vals.len(),
        distinct_keys(keys),
    ensures
        assoc_map(keys, vals).dom().finite(),
        assoc_map(keys, vals).dom().len() == keys.len(),
    decreases keys.len(),
{
    if keys.len() == 0 {
        assert(assoc_map(keys, vals).dom() =~= Set::<Seq<char>>::empty());
    } else {
        lemma_assoc_dom_len(keys.drop_last(), vals.drop_last());
        lemma_assoc_contains(keys.drop_last(), vals.drop_last(), keys.last());
        assert(!keys.drop_last().contains(keys.last()));
        assert(assoc_map(keys, vals).dom() =~= assoc_map(keys.drop_last(), vals.drop_last()).dom()
            + set![keys.last()]);
        vstd::set::axiom_set_insert_finite(
            assoc_map(keys.drop_last(), vals.drop_last()).dom(),
            keys.last(),
        );
        vstd::set::axiom_set_insert_len(
            assoc_map(keys.drop_last(), vals.drop_last()).dom(),
            keys.last(),
        );
        assert(assoc_map(keys.drop_last(), vals.drop_last()).dom().insert(keys.last())
            =~= assoc_map(keys.drop_last(), vals.drop_last()).dom() + set![keys.last()]);
    }
}

/// A map from identifier strings to values of type `V`.
pub struct IdMap<V> {
    keys: Vec<String>,
    vals: Vec<V>,
}

impl<V: View> View for IdMap<V> {
    type V = Map<Seq<char>, V::V>;

    closed spec fn view(&self) -> Map<Seq<char>, V::V> {
        assoc_map(self.keys.deep_view(), self.vals@.map_values(|v: V| v@))
    }
}

impl<V: View> IdMap<V> {
    /// Keys are pairwise distinct and each key has a value.
    pub closed spec fn wf(&self) -> bool {
        self.keys@.len() == self.vals@.len() && distinct_keys(self.keys.deep_view())
    }

    /// An empty map.
    pub fn new() -> (r: IdMap<V>)
        ensures
            r.wf(),
            r@ == Map::<Seq<char>, V::V>::empty(),
            r@.dom().finite(),
            r@.dom().len() == 0,
    {
        let r = IdMap { keys: Vec::new(), vals: Vec::new() };
        proof {
            assert(r@ =~= Map::<Seq<char>, V::V>::empty());
            lemma_assoc_dom_len(r.keys.deep_view(), r.vals@.map_values(|v: V| v@));
        }
        r
    }

    fn index_of(&self, k: &str) -> (r: Option<usize>)
        ensures
            match r {
                Some(i) => i < self.keys@.len() && self.keys@[i as int]@ == k@,
                None => forall|i: int| 0 <= i < self.keys@.len() ==> self.keys@[i]@ != k@,
            },
    {
        let n = self.keys.len();
        let mut i: usize = 0;
        while i < n
            invariant
                0 <= i <= n,
                n == self.keys@.len(),
                forall|j: int| 0 <= j < i ==> self.keys@[j]@ != k@,
            decreases n - i,
        {
            if str_eq(self.keys[i].as_str(), k) {
                return Some(i);
            }
            i = i + 1;
        }
        None
    }

    /// Whether `k` is bound in the map.
    pub fn contains_key(&self, k: &str) -> (r: bool)
        requires
            self.wf(),
        ensures
            r == self@.contains_key(k@),
    {
        proof {
            lemma_assoc_contains(self.keys.deep_view(), self.vals@.map_values(|v: V| v@), k@);
        }
        match self.index_of(k) {
            Some(i) => {
                proof {
                    assert(self.keys.deep_view()[i as int] == k@);
                }
                true
            },
            None => {
                proof {
                    assert(forall|i: int|
                        0 <= i < self.keys.deep_view().len() ==> self.keys.deep_view()[i] != k@);
                }
                false
            },
        }
    }

    /// The value bound to `k`, if any.
    pub fn get(&self, k: &str) -> (r: Option<&V>)
        requires
            self.wf(),
        ensures
            match r {
                Some(v) => self@.contains_key(k@) && v@ == self@[k@],
                None => !self@.contains_key(k@),
            },
    {
        proof {
            lemma_assoc_contains(self.keys.deep_view(), self.vals@.map_values(|v: V| v@), k@);
        }
        match self.index_of(k) {
            Some(i) => {
                proof {
                    lemma_assoc_get(
                        self.keys.deep_view(),
                        self.vals@.map_values(|v: V| v@),
                        i as int,
                    );
                }
                Some(&self.vals[i])
            },
            None => {
                proof {
                    assert(forall|i: int|
                        0 <= i < self.keys.deep_view().len() ==> self.keys.deep_view()[i] != k@);
                }
                None
            },
        }
    }

    /// Binds `k` to `v`, replacing any earlier binding.
    pub fn insert(&mut self, k: String, v: V)
        requires
            old(self).wf(),
        ensures
            final(self).wf(),
            final(self)@ == old(self)@.insert(k@, v@),
    {
        let idx = self.index_of(k.as_str());
        match idx {
            Some(i) => {
                proof {
                    lemma_assoc_update(
                        self.keys.deep_view(),
                        self.vals@.map_values(|x: V| x@),
                        i as int,
                        v@,
                    );
                }
                self.vals.set(i, v);
                proof {
                    assert(self.vals@.map_values(|x: V| x@) =~= old(self).vals@.map_values(
                        |x: V| x@,
                    ).update(idx.unwrap() as int, v@));
                }
            },
            None => {
                self.keys.push(k);
                self.vals.push(v);
                proof {
                    let dk = self.keys.deep_view();
                    let odk = old(self).keys.deep_view();
                    assert(dk.drop_last() =~= odk);
                    assert(dk.last() == k@);
                    assert forall|i: int, j: int| 0 <= i < j < dk.len() implies dk[i] != dk[j] by {
                        if j < dk.len() - 1 {
                            assert(dk[i] == odk[i] && dk[j] == odk[j]);
                        } else {
                            assert(dk[i] == old(self).keys@[i]@);
                        }
                    }
                    assert(distinct_keys(dk));
                    assert(self.vals@.map_values(|x: V| x@).drop_last() =~= old(
                        self,
                    ).vals@.map_values(|x: V| x@));
                    assert(self@ == assoc_map(odk, old(self).vals@.map_values(|x: V| x@)).insert(
                        dk.last(),
                        v@,
                    ));
                }
            },
        }
    }

    /// Removes and returns the value bound to `k`, if any; the map is
    /// unchanged when `k` is absent.
    pub fn remove(&mut self, k: &str) -> (r: Option<V>)
        requires
            old(self).wf(),
        ensures
            final(self).wf(),
            match r {
                Some(v) => old(self)@.contains_key(k@) && v@ == old(self)@[k@] && final(self)@
                    == old(self)@.remove(k@),
                None => !old(self)@.contains_key(k@) && final(self)@ == old(self)@,
            },
    {
        proof {
            lemma_assoc_contains(self.keys.deep_view(), self.vals@.map_values(|v: V| v@), k@);
        }
        let idx = self.index_of(k);
        match idx {
            Some(i) => {
                proof {
                    lemma_assoc_get(
                        self.keys.deep_view(),
                        self.vals@.map_values(|x: V| x@),
                        i as int,
                    );
                    lemma_assoc_remove(
                        self.keys.deep_view(),
                        self.vals@.map_values(|x: V| x@),
                        i as int,
                    );
                }
                self.keys.remove(i);
                let v = self.vals.remove(i);
                proof {
                    let i = idx.unwrap() as int;
                    assert(self.keys.deep_view() =~= old(self).keys.deep_view().remove(i));
                    assert(self.vals@.map_values(|x: V| x@) =~= old(self).vals@.map_values(
                        |x: V| x@,
                    ).remove(i));
                }
                Some(v)
            },
            None => {
                proof {
                    assert(forall|i: int|
                        0 <= i < self.keys.deep_view().len() ==> self.keys.deep_view()[i] != k@);
                }
                None
            },
        }
    }

    /// The number of bindings.
    pub fn len(&self) -> (r: usize)
        requires
            self.wf(),
        ensures
            self@.dom().finite(),
            r == self@.dom().len(),
    {
        proof {
            lemma_assoc_dom_len(self.keys.deep_view(), self.vals@.map_values(|v: V| v@));
        }
        self.keys.len()
    }

    /// The `i`-th binding, in insertion order.
    pub fn pair_at(&self, i: usize) -> (r: (&String, &V))
        requires
            self.wf(),
            self@.dom().finite(),
            i < self@.dom().len(),
        ensures
            self@.contains_key(r.0@),
            self@[r.0@] == r.1@,
    {
        proof {
            lemma_assoc_dom_len(self.keys.deep_view(), self.vals@.map_values(|v: V| v@));
            lemma_assoc_get(self.keys.deep_view(), self.vals@.map_values(|v: V| v@), i as int);
        }
        (&self.keys[i], &self.vals[i])
    }
}

} // verus!
