//! A small map from strings to values, kept as a list of entries in which no
//! key occurs twice. Its model is a `Map` from the key's characters to the
//! value's view.

use vstd::prelude::*;

verus! {

#[derive(Debug)]
pub struct StringMap<V> {
    entries: Vec<(String, V)>,
}

impl<V: View> View for StringMap<V> {
    type V = Map<Seq<char>, V::V>;

    closed spec fn view(&self) -> Map<Seq<char>, V::V> {
        Map::new(
            |k: Seq<char>| self.keys().contains(k),
            |k: Seq<char>| self.entries@[self.keys().index_of(k)].1@,
        )
    }
}

/// The keys of a list of entries, in order.
spec fn keys_of<V>(entries: Seq<(String, V)>) -> Seq<Seq<char>> {
    Seq::new(entries.len(), |i: int| entries[i].0@)
}

/// The first place at which `key` is held in `entries`.
fn find_key<V>(entries: &Vec<(String, V)>, key: &String) -> (at: Option<usize>)
    ensures
        match at {
            Some(i) => i < entries@.len() && keys_of(entries@)[i as int] == key@,
            None => !keys_of(entries@).contains(key@),
        },
{
    let mut i: usize = 0;
    while i < entries.len()
        invariant
            i <= entries@.len(),
            forall|j: int| 0 <= j < i ==> keys_of(entries@)[j] != key@,
        decreases entries@.len() - i,
    {
        if entries[i].0 == *key {
            return Some(i);
        }
        i += 1;
    }
    None
}

impl<V> StringMap<V> {
    /// The keys in the order in which the entries are held.
    pub closed spec fn keys(&self) -> Seq<Seq<char>> {
        keys_of(self.entries@)
    }

    /// No key occurs twice.
    #[verifier::type_invariant]
    pub closed spec fn wf(&self) -> bool {
        self.keys().no_duplicates()
    }
}

impl<V: View> StringMap<V> {
    /// The views of the values, in the order of `keys`.
    pub closed spec fn values(&self) -> Seq<V::V> {
        Seq::new(self.entries@.len(), |i: int| self.entries@[i].1@)
    }

    /// The model pairs each key with the value held beside it.
    pub proof fn lemma_view_entries(&self)
        requires
            self.wf(),
        ensures
            self.keys().len() == self.values().len(),
            self.keys().no_duplicates(),
            self@.dom().finite(),
            forall|k: Seq<char>| self@.contains_key(k) <==> self.keys().contains(k),
            forall|i: int|
                0 <= i < self.keys().len() ==> self@.contains_key(#[trigger] self.keys()[i])
                    && self@[self.keys()[i]] == self.values()[i],
    {
        let keys = self.keys();
        assert forall|i: int| 0 <= i < keys.len() implies self@.contains_key(#[trigger] keys[i])
            && self@[keys[i]] == self.values()[i] by {
            assert(keys.contains(keys[i]));
            assert(keys.index_of(keys[i]) == i);
        }
        assert(self@.dom() =~= keys.to_set());
        vstd::seq_lib::seq_to_set_is_finite(keys);
    }

    /// A map without entries.
    pub fn new() -> (map: Self)
        ensures
            map@ == Map::<Seq<char>, V::V>::empty(),
            map.keys() == Seq::<Seq<char>>::empty(),
    {
        let map = StringMap { entries: Vec::new() };
        assert(map.keys() =~= Seq::<Seq<char>>::empty());
        assert(map@ =~= Map::<Seq<char>, V::V>::empty());
        map
    }

    /// The number of entries.
    pub fn len(&self) -> (n: usize)
        ensures
            n == self.keys().len(),
            n == self@.dom().len(),
    {
        proof {
            use_type_invariant(self);
            self.lemma_view_entries();
            assert(self@.dom() =~= self.keys().to_set());
            self.keys().unique_seq_to_set();
        }
        self.entries.len()
    }

    /// Where `key` is held, if it is.
    fn position(&self, key: &String) -> (at: Option<usize>)
        ensures
            match at {
                Some(i) => i < self.keys().len() && self.keys()[i as int] == key@,
                None => !self.keys().contains(key@),
            },
    {
        find_key(&self.entries, key)
    }

    /// Whether `key` has an entry.
    pub fn contains_key(&self, key: &String) -> (found: bool)
        ensures
            found == self@.contains_key(key@),
    {
        self.position(key).is_some()
    }

    /// The value held for `key`.
    pub fn get(&self, key: &String) -> (value: Option<&V>)
        ensures
            value is Some == self@.contains_key(key@),
            value matches Some(v) ==> v@ == self@[key@],
    {
        proof {
            use_type_invariant(self);
        }
        match self.position(key) {
            Some(i) => {
                assert(self.keys().contains(key@));
                assert(self.keys().index_of(key@) == i);
                Some(&self.entries[i].1)
            },
            None => None,
        }
    }

    /// Sets the value for `key`, in place where the key is already held and
    /// at the end where it is new, and hands back the value it had before.
    pub fn insert(&mut self, key: String, value: V) -> (previous: Option<V>)
        ensures
            final(self)@ == old(self)@.insert(key@, value@),
            previous is Some == old(self)@.contains_key(key@),
            previous matches Some(p) ==> p@ == old(self)@[key@],
            old(self)@.contains_key(key@) ==> final(self).keys() == old(self).keys(),
            !old(self)@.contains_key(key@) ==> final(self).keys() == old(self).keys().push(key@),
    {
        proof {
            use_type_invariant(&*self);
            self.lemma_view_entries();
        }
        let ghost before = *self;
        let ghost k = key@;
        let ghost v = value@;
        let mut entries: Vec<(String, V)> = Vec::new();
        core::mem::swap(&mut self.entries, &mut entries);
        match find_key(&entries, &key) {
            Some(i) => {
                let replaced = entries.remove(i);
                assert(before.keys().index_of(k) == i);
                entries.insert(i, (key, value));
                assert(keys_of(entries@) =~= before.keys());
                self.entries = entries;
                proof {
                    self.lemma_view_entries();
                    assert forall|q: Seq<char>| self@.contains_key(q) implies #[trigger] self@[q]
                        == before@.insert(k, v)[q] by {
                        let j = self.keys().index_of(q);
                        assert(self.keys().contains(q));
                        if q != k {
                            assert(before.values()[j] == self.values()[j]);
                        } else {
                            assert(j == i);
                        }
                    }
                    assert(self@ =~= before@.insert(k, v));
                }
                Some(replaced.1)
            },
            None => {
                entries.push((key, value));
                assert(keys_of(entries@) =~= before.keys().push(k));
                self.entries = entries;
                proof {
                    self.lemma_view_entries();
                    assert forall|q: Seq<char>| self@.contains_key(q) <==> before@.insert(
                        k,
                        v,
                    ).contains_key(q) by {
                        if self.keys().contains(q) {
                            let j = self.keys().index_of(q);
                            if j < before.keys().len() {
                                assert(before.keys()[j] == q);
                            }
                        }
                        if before.keys().contains(q) {
                            let j = before.keys().index_of(q);
                            assert(self.keys()[j] == q);
                        }
                        if q == k {
                            assert(self.keys()[before.keys().len() as int] == q);
                        }
                    }
                    assert forall|q: Seq<char>| self@.contains_key(q) implies #[trigger] self@[q]
                        == before@.insert(k, v)[q] by {
                        let j = self.keys().index_of(q);
                        assert(self.keys().contains(q));
                        if q != k {
                            assert(j < before.keys().len());
                            assert(before.keys()[j] == q);
                            assert(before.values()[j] == self.values()[j]);
                        } else {
                            assert(self.keys()[before.keys().len() as int] == q);
                        }
                    }
                    assert(self@ =~= before@.insert(k, v));
                }
                None
            },
        }
    }

    /// The key of the entry at `index`.
    pub fn key_at(&self, index: usize) -> (key: &String)
        requires
            index < self.keys().len(),
        ensures
            key@ == self.keys()[index as int],
    {
        &self.entries[index].0
    }

    /// The value of the entry at `index`.
    pub fn value_at(&self, index: usize) -> (value: &V)
        requires
            index < self.keys().len(),
        ensures
            value@ == self.values()[index as int],
    {
        &self.entries[index].1
    }
}

} // verus!
