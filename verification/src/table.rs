//! Sets of texts and tables keyed by texts.
//!
//! Both keep their elements in a vector in which no key occurs twice, and both
//! are modelled by what they hold: a set of texts, and a map from texts.
use vstd::prelude::*;

use crate::text::same_text;

verus! {

/// A table from texts to values.
#[derive(Debug)]
pub struct TextMap<V> {
    pub entries: Vec<(String, V)>,
}

impl<V> TextMap<V> {
    /// The keys, in the order in which they are kept.
    pub open spec fn keys(&self) -> Seq<Seq<char>> {
        Seq::new(self.entries@.len(), |i: int| self.entries@[i].0@)
    }

    /// No key occurs twice.
    pub open spec fn wf(&self) -> bool {
        self.keys().no_duplicates()
    }

    /// What the table holds.
    pub open spec fn view(&self) -> Map<Seq<char>, V> {
        Map::new(
            |k: Seq<char>| self.keys().contains(k),
            |k: Seq<char>| self.entries@[self.keys().index_of(k)].1,
        )
    }

    /// The key at a place is in the table, with the value at that place.
    pub proof fn entry_at(&self, i: int)
        requires
            self.wf(),
            0 <= i < self.entries@.len(),
        ensures
            self@.contains_key(self.entries@[i].0@),
            self@[self.entries@[i].0@] == self.entries@[i].1,
    {
        assert(self.keys()[i] == self.entries@[i].0@);
        let k = self.keys().index_of(self.keys()[i]);
        assert(self.keys().contains(self.keys()[i]));
        assert(self.keys()[k] == self.keys()[i]);
    }

    /// Every key of the table stands at some place.
    pub proof fn place_of(&self, k: Seq<char>) -> (i: int)
        requires
            self.wf(),
            self@.contains_key(k),
        ensures
            0 <= i < self.entries@.len(),
            self.entries@[i].0@ == k,
            self.entries@[i].1 == self@[k],
    {
        let i = self.keys().index_of(k);
        assert(self.keys()[i] == k);
        i
    }

    /// The table holds as many keys as it has entries.
    pub proof fn size(&self)
        requires
            self.wf(),
        ensures
            self@.dom().finite(),
            self@.dom().len() == self.entries@.len(),
            self@.dom() == self.keys().to_set(),
    {
        self.keys().unique_seq_to_set();
        assert(self@.dom() =~= self.keys().to_set());
    }

    /// An empty table.
    pub fn new() -> (r: Self)
        ensures
            r.wf(),
            r@ == Map::<Seq<char>, V>::empty(),
    {
        let r = TextMap { entries: Vec::new() };
        assert(r@ =~= Map::<Seq<char>, V>::empty());
        r
    }

    /// How many keys the table holds.
    pub fn len(&self) -> (r: usize)
        requires
            self.wf(),
        ensures
            r == self@.dom().len(),
            r == self.entries@.len(),
            self@.dom().finite(),
    {
        proof {
            self.size();
        }
        self.entries.len()
    }

    /// Where `k` stands, if the table holds it.
    pub fn position(&self, k: &str) -> (r: Option<usize>)
        requires
            self.wf(),
        ensures
            match r {
                Some(i) => {
                    &&& i < self.entries@.len()
                    &&& self.entries@[i as int].0@ == k@
                    &&& self@.contains_key(k@)
                    &&& self@[k@] == self.entries@[i as int].1
                },
                None => !self@.contains_key(k@),
            },
    {
        let mut i: usize = 0;
        while i < self.entries.len()
            invariant
                self.wf(),
                i <= self.entries@.len(),
                forall|j: int| 0 <= j < i ==> self.keys()[j] != k@,
            decreases self.entries@.len() - i,
        {
            if same_text(self.entries[i].0.as_str(), k) {
                proof {
                    self.entry_at(i as int);
                }
                return Some(i);
            }
            i = i + 1;
        }
        None
    }

    /// Whether the table holds `k`.
    pub fn contains_key(&self, k: &str) -> (r: bool)
        requires
            self.wf(),
        ensures
            r == self@.contains_key(k@),
    {
        match self.position(k) {
            Some(_) => true,
            None => false,
        }
    }

    /// The value of `k`.
    pub fn get(&self, k: &str) -> (r: Option<&V>)
        requires
            self.wf(),
        ensures
            match r {
                Some(v) => self@.contains_key(k@) && *v == self@[k@],
                None => !self@.contains_key(k@),
            },
    {
        match self.position(k) {
            Some(i) => Some(&self.entries[i].1),
            None => None,
        }
    }

    /// Takes `k` out of the table.
    pub fn remove(&mut self, k: &str) -> (r: Option<V>)
        requires
            old(self).wf(),
        ensures
            final(self).wf(),
            final(self)@ == old(self)@.remove(k@),
            match r {
                Some(v) => old(self)@.contains_key(k@) && v == old(self)@[k@],
                None => !old(self)@.contains_key(k@),
            },
    {
        let ghost before = *self;
        match self.position(k) {
            Some(i) => {
                let (_, v) = self.entries.remove(i);
                proof {
                    self.removed(before, i as int);
                    assert(before.keys()[i as int] == k@);
                }
                Some(v)
            },
            None => {
                assert(self@ =~= before@.remove(k@));
                None
            },
        }
    }

    proof fn removed(&self, before: Self, i: int)
        requires
            before.wf(),
            0 <= i < before.entries@.len(),
            self.entries@ == before.entries@.remove(i),
        ensures
            self.wf(),
            self@ == before@.remove(before.keys()[i]),
    {
        let gone = before.keys()[i];
        assert(self.keys() =~= before.keys().remove(i));
        assert forall|a: int, b: int|
            0 <= a < self.keys().len() && 0 <= b < self.keys().len() && a != b implies
            self.keys()[a] != self.keys()[b] by {
            let a0 = if a < i { a } else { a + 1 };
            let b0 = if b < i { b } else { b + 1 };
            assert(before.keys()[a0] == self.keys()[a]);
            assert(before.keys()[b0] == self.keys()[b]);
        }
        assert forall|k: Seq<char>| #[trigger]
            self@.contains_key(k) == before@.remove(gone).contains_key(k) by {
            if self@.contains_key(k) {
                let j = self.place_of(k);
                let j0 = if j < i { j } else { j + 1 };
                assert(before.keys()[j0] == k);
            }
            if before@.contains_key(k) && k != gone {
                let j0 = before.place_of(k);
                let j = if j0 < i { j0 } else { j0 - 1 };
                assert(self.keys()[j] == k);
            }
        }
        assert forall|k: Seq<char>| self@.contains_key(k) implies #[trigger] self@[k]
            == before@.remove(gone)[k] by {
            let j = self.place_of(k);
            let j0 = if j < i { j } else { j + 1 };
            assert(before.keys()[j0] == k);
            before.entry_at(j0);
        }
        assert(self@ =~= before@.remove(gone));
    }

    /// Gives `k` the value `v`, whatever it had before.
    pub fn insert(&mut self, k: String, v: V)
        requires
            old(self).wf(),
        ensures
            final(self).wf(),
            final(self)@ == old(self)@.insert(k@, v),
    {
        let ghost before = *self;
        let _ = self.remove(k.as_str());
        let ghost without = *self;
        self.entries.push((k, v));
        proof {
            assert(self.keys() =~= without.keys().push(k@));
            if without.keys().contains(k@) {
                assert(without@.contains_key(k@));
            }
            assert(!without.keys().contains(k@));
            assert(self.wf());
            self.entry_at(self.entries@.len() - 1);
            assert forall|j: Seq<char>| #[trigger]
                self@.contains_key(j) == before@.insert(k@, v).contains_key(j) by {
                if without@.contains_key(j) {
                    let p = without.place_of(j);
                    assert(self.keys()[p] == j);
                }
                if self@.contains_key(j) && j != k@ {
                    let p = self.place_of(j);
                    assert(without.keys()[p] == j);
                }
            }
            assert forall|j: Seq<char>| self@.contains_key(j) implies #[trigger] self@[j]
                == before@.insert(k@, v)[j] by {
                if j != k@ {
                    let p = self.place_of(j);
                    without.entry_at(p);
                }
            }
            assert(self@ =~= before@.insert(k@, v));
        }
    }

    /// The value that stands at `i`, to be changed in place.
    pub fn value_mut(&mut self, i: usize) -> (r: &mut V)
        requires
            i < old(self).entries@.len(),
        ensures
            *r == old(self).entries@[i as int].1,
            final(self).entries@ == old(self).entries@.update(
                i as int,
                (old(self).entries@[i as int].0, *final(r)),
            ),
    {
        &mut self.entries[i].1
    }

    /// What a change of the value at `i` means for the table.
    pub proof fn changed_at(&self, before: Self, i: int, v: V)
        requires
            before.wf(),
            0 <= i < before.entries@.len(),
            self.entries@ == before.entries@.update(i, (before.entries@[i].0, v)),
        ensures
            self.wf(),
            self.keys() == before.keys(),
            self@ == before@.insert(before.entries@[i].0@, v),
    {
        assert(self.keys() =~= before.keys());
        let key = before.entries@[i].0@;
        assert(before.keys()[i] == key);
        assert forall|j: Seq<char>| self@.contains_key(j) implies #[trigger] self@[j]
            == before@.insert(key, v)[j] by {
            let p = self.place_of(j);
            before.entry_at(p);
        }
        assert(self@ =~= before@.insert(key, v));
    }
}

/// A set of texts.
#[derive(Debug)]
pub struct TextSet {
    pub items: Vec<String>,
}

impl TextSet {
    /// The elements, in the order in which they are kept.
    pub open spec fn keys(&self) -> Seq<Seq<char>> {
        crate::text::texts(self.items@)
    }

    /// No element occurs twice.
    pub open spec fn wf(&self) -> bool {
        self.keys().no_duplicates()
    }

    /// What the set holds.
    pub open spec fn view(&self) -> Set<Seq<char>> {
        self.keys().to_set()
    }

    /// An empty set.
    pub fn new() -> (r: Self)
        ensures
            r.wf(),
            r@ == Set::<Seq<char>>::empty(),
    {
        let r = TextSet { items: Vec::new() };
        assert(r@ =~= Set::<Seq<char>>::empty());
        r
    }

    /// How many elements the set holds.
    pub fn len(&self) -> (r: usize)
        requires
            self.wf(),
        ensures
            r == self@.len(),
            self@.finite(),
    {
        proof {
            self.keys().unique_seq_to_set();
        }
        self.items.len()
    }

    fn position(&self, k: &str) -> (r: Option<usize>)
        ensures
            match r {
                Some(i) => i < self.items@.len() && self.keys()[i as int] == k@ && self@.contains(
                    k@,
                ),
                None => !self@.contains(k@),
            },
    {
        let mut i: usize = 0;
        while i < self.items.len()
            invariant
                i <= self.items@.len(),
                forall|j: int| 0 <= j < i ==> self.keys()[j] != k@,
            decreases self.items@.len() - i,
        {
            if same_text(self.items[i].as_str(), k) {
                assert(self.keys()[i as int] == k@);
                return Some(i);
            }
            i = i + 1;
        }
        None
    }

    /// Whether the set holds `k`.
    pub fn contains(&self, k: &str) -> (r: bool)
        ensures
            r == self@.contains(k@),
    {
        match self.position(k) {
            Some(_) => true,
            None => false,
        }
    }

    /// Puts `k` into the set, and says whether it is new there.
    pub fn insert(&mut self, k: String) -> (r: bool)
        requires
            old(self).wf(),
        ensures
            final(self).wf(),
            final(self)@ == old(self)@.insert(k@),
            r == !old(self)@.contains(k@),
    {
        let ghost before = *self;
        if self.contains(k.as_str()) {
            assert(self@ =~= before@.insert(k@));
            return false;
        }
        self.items.push(k);
        proof {
            assert(self.keys() =~= before.keys().push(k@));
            assert(!before.keys().contains(k@));
            assert(self.keys()[before.items@.len() as int] == k@);
            assert forall|j: Seq<char>| #[trigger]
                self@.contains(j) == before@.insert(k@).contains(j) by {
                if before.keys().contains(j) {
                    let p = before.keys().index_of(j);
                    assert(self.keys()[p] == j);
                }
                if self.keys().contains(j) && j != k@ {
                    let p = self.keys().index_of(j);
                    assert(before.keys()[p] == j);
                }
            }
            assert(self@ =~= before@.insert(k@));
        }
        true
    }

    /// Takes `k` out of the set, and says whether it was there.
    pub fn remove(&mut self, k: &str) -> (r: bool)
        requires
            old(self).wf(),
        ensures
            final(self).wf(),
            final(self)@ == old(self)@.remove(k@),
            r == old(self)@.contains(k@),
    {
        let ghost before = *self;
        match self.position(k) {
            Some(i) => {
                let _ = self.items.remove(i);
                proof {
                    assert(self.keys() =~= before.keys().remove(i as int));
                    assert forall|a: int, b: int|
                        0 <= a < self.keys().len() && 0 <= b < self.keys().len() && a
                            != b implies self.keys()[a] != self.keys()[b] by {
                        let a0 = if a < i { a } else { a + 1 };
                        let b0 = if b < i { b } else { b + 1 };
                        assert(before.keys()[a0] == self.keys()[a]);
                        assert(before.keys()[b0] == self.keys()[b]);
                    }
                    assert forall|j: Seq<char>| #[trigger]
                        self@.contains(j) == before@.remove(k@).contains(j) by {
                        if self.keys().contains(j) {
                            let p = self.keys().index_of(j);
                            let p0 = if p < i { p } else { p + 1 };
                            assert(before.keys()[p0] == j);
                        }
                        if before.keys().contains(j) && j != k@ {
                            let p0 = before.keys().index_of(j);
                            let p = if p0 < i { p0 } else { p0 - 1 };
                            assert(self.keys()[p] == j);
                        }
                    }
                    assert(self@ =~= before@.remove(k@));
                }
                true
            },
            None => {
                assert(self@ =~= before@.remove(k@));
                false
            },
        }
    }
}

} // verus!
