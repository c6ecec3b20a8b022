//! Tables keyed by text.

use crate::table::Record;
use crate::text::same_text;
use vstd::prelude::*;
use vstd::seq_lib::*;

verus! {

/// Some key is `key`.
pub open spec fn listed(keys: Seq<Seq<char>>, key: Seq<char>) -> bool {
    exists|i: int| 0 <= i < keys.len() && #[trigger] keys[i] == key
}

/// A finite map from texts to records.
pub struct TextTable<V: Record> {
    keys: Vec<String>,
    values: Vec<V>,
}

impl<V: Record> View for TextTable<V> {
    type V = Map<Seq<char>, V::V>;

    closed spec fn view(&self) -> Map<Seq<char>, V::V> {
        Map::new(
            |key: Seq<char>| listed(self.texts(), key),
            |key: Seq<char>| self.values@[self.place(key)]@,
        )
    }
}

impl<V: Record> TextTable<V> {
    spec fn texts(self) -> Seq<Seq<char>> {
        Seq::new(self.keys@.len(), |i: int| self.keys@[i]@)
    }

    spec fn place(self, key: Seq<char>) -> int {
        choose|i: int| 0 <= i < self.texts().len() && #[trigger] self.texts()[i] == key
    }

    /// Each key stands once, beside its value.
    #[verifier::type_invariant]
    spec fn paired(self) -> bool {
        self.keys@.len() == self.values@.len() && self.texts().no_duplicates()
    }

    pub fn new() -> (table: TextTable<V>)
        ensures
            table@ == Map::<Seq<char>, V::V>::empty(),
    {
        let table = TextTable { keys: Vec::new(), values: Vec::new() };
        assert(table@ =~= Map::<Seq<char>, V::V>::empty());
        table
    }

    /// How many keys there are.
    pub fn len(&self) -> (len: usize)
        ensures
            len == self@.dom().len(),
            len == self.key_order().len(),
            self@.dom().finite(),
    {
        proof {
            use_type_invariant(self);
            self.texts().unique_seq_to_set();
            assert(self@.dom() =~= self.texts().to_set()) by {
                assert forall|key: Seq<char>| #[trigger]
                    self@.dom().contains(key) == self.texts().to_set().contains(key) by {
                    if listed(self.texts(), key) {
                        assert(self.texts().contains(key));
                    }
                }
            }
        }
        self.keys.len()
    }

    fn position(&self, key: &str) -> (position: Option<usize>)
        ensures
            match position {
                Some(i) => i < self.keys@.len() && self.texts()[i as int] == key@
                    && self@.dom().contains(key@) && i < self.values@.len() && self@[key@]
                    == self.values@[i as int]@,
                None => !self@.dom().contains(key@),
            },
    {
        proof {
            use_type_invariant(self);
        }
        let mut i: usize = 0;
        while i < self.keys.len()
            invariant
                self.paired(),
                i <= self.keys@.len(),
                forall|j: int| 0 <= j < i ==> #[trigger] self.texts()[j] != key@,
            decreases self.keys.len() - i,
        {
            if same_text(self.keys[i].as_str(), key) {
                proof {
                    assert(self.texts()[i as int] == key@);
                    let at = self.place(key@);
                    assert(at == i);
                }
                return Some(i);
            }
            i += 1;
        }
        None
    }

    pub fn contains(&self, key: &str) -> (found: bool)
        ensures
            found == self@.dom().contains(key@),
    {
        self.position(key).is_some()
    }

    pub fn get(&self, key: &str) -> (found: Option<&V>)
        ensures
            match found {
                Some(value) => self@.dom().contains(key@) && self@[key@] == value@,
                None => !self@.dom().contains(key@),
            },
    {
        match self.position(key) {
            Some(i) => Some(&self.values[i]),
            None => None,
        }
    }

    /// Binds a key to a value in place of the one it had.
    pub fn insert(&mut self, key: String, value: V)
        ensures
            final(self)@ == old(self)@.insert(key@, value@),
    {
        proof {
            use_type_invariant(&*self);
        }
        let ghost before = *self;
        let found = self.position(key.as_str());
        let mut taken = TextTable::new();
        std::mem::swap(&mut taken, self);
        let mut keys = taken.keys;
        let mut values = taken.values;
        match found {
            Some(i) => {
                values.set(i, value);
                *self = TextTable { keys, values };
                proof {
                    assert(self.texts() =~= before.texts());
                    assert forall|k: Seq<char>| self@.dom().contains(k) implies self@[k]
                        == before@.insert(key@, value@)[k] by {
                        let at = self.place(k);
                        assert(self.texts()[at] == k);
                        assert(before.place(k) == at);
                    }
                    assert(self@ =~= before@.insert(key@, value@));
                }
            },
            None => {
                keys.push(key);
                values.push(value);
                proof {
                    let texts = Seq::new(keys@.len(), |i: int| keys@[i]@);
                    assert(texts =~= before.texts().push(key@));
                    assert forall|i: int, j: int|
                        0 <= i < texts.len() && 0 <= j < texts.len() && i != j implies texts[i]
                        != texts[j] by {
                        if i == texts.len() - 1 {
                            assert(before.texts()[j] != key@);
                        } else if j == texts.len() - 1 {
                            assert(before.texts()[i] != key@);
                        } else {
                            assert(before.texts()[i] != before.texts()[j]);
                        }
                    }
                }
                *self = TextTable { keys, values };
                proof {
                    assert(self.texts() =~= before.texts().push(key@));
                    assert forall|k: Seq<char>|
                        self@.dom().contains(k) == before@.insert(key@, value@).dom().contains(
                            k,
                        ) by {
                        if before@.dom().contains(k) {
                            let at = before.place(k);
                            assert(self.texts()[at] == k);
                        }
                        if k == key@ {
                            assert(self.texts()[self.texts().len() - 1] == k);
                        }
                        if self@.dom().contains(k) {
                            let at = self.place(k);
                            assert(self.texts()[at] == k);
                            if at < before.texts().len() {
                                assert(before.texts()[at] == k);
                            }
                        }
                    }
                    assert forall|k: Seq<char>| self@.dom().contains(k) implies self@[k]
                        == before@.insert(key@, value@)[k] by {
                        let at = self.place(k);
                        assert(self.texts()[at] == k);
                        if at < before.texts().len() {
                            assert(before.texts()[at] == k);
                            assert(before.place(k) == at);
                        }
                    }
                    assert(self@ =~= before@.insert(key@, value@));
                }
            },
        }
    }

    /// The key at a position. Every key has one.
    pub fn key_at(&self, i: usize) -> (key: &str)
        requires
            i < self.key_order().len(),
        ensures
            self@.dom().contains(key@),
            key@ == self.key_order()[i as int],
    {
        proof {
            use_type_invariant(self);
        }
        assert(self.texts()[i as int] == self.keys@[i as int]@);
        self.keys[i].as_str()
    }

    /// The keys in the order of their first insertion.
    pub closed spec fn key_order(self) -> Seq<Seq<char>> {
        self.texts()
    }

    /// The order of keys lists every key.
    pub proof fn key_order_lists(&self)
        ensures
            forall|key: Seq<char>| #[trigger]
                self@.dom().contains(key) <==> listed(self.key_order(), key),
    {
    }
}

impl<V: Record> Clone for TextTable<V> {
    fn clone(&self) -> (copy: TextTable<V>)
        ensures
            copy@ == self@,
    {
        proof {
            use_type_invariant(self);
        }
        let mut keys: Vec<String> = Vec::new();
        let mut values: Vec<V> = Vec::new();
        let mut i: usize = 0;
        while i < self.keys.len()
            invariant
                self.paired(),
                i <= self.keys@.len(),
                keys@.len() == i,
                values@.len() == i,
                forall|j: int| 0 <= j < i ==> (#[trigger] keys@[j])@ == self.keys@[j]@,
                forall|j: int| 0 <= j < i ==> (#[trigger] values@[j])@ == self.values@[j]@,
            decreases self.keys.len() - i,
        {
            keys.push(self.keys[i].clone());
            values.push(self.values[i].dup());
            i += 1;
        }
        proof {
            assert(Seq::new(keys@.len(), |i: int| keys@[i]@) =~= self.texts());
        }
        let copy = TextTable { keys, values };
        proof {
            assert(copy.texts() =~= self.texts());
            assert forall|k: Seq<char>| self@.dom().contains(k) implies copy@[k] == self@[k] by {
                let at = self.place(k);
                assert(self.texts()[at] == k);
                assert(copy.place(k) == at);
            }
            assert(copy@ =~= self@);
        }
        copy
    }
}

} // verus!
