//! Ordered association tables.

use crate::bytes;
use crate::bytes::Order;
use vstd::prelude::*;

verus! {

/// A key with a total order given by the bytes of its rank.
pub trait Key: Copy {
    /// The bytes by which keys are ordered.
    spec fn rank(self) -> Seq<u8>;

    /// Different keys have different ranks.
    proof fn rank_injective(a: Self, b: Self)
        requires
            a.rank() == b.rank(),
        ensures
            a == b,
    ;

    fn order(&self, other: &Self) -> (order: Order)
        ensures
            order == Order::Less <==> bytes::lex_lt(self.rank(), other.rank()),
            order == Order::Greater <==> bytes::lex_lt(other.rank(), self.rank()),
            order == Order::Equal <==> *self == *other,
    ;
}

/// A value that can be copied without changing what it stands for.
pub trait Record: View + Sized {
    fn dup(&self) -> (copy: Self)
        ensures
            copy@ == self@,
    ;
}

/// The keys stand in strictly ascending order.
pub open spec fn ascending<K: Key, W>(pairs: Seq<(K, W)>) -> bool {
    forall|i: int, j: int|
        #![trigger pairs[i], pairs[j]]
        0 <= i < j < pairs.len() ==> bytes::lex_lt(pairs[i].0.rank(), pairs[j].0.rank())
}

/// Some pair has the key `key`.
pub open spec fn has_key<K: Key, W>(pairs: Seq<(K, W)>, key: K) -> bool {
    exists|i: int| 0 <= i < pairs.len() && (#[trigger] pairs[i]).0 == key
}

/// The map from each key to the value beside it.
pub open spec fn map_of<K: Key, W>(pairs: Seq<(K, W)>) -> Map<K, W> {
    Map::new(
        |key: K| has_key(pairs, key),
        |key: K| pairs[choose|i: int| 0 <= i < pairs.len() && (#[trigger] pairs[i]).0 == key].1,
    )
}

/// `pairs` lists the map `entries` in ascending key order.
pub open spec fn lists<K: Key, W>(pairs: Seq<(K, W)>, entries: Map<K, W>) -> bool {
    ascending(pairs) && map_of(pairs) == entries
}

/// The keys of one pair more.
pub proof fn has_key_next<K: Key, W>(pairs: Seq<(K, W)>, i: int)
    requires
        0 <= i < pairs.len(),
    ensures
        forall|key: K| #[trigger]
            has_key(pairs.take(i + 1), key) <==> has_key(pairs.take(i), key) || key == pairs[i].0,
{
    let shorter = pairs.take(i);
    let longer = pairs.take(i + 1);
    assert forall|key: K| #[trigger] has_key(longer, key) <==> has_key(shorter, key) || key
        == pairs[i].0 by {
        if has_key(longer, key) {
            let j = choose|j: int| 0 <= j < longer.len() && (#[trigger] longer[j]).0 == key;
            if j < i {
                assert(shorter[j].0 == key);
            }
        }
        if has_key(shorter, key) {
            let j = choose|j: int| 0 <= j < shorter.len() && (#[trigger] shorter[j]).0 == key;
            assert(longer[j].0 == key);
        }
        assert(longer[i].0 == pairs[i].0);
    }
}

/// In ascending pairs each position holds the value of its key.
pub proof fn ascending_at<K: Key, W>(pairs: Seq<(K, W)>, i: int)
    requires
        ascending(pairs),
        0 <= i < pairs.len(),
    ensures
        map_of(pairs).dom().contains(pairs[i].0),
        map_of(pairs)[pairs[i].0] == pairs[i].1,
        forall|j: int| 0 <= j < pairs.len() && (#[trigger] pairs[j]).0 == pairs[i].0 ==> j == i,
{
    let key = pairs[i].0;
    assert(has_key(pairs, key));
    assert forall|j: int| 0 <= j < pairs.len() && (#[trigger] pairs[j]).0 == key implies j == i by {
        bytes::lex_irreflexive(key.rank());
    }
    let k = choose|k: int| 0 <= k < pairs.len() && (#[trigger] pairs[k]).0 == key;
    assert(k == i);
}

/// Two ascending lists of one map are the same list.
pub proof fn lists_unique<K: Key, W>(a: Seq<(K, W)>, b: Seq<(K, W)>, entries: Map<K, W>)
    requires
        lists(a, entries),
        lists(b, entries),
    ensures
        a == b,
    decreases a.len(),
{
    if a.len() == 0 {
        if b.len() > 0 {
            ascending_at(b, 0);
            assert(has_key(a, b[0].0));
        }
        assert(a =~= b);
    } else {
        ascending_at(a, a.len() - 1);
        let key = a.last().0;
        assert(has_key(b, key));
        let j = choose|j: int| 0 <= j < b.len() && (#[trigger] b[j]).0 == key;
        ascending_at(b, j);
        if j < b.len() - 1 {
            let top = b.last().0;
            ascending_at(b, b.len() - 1);
            assert(has_key(a, top));
            let i = choose|i: int| 0 <= i < a.len() && (#[trigger] a[i]).0 == top;
            assert(bytes::lex_lt(b[j].0.rank(), b[b.len() - 1].0.rank()));
            if i < a.len() - 1 {
                assert(bytes::lex_lt(a[i].0.rank(), a[a.len() - 1].0.rank()));
                bytes::lex_transitive(key.rank(), top.rank(), key.rank());
            }
            bytes::lex_irreflexive(key.rank());
        }
        let shorter_a = a.drop_last();
        let shorter_b = b.drop_last();
        let shorter = entries.remove(key);
        assert forall|k: K| has_key(shorter_a, k) <==> (entries.dom().contains(k) && k != key) by {
            if has_key(shorter_a, k) {
                let i = choose|i: int| 0 <= i < shorter_a.len() && (#[trigger] shorter_a[i]).0 == k;
                ascending_at(a, i);
                assert(a[i].0 == k);
            }
            if entries.dom().contains(k) && k != key {
                assert(has_key(a, k));
                let i = choose|i: int| 0 <= i < a.len() && (#[trigger] a[i]).0 == k;
                assert(shorter_a[i].0 == k);
            }
        }
        assert forall|k: K| has_key(shorter_b, k) <==> (entries.dom().contains(k) && k != key) by {
            if has_key(shorter_b, k) {
                let i = choose|i: int| 0 <= i < shorter_b.len() && (#[trigger] shorter_b[i]).0 == k;
                ascending_at(b, i);
                assert(b[i].0 == k);
            }
            if entries.dom().contains(k) && k != key {
                assert(has_key(b, k));
                let i = choose|i: int| 0 <= i < b.len() && (#[trigger] b[i]).0 == k;
                assert(shorter_b[i].0 == k);
            }
        }
        assert(ascending(shorter_a));
        assert(ascending(shorter_b));
        assert forall|k: K| map_of(shorter_a).dom().contains(k) implies map_of(shorter_a)[k]
            == shorter[k] by {
            let i = choose|i: int| 0 <= i < shorter_a.len() && (#[trigger] shorter_a[i]).0 == k;
            ascending_at(shorter_a, i);
            ascending_at(a, i);
            assert(a[i] == shorter_a[i]);
        }
        assert forall|k: K| map_of(shorter_b).dom().contains(k) implies map_of(shorter_b)[k]
            == shorter[k] by {
            let i = choose|i: int| 0 <= i < shorter_b.len() && (#[trigger] shorter_b[i]).0 == k;
            ascending_at(shorter_b, i);
            ascending_at(b, i);
            assert(b[i] == shorter_b[i]);
        }
        assert(map_of(shorter_a) =~= shorter);
        assert(map_of(shorter_b) =~= shorter);
        lists_unique(shorter_a, shorter_b, shorter);
        assert(a =~= shorter_a.push(a.last()));
        assert(b =~= shorter_b.push(b.last()));
        assert(a.last().1 == b.last().1);
    }
}

/// Among the entries that are wanted, `key` is that of the first.
pub open spec fn is_first<K: Key, W>(
    entries: Map<K, W>,
    wanted: spec_fn(K, W) -> bool,
    key: K,
) -> bool {
    &&& entries.dom().contains(key)
    &&& wanted(key, entries[key])
    &&& forall|other: K|
        #[trigger] entries.dom().contains(other) && wanted(other, entries[other]) ==> other == key
            || bytes::lex_lt(key.rank(), other.rank())
}

/// The first key, in ascending order, whose entry is wanted.
pub open spec fn first_key<K: Key, W>(
    entries: Map<K, W>,
    wanted: spec_fn(K, W) -> bool,
) -> Option<K> {
    if exists|key: K| is_first(entries, wanted, key) {
        Some(choose|key: K| is_first(entries, wanted, key))
    } else {
        None
    }
}

/// A position whose entry is wanted, with none wanted before it, is the first.
pub proof fn first_key_at<K: Key, W>(
    pairs: Seq<(K, W)>,
    entries: Map<K, W>,
    wanted: spec_fn(K, W) -> bool,
    i: int,
)
    requires
        lists(pairs, entries),
        0 <= i < pairs.len(),
        wanted(pairs[i].0, pairs[i].1),
        forall|j: int| 0 <= j < i ==> !wanted((#[trigger] pairs[j]).0, pairs[j].1),
    ensures
        first_key(entries, wanted) == Some(pairs[i].0),
        entries.dom().contains(pairs[i].0),
        entries[pairs[i].0] == pairs[i].1,
{
    let key = pairs[i].0;
    ascending_at(pairs, i);
    assert forall|other: K|
        #[trigger] entries.dom().contains(other) && wanted(
            other,
            entries[other],
        ) implies other == key || bytes::lex_lt(key.rank(), other.rank()) by {
        assert(has_key(pairs, other));
        let j = choose|j: int| 0 <= j < pairs.len() && (#[trigger] pairs[j]).0 == other;
        ascending_at(pairs, j);
        if j > i {
            assert(bytes::lex_lt(pairs[i].0.rank(), pairs[j].0.rank()));
        }
    }
    assert(is_first(entries, wanted, key));
    let chosen = choose|key: K| is_first(entries, wanted, key);
    assert(is_first(entries, wanted, chosen));
    if chosen != key {
        bytes::lex_transitive(key.rank(), chosen.rank(), key.rank());
        bytes::lex_irreflexive(key.rank());
    }
}

/// In a finite map with a wanted entry one wanted entry is the first.
pub proof fn first_key_exists<K: Key, W>(
    entries: Map<K, W>,
    wanted: spec_fn(K, W) -> bool,
    key: K,
)
    requires
        entries.dom().finite(),
        entries.dom().contains(key),
        wanted(key, entries[key]),
    ensures
        first_key(entries, wanted) is Some,
{
    first_among(entries, wanted, entries.dom(), key);
}

/// Some wanted key of a finite set stands before the other wanted ones.
proof fn first_among<K: Key, W>(
    entries: Map<K, W>,
    wanted: spec_fn(K, W) -> bool,
    keys: Set<K>,
    key: K,
) -> (first: K)
    requires
        keys.finite(),
        keys.contains(key),
        wanted(key, entries[key]),
    ensures
        keys.contains(first),
        wanted(first, entries[first]),
        forall|other: K| #[trigger]
            keys.contains(other) && wanted(other, entries[other]) ==> other == first
                || bytes::lex_lt(first.rank(), other.rank()),
        keys == entries.dom() ==> is_first(entries, wanted, first),
    decreases keys.len(),
{
    let rest = keys.remove(key);
    let first = if exists|other: K| #[trigger] rest.contains(other) && wanted(other, entries[other]) {
        let other = choose|other: K| #[trigger]
            rest.contains(other) && wanted(other, entries[other]);
        let found = first_among(entries, wanted, rest, other);
        bytes::lex_total(key.rank(), found.rank());
        if bytes::lex_lt(found.rank(), key.rank()) {
            found
        } else {
            if key.rank() == found.rank() {
                K::rank_injective(key, found);
            }
            assert forall|other: K| #[trigger]
                keys.contains(other) && wanted(other, entries[other]) implies other == key
                || bytes::lex_lt(key.rank(), other.rank()) by {
                if other != key {
                    assert(rest.contains(other));
                    if other != found {
                        bytes::lex_transitive(key.rank(), found.rank(), other.rank());
                    }
                }
            }
            key
        }
    } else {
        assert forall|other: K| #[trigger]
            keys.contains(other) && wanted(other, entries[other]) implies other == key by {
            if other != key {
                assert(rest.contains(other));
            }
        }
        key
    };
    assert forall|other: K| #[trigger]
        keys.contains(other) && wanted(other, entries[other]) implies other == first
        || bytes::lex_lt(first.rank(), other.rank()) by {
        if other != key {
            assert(rest.contains(other));
        }
    }
    first
}

/// Where no entry is wanted there is no first key.
pub proof fn first_key_none<K: Key, W>(
    pairs: Seq<(K, W)>,
    entries: Map<K, W>,
    wanted: spec_fn(K, W) -> bool,
)
    requires
        lists(pairs, entries),
        forall|j: int| 0 <= j < pairs.len() ==> !wanted((#[trigger] pairs[j]).0, pairs[j].1),
    ensures
        first_key(entries, wanted) is None,
        forall|key: K| #[trigger] entries.dom().contains(key) ==> !wanted(key, entries[key]),
{
    assert forall|key: K| #[trigger] entries.dom().contains(key) implies !wanted(
        key,
        entries[key],
    ) by {
        assert(has_key(pairs, key));
        let j = choose|j: int| 0 <= j < pairs.len() && (#[trigger] pairs[j]).0 == key;
        ascending_at(pairs, j);
    }
}

/// Replacing the value at one position.
proof fn map_of_update<K: Key, W>(pairs: Seq<(K, W)>, i: int, key: K, value: W)
    requires
        ascending(pairs),
        0 <= i < pairs.len(),
        pairs[i].0 == key,
    ensures
        ascending(pairs.update(i, (key, value))),
        map_of(pairs.update(i, (key, value))) == map_of(pairs).insert(key, value),
{
    let next = pairs.update(i, (key, value));
    assert(ascending(next)) by {
        assert forall|x: int, y: int| 0 <= x < y < next.len() implies bytes::lex_lt(
            (#[trigger] next[x]).0.rank(),
            (#[trigger] next[y]).0.rank(),
        ) by {
            assert(bytes::lex_lt(pairs[x].0.rank(), pairs[y].0.rank()));
        }
    }
    assert forall|k: K| has_key(next, k) <==> has_key(pairs, k) by {
        if has_key(next, k) {
            let x = choose|x: int| 0 <= x < next.len() && (#[trigger] next[x]).0 == k;
            assert(pairs[x].0 == k);
        }
        if has_key(pairs, k) {
            let x = choose|x: int| 0 <= x < pairs.len() && (#[trigger] pairs[x]).0 == k;
            assert(next[x].0 == k);
        }
    }
    ascending_at(pairs, i);
    ascending_at(next, i);
    assert forall|k: K| has_key(next, k) implies map_of(next)[k] == map_of(pairs).insert(
        key,
        value,
    )[k] by {
        let x = choose|x: int| 0 <= x < next.len() && (#[trigger] next[x]).0 == k;
        ascending_at(next, x);
        ascending_at(pairs, x);
    }
    assert(map_of(next) =~= map_of(pairs).insert(key, value));
}

/// Inserting a new key at its position.
proof fn map_of_insert<K: Key, W>(pairs: Seq<(K, W)>, i: int, key: K, value: W)
    requires
        ascending(pairs),
        0 <= i <= pairs.len(),
        forall|x: int| 0 <= x < i ==> bytes::lex_lt((#[trigger] pairs[x]).0.rank(), key.rank()),
        i < pairs.len() ==> bytes::lex_lt(key.rank(), pairs[i].0.rank()),
    ensures
        ascending(pairs.insert(i, (key, value))),
        map_of(pairs.insert(i, (key, value))) == map_of(pairs).insert(key, value),
{
    let next = pairs.insert(i, (key, value));
    assert forall|x: int| i <= x < pairs.len() implies bytes::lex_lt(
        key.rank(),
        (#[trigger] pairs[x]).0.rank(),
    ) by {
        if x > i {
            assert(bytes::lex_lt(pairs[i].0.rank(), pairs[x].0.rank()));
            bytes::lex_transitive(key.rank(), pairs[i].0.rank(), pairs[x].0.rank());
        }
    }
    assert(ascending(next)) by {
        assert forall|x: int, y: int| 0 <= x < y < next.len() implies bytes::lex_lt(
            (#[trigger] next[x]).0.rank(),
            (#[trigger] next[y]).0.rank(),
        ) by {
            if x < i && y < i {
                assert(bytes::lex_lt(pairs[x].0.rank(), pairs[y].0.rank()));
            } else if x < i && y == i {
                assert(bytes::lex_lt(pairs[x].0.rank(), key.rank()));
            } else if x < i {
                assert(bytes::lex_lt(pairs[x].0.rank(), pairs[y - 1].0.rank()));
            } else if x == i {
                assert(bytes::lex_lt(key.rank(), pairs[y - 1].0.rank()));
            } else {
                assert(bytes::lex_lt(pairs[x - 1].0.rank(), pairs[y - 1].0.rank()));
            }
        }
    }
    assert forall|k: K| has_key(next, k) <==> (has_key(pairs, k) || k == key) by {
        if has_key(next, k) {
            let x = choose|x: int| 0 <= x < next.len() && (#[trigger] next[x]).0 == k;
            if x < i {
                assert(pairs[x].0 == k);
            } else if x > i {
                assert(pairs[x - 1].0 == k);
            }
        }
        if has_key(pairs, k) {
            let x = choose|x: int| 0 <= x < pairs.len() && (#[trigger] pairs[x]).0 == k;
            if x < i {
                assert(next[x].0 == k);
            } else {
                assert(next[x + 1].0 == k);
            }
        }
        assert(next[i].0 == key);
    }
    assert forall|k: K| has_key(next, k) implies map_of(next)[k] == map_of(pairs).insert(
        key,
        value,
    )[k] by {
        let x = choose|x: int| 0 <= x < next.len() && (#[trigger] next[x]).0 == k;
        ascending_at(next, x);
        if x < i {
            ascending_at(pairs, x);
            assert(next[x] == pairs[x]);
            if k == key {
                bytes::lex_irreflexive(key.rank());
            }
        } else if x > i {
            ascending_at(pairs, x - 1);
            assert(next[x] == pairs[x - 1]);
            if k == key {
                bytes::lex_irreflexive(key.rank());
            }
        }
    }
    assert(map_of(next) =~= map_of(pairs).insert(key, value));
}

/// An association table whose entries stand in ascending key order.
pub struct Table<K: Key, V: Record> {
    entries: Vec<(K, V)>,
}

impl<K: Key, V: Record> View for Table<K, V> {
    type V = Map<K, V::V>;

    closed spec fn view(&self) -> Map<K, V::V> {
        map_of(self.pairs())
    }
}

impl<K: Key, V: Record> Clone for Table<K, V> {
    fn clone(&self) -> (copy: Self)
        ensures
            copy@ == self@,
            copy.pairs() == self.pairs(),
    {
        proof {
            use_type_invariant(self);
        }
        let mut entries: Vec<(K, V)> = Vec::new();
        let mut i: usize = 0;
        while i < self.entries.len()
            invariant
                i <= self.entries.len(),
                entries@.len() == i,
                forall|j: int|
                    0 <= j < i ==> (#[trigger] entries@[j]).0 == self.entries@[j].0
                        && entries@[j].1@ == self.entries@[j].1@,
            decreases self.entries.len() - i,
        {
            entries.push((self.entries[i].0, self.entries[i].1.dup()));
            i += 1;
        }
        assert(Seq::new(entries@.len(), |j: int| (entries@[j].0, entries@[j].1@))
            =~= self.pairs());
        Table { entries }
    }
}

impl<K: Key, V: Record> Table<K, V> {
    /// Keys and viewed values in ascending key order.
    pub closed spec fn pairs(&self) -> Seq<(K, V::V)> {
        Seq::new(self.entries@.len(), |i: int| (self.entries@[i].0, self.entries@[i].1@))
    }

    #[verifier::type_invariant]
    spec fn holds(self) -> bool {
        ascending(self.pairs())
    }

    /// The table without entries.
    pub fn new() -> (table: Self)
        ensures
            table@ == Map::<K, V::V>::empty(),
    {
        let table = Table { entries: Vec::new() };
        assert(table@ =~= Map::<K, V::V>::empty());
        table
    }

    /// Number of entries. The pairs of a table list its contents.
    pub fn len(&self) -> (len: usize)
        ensures
            len == self.pairs().len(),
            lists(self.pairs(), self@),
    {
        proof {
            use_type_invariant(self);
        }
        self.entries.len()
    }

    /// The key at a position of the ascending order.
    pub fn key_at(&self, i: usize) -> (key: K)
        requires
            i < self.pairs().len(),
        ensures
            key == self.pairs()[i as int].0,
    {
        self.entries[i].0
    }

    /// The value at a position of the ascending order.
    pub fn value_at(&self, i: usize) -> (value: &V)
        requires
            i < self.pairs().len(),
        ensures
            value@ == self.pairs()[i as int].1,
    {
        &self.entries[i].1
    }

    /// Copies of the values in ascending key order.
    pub fn values(&self) -> (values: Vec<V>)
        ensures
            values@.len() == self.pairs().len(),
            forall|i: int| 0 <= i < values@.len() ==> (#[trigger] values@[i])@ == self.pairs()[i].1,
            lists(self.pairs(), self@),
    {
        proof {
            use_type_invariant(self);
        }
        let mut values: Vec<V> = Vec::new();
        let mut i: usize = 0;
        while i < self.entries.len()
            invariant
                i <= self.entries.len(),
                values@.len() == i,
                forall|j: int|
                    0 <= j < i ==> (#[trigger] values@[j])@ == self.pairs()[j].1,
            decreases self.entries.len() - i,
        {
            values.push(self.entries[i].1.dup());
            i += 1;
        }
        values
    }

    /// The value of a key.
    pub fn get(&self, key: &K) -> (found: Option<&V>)
        ensures
            match found {
                Some(value) => self@.dom().contains(*key) && self@[*key] == value@,
                None => !self@.dom().contains(*key),
            },
    {
        proof {
            use_type_invariant(self);
        }
        let mut i: usize = 0;
        while i < self.entries.len()
            invariant
                i <= self.entries.len(),
                ascending(self.pairs()),
                forall|j: int| 0 <= j < i ==> (#[trigger] self.pairs()[j]).0 != *key,
            decreases self.entries.len() - i,
        {
            let order = self.entries[i].0.order(key);
            if let Order::Equal = order {
                proof {
                    assert(self.pairs()[i as int].0 == *key);
                    ascending_at(self.pairs(), i as int);
                }
                return Some(&self.entries[i].1);
            }
            i += 1;
        }
        assert(!has_key(self.pairs(), *key));
        None
    }

    /// Whether a key has a value.
    pub fn contains(&self, key: &K) -> (found: bool)
        ensures
            found == self@.dom().contains(*key),
    {
        self.get(key).is_some()
    }

    /// Sets the value of a key.
    pub fn insert(&mut self, key: K, value: V)
        ensures
            final(self)@ == old(self)@.insert(key, value@),
    {
        proof {
            use_type_invariant(&*self);
        }
        let ghost pairs = self.pairs();
        let mut entries: Vec<(K, V)> = Vec::new();
        std::mem::swap(&mut entries, &mut self.entries);
        let mut i: usize = 0;
        while i < entries.len()
            invariant
                i <= entries.len(),
                entries@.len() == pairs.len(),
                forall|j: int|
                    0 <= j < pairs.len() ==> #[trigger] pairs[j] == (entries@[j].0, entries@[j].1@),
                ascending(pairs),
                forall|j: int| 0 <= j < i ==> bytes::lex_lt((#[trigger] pairs[j]).0.rank(), key.rank()),
            ensures
                i <= entries.len(),
                forall|j: int| 0 <= j < i ==> bytes::lex_lt((#[trigger] pairs[j]).0.rank(), key.rank()),
                i < entries.len() ==> !bytes::lex_lt(pairs[i as int].0.rank(), key.rank()),
            decreases entries.len() - i,
        {
            let order = entries[i].0.order(&key);
            assert(pairs[i as int].0 == entries@[i as int].0);
            match order {
                Order::Less => {},
                _ => {
                    break ;
                },
            }
            i += 1;
        }
        let mut present = false;
        if i < entries.len() {
            let order = entries[i].0.order(&key);
            assert(pairs[i as int].0 == entries@[i as int].0);
            if let Order::Equal = order {
                present = true;
            }
        }
        let ghost shown = value@;
        if present {
            proof {
                map_of_update(pairs, i as int, key, shown);
            }
            entries.set(i, (key, value));
            proof {
                assert(Seq::new(entries@.len(), |j: int| (entries@[j].0, entries@[j].1@))
                    =~= pairs.update(i as int, (key, shown)));
            }
        } else {
            proof {
                if i < pairs.len() {
                    bytes::lex_total(key.rank(), pairs[i as int].0.rank());
                }
                map_of_insert(pairs, i as int, key, shown);
            }
            entries.insert(i, (key, value));
            proof {
                assert(Seq::new(entries@.len(), |j: int| (entries@[j].0, entries@[j].1@))
                    =~= pairs.insert(i as int, (key, shown)));
            }
        }
        self.entries = entries;
    }
}

} // verus!
