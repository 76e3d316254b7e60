//! Maps and sets that remember the order in which their keys arrived.
//!
//! A new key goes to the end. Taking a key out moves the last key into its place. Looking a key up
//! walks the keys.
use vstd::prelude::*;

use crate::account::AccountId;

verus! {

/// A key of an [`OrderedMap`]: what two keys must share to be the same key.
pub trait MapKey: Sized {
    type Ident;

    spec fn ident(&self) -> Self::Ident;

    fn same(&self, other: &Self) -> (r: bool)
        ensures
            r == (self.ident() == other.ident()),
    ;
}

impl MapKey for AccountId {
    type Ident = AccountId;

    open spec fn ident(&self) -> AccountId {
        *self
    }

    fn same(&self, other: &Self) -> (r: bool) {
        *self == *other
    }
}

impl MapKey for String {
    type Ident = Seq<char>;

    open spec fn ident(&self) -> Seq<char> {
        self@
    }

    fn same(&self, other: &Self) -> (r: bool) {
        *self == *other
    }
}

impl MapKey for (AccountId, AccountId) {
    type Ident = (AccountId, AccountId);

    open spec fn ident(&self) -> (AccountId, AccountId) {
        *self
    }

    fn same(&self, other: &Self) -> (r: bool) {
        self.0 == other.0 && self.1 == other.1
    }
}

/// The position of `k` in a sequence without repeats.
pub open spec fn position_of<I>(keys: Seq<I>, k: I) -> int {
    choose|i: int| 0 <= i < keys.len() && keys[i] == k
}

/// The keys once `k` is gone: the last one takes its place.
pub open spec fn swap_removed<I>(keys: Seq<I>, k: I) -> Seq<I> {
    if keys.contains(k) {
        keys.update(position_of(keys, k), keys.last()).drop_last()
    } else {
        keys
    }
}

/// What an [`OrderedMap`] holds: its keys in order, and the value of each.
#[verifier::ext_equal]
#[verifier::reject_recursive_types(I)]
pub struct OrderedView<I, V> {
    pub keys: Seq<I>,
    pub map: Map<I, V>,
}

impl<I, V> OrderedView<I, V> {
    pub open spec fn empty() -> Self {
        OrderedView { keys: Seq::empty(), map: Map::empty() }
    }

    pub open spec fn has(self, k: I) -> bool {
        self.map.contains_key(k)
    }

    pub open spec fn get(self, k: I) -> Option<V> {
        if self.map.contains_key(k) {
            Some(self.map[k])
        } else {
            None
        }
    }

    pub open spec fn spec_index(self, k: I) -> V {
        self.map[k]
    }

    pub open spec fn len(self) -> nat {
        self.keys.len()
    }

    pub open spec fn insert(self, k: I, v: V) -> Self {
        OrderedView {
            keys: if self.map.contains_key(k) {
                self.keys
            } else {
                self.keys.push(k)
            },
            map: self.map.insert(k, v),
        }
    }

    pub open spec fn remove(self, k: I) -> Self {
        OrderedView { keys: swap_removed(self.keys, k), map: self.map.remove(k) }
    }

    /// Every key stands once in the order, and every key of the order has a value.
    pub open spec fn consistent(self) -> bool {
        &&& self.keys.no_duplicates()
        &&& forall|k: I| #[trigger] self.keys.contains(k) <==> self.map.contains_key(k)
    }
}

struct Entries<K: MapKey, V> {
    keys: Vec<K>,
    vals: Vec<V>,
    model: Ghost<OrderedView<K::Ident, V>>,
}

impl<K: MapKey, V> Entries<K, V> {
    spec fn wf(self) -> bool {
        let m = self.model@;
        &&& self.keys@.len() == m.keys.len()
        &&& self.vals@.len() == m.keys.len()
        &&& m.consistent()
        &&& forall|i: int| #![trigger m.keys[i]]
            0 <= i < m.keys.len() ==> self.keys@[i].ident() == m.keys[i] && m.map.contains_key(m.keys[i])
                && m.map[m.keys[i]] == self.vals@[i]
    }

    fn new() -> (r: Self)
        ensures
            r.wf(),
            r.model@ == OrderedView::<K::Ident, V>::empty(),
    {
        Entries { keys: Vec::new(), vals: Vec::new(), model: Ghost(OrderedView::empty()) }
    }

    fn find(&self, k: &K) -> (r: Option<usize>)
        requires
            self.wf(),
        ensures
            match r {
                Some(i) => i < self.model@.keys.len() && self.model@.keys[i as int] == k.ident(),
                None => !self.model@.keys.contains(k.ident()),
            },
    {
        let mut i: usize = 0;
        while i < self.keys.len()
            invariant
                self.wf(),
                i <= self.keys@.len(),
                forall|j: int| 0 <= j < i ==> #[trigger] self.model@.keys[j] != k.ident(),
            decreases self.keys@.len() - i,
        {
            assert(self.keys@[i as int].ident() == self.model@.keys[i as int]);
            if self.keys[i].same(k) {
                return Some(i);
            }
            i += 1;
        }
        None
    }

    fn insert(&mut self, k: K, v: V) -> (r: Option<V>)
        requires
            old(self).wf(),
        ensures
            final(self).wf(),
            final(self).model@ == old(self).model@.insert(k.ident(), v),
            r == old(self).model@.get(k.ident()),
    {
        let ghost m = self.model@;
        let ghost id = k.ident();
        match self.find(&k) {
            Some(i) => {
                assert(m.keys.contains(id));
                let mut held = v;
                std::mem::swap(&mut self.vals[i], &mut held);
                self.model = Ghost(m.insert(id, v));
                Some(held)
            },
            None => {
                assert(!m.map.contains_key(id));
                self.keys.push(k);
                self.vals.push(v);
                self.model = Ghost(m.insert(id, v));
                proof {
                    let n = self.model@;
                    assert forall|x: K::Ident| #[trigger] n.keys.contains(x) <==> n.map.contains_key(x) by {
                        if n.keys.contains(x) {
                            let j = choose|j: int| 0 <= j < n.keys.len() && n.keys[j] == x;
                            if j < m.keys.len() {
                                assert(m.keys[j] == x);
                                assert(m.keys.contains(x));
                            }
                        }
                        if n.map.contains_key(x) {
                            if x == id {
                                assert(n.keys[m.keys.len() as int] == x);
                            } else {
                                assert(m.keys.contains(x));
                                let j = choose|j: int| 0 <= j < m.keys.len() && m.keys[j] == x;
                                assert(n.keys[j] == x);
                            }
                        }
                    }
                    assert forall|i: int| #![trigger n.keys[i]] 0 <= i < n.keys.len() implies
                        self.keys@[i].ident() == n.keys[i] && n.map.contains_key(n.keys[i]) && n.map[n.keys[i]] == self.vals@[i] by {
                        if i < m.keys.len() {
                            assert(m.keys[i] == n.keys[i]);
                            assert(m.keys.contains(m.keys[i]));
                        }
                    }
                    assert(n.keys.no_duplicates()) by {
                        assert forall|i: int, j: int| 0 <= i < j < n.keys.len() implies n.keys[i] != n.keys[j] by {
                            assert(m.keys[i] == n.keys[i]);
                            assert(m.keys.contains(m.keys[i]));
                        }
                    }
                }
                None
            },
        }
    }

    fn remove(&mut self, k: &K) -> (r: Option<V>)
        requires
            old(self).wf(),
        ensures
            final(self).wf(),
            final(self).model@ == old(self).model@.remove(k.ident()),
            r == old(self).model@.get(k.ident()),
    {
        let ghost m = self.model@;
        let ghost id = k.ident();
        match self.find(k) {
            Some(i) => {
                assert(m.keys.contains(id));
                let ghost p = position_of(m.keys, id);
                assert(p == i);
                let _ = self.keys.swap_remove(i);
                let held = self.vals.swap_remove(i);
                self.model = Ghost(m.remove(id));
                proof {
                    let n = self.model@;
                    let last = m.keys.len() - 1;
                    assert(n.keys.len() == last);
                    assert forall|j: int| 0 <= j < last implies #[trigger] n.keys[j] == (if j == i { m.keys[last] } else { m.keys[j] }) by {}
                    assert forall|j: int| #![trigger n.keys[j]] 0 <= j < n.keys.len() implies
                        self.keys@[j].ident() == n.keys[j] && n.map.contains_key(n.keys[j]) && n.map[n.keys[j]] == self.vals@[j] by {
                        let src = if j == i { last } else { j };
                        assert(n.keys[j] == m.keys[src]);
                        assert(m.keys.contains(m.keys[src]));
                        assert(m.keys[src] != m.keys[i as int]);
                    }
                    assert forall|x: K::Ident| #[trigger] n.keys.contains(x) <==> n.map.contains_key(x) by {
                        if n.keys.contains(x) {
                            let j = choose|j: int| 0 <= j < n.keys.len() && n.keys[j] == x;
                            assert(n.map.contains_key(n.keys[j]));
                        }
                        if n.map.contains_key(x) {
                            assert(m.keys.contains(x));
                            let j = choose|j: int| 0 <= j < m.keys.len() && m.keys[j] == x;
                            if j == last {
                                assert(n.keys[i as int] == x);
                            } else {
                                assert(n.keys[j] == x);
                            }
                        }
                    }
                    assert(n.keys.no_duplicates()) by {
                        assert forall|a: int, b: int| 0 <= a < b < n.keys.len() implies n.keys[a] != n.keys[b] by {
                            let sa = if a == i { last } else { a };
                            let sb = if b == i { last } else { b };
                            assert(n.keys[a] == m.keys[sa] && n.keys[b] == m.keys[sb]);
                        }
                    }
                }
                Some(held)
            },
            None => {
                self.model = Ghost(m.remove(id));
                assert(self.model@ =~= m);
                None
            },
        }
    }
}

/// A map whose keys keep an order.
pub struct OrderedMap<K: MapKey, V> {
    entries: Entries<K, V>,
}

impl<K: MapKey, V> View for OrderedMap<K, V> {
    type V = OrderedView<K::Ident, V>;

    closed spec fn view(&self) -> OrderedView<K::Ident, V> {
        self.entries.model@
    }
}

impl<K: MapKey, V> OrderedMap<K, V> {
    #[verifier::type_invariant]
    spec fn inv(self) -> bool {
        self.entries.wf()
    }

    pub fn new() -> (r: Self)
        ensures
            r@ == OrderedView::<K::Ident, V>::empty(),
    {
        OrderedMap { entries: Entries::new() }
    }

    pub fn len(&self) -> (r: usize)
        ensures
            r == self@.len(),
    {
        proof {
            use_type_invariant(self);
        }
        self.entries.keys.len()
    }

    pub fn is_empty(&self) -> (r: bool)
        ensures
            r == (self@.len() == 0),
    {
        self.len() == 0
    }

    pub fn contains_key(&self, k: &K) -> (r: bool)
        ensures
            r == self@.has(k.ident()),
    {
        proof {
            use_type_invariant(self);
        }
        match self.entries.find(k) {
            Some(i) => {
                assert(self@.keys.contains(k.ident()));
                true
            },
            None => false,
        }
    }

    pub fn get(&self, k: &K) -> (r: Option<&V>)
        ensures
            match r {
                Some(v) => self@.has(k.ident()) && *v == self@[k.ident()],
                None => !self@.has(k.ident()),
            },
    {
        proof {
            use_type_invariant(self);
        }
        match self.entries.find(k) {
            Some(i) => {
                assert(self@.keys.contains(k.ident()));
                Some(&self.entries.vals[i])
            },
            None => {
                assert(!self@.keys.contains(k.ident()));
                None
            },
        }
    }

    /// The key at position `i` of the order.
    pub fn key_at(&self, i: usize) -> (r: &K)
        requires
            i < self@.len(),
        ensures
            r.ident() == self@.keys[i as int],
            self@.has(r.ident()),
    {
        proof {
            use_type_invariant(self);
            assert(self@.keys[i as int] == self.entries.keys@[i as int].ident());
        }
        &self.entries.keys[i]
    }

    /// The value of the key at position `i` of the order.
    pub fn value_at(&self, i: usize) -> (r: &V)
        requires
            i < self@.len(),
        ensures
            *r == self@[self@.keys[i as int]],
            self@.has(self@.keys[i as int]),
    {
        proof {
            use_type_invariant(self);
            assert(self@.keys[i as int] == self.entries.keys@[i as int].ident());
        }
        &self.entries.vals[i]
    }

    /// Where `k` stands in the order.
    pub fn position(&self, k: &K) -> (r: Option<usize>)
        ensures
            match r {
                Some(i) => i < self@.len() && self@.keys[i as int] == k.ident() && self@.has(k.ident())
                    && i == position_of(self@.keys, k.ident()),
                None => !self@.has(k.ident()) && !self@.keys.contains(k.ident()),
            },
    {
        proof {
            use_type_invariant(self);
        }
        let r = self.entries.find(k);
        proof {
            if let Some(i) = r {
                assert(self@.keys.contains(k.ident()));
            } else {
                assert(!self@.keys.contains(k.ident()));
            }
        }
        r
    }

    pub fn insert(&mut self, k: K, v: V) -> (r: Option<V>)
        ensures
            final(self)@ == old(self)@.insert(k.ident(), v),
            r == old(self)@.get(k.ident()),
    {
        proof {
            use_type_invariant(&*self);
        }
        let mut entries = Entries::new();
        std::mem::swap(&mut entries, &mut self.entries);
        let r = entries.insert(k, v);
        self.entries = entries;
        r
    }

    pub fn remove(&mut self, k: &K) -> (r: Option<V>)
        ensures
            final(self)@ == old(self)@.remove(k.ident()),
            r == old(self)@.get(k.ident()),
    {
        proof {
            use_type_invariant(&*self);
        }
        let mut entries = Entries::new();
        std::mem::swap(&mut entries, &mut self.entries);
        let r = entries.remove(k);
        self.entries = entries;
        r
    }
}

/// A set whose members keep an order.
pub type OrderedSet<K> = OrderedMap<K, ()>;

} // verus!
