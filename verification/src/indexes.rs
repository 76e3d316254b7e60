//! Which names stand under which account.
use vstd::prelude::*;

use crate::account::AccountId;
use crate::ordered::OrderedMap;
use crate::registry::TlaRegistry;
use crate::types::SubAccountEntry;

verus! {

/// The names under an account; none where the index does not know it.
pub open spec fn names_under(index: Map<AccountId, Seq<AccountId>>, id: AccountId) -> Seq<AccountId> {
    if index.contains_key(id) {
        index[id]
    } else {
        Seq::empty()
    }
}

/// The index with `key` under `id`, at the end unless it stood there already.
pub open spec fn index_with(index: Map<AccountId, Seq<AccountId>>, id: AccountId, key: AccountId) -> Map<
    AccountId,
    Seq<AccountId>,
> {
    let keys = names_under(index, id);
    if keys.contains(key) {
        index
    } else {
        index.insert(id, keys.push(key))
    }
}

/// The index without `key` under `id`; an account with no name left is forgotten.
pub open spec fn index_without(index: Map<AccountId, Seq<AccountId>>, id: AccountId, key: AccountId) -> Map<
    AccountId,
    Seq<AccountId>,
> {
    let keys = crate::ordered::swap_removed(names_under(index, id), key);
    if keys.len() == 0 {
        index.remove(id)
    } else {
        index.insert(id, keys)
    }
}

/// Names by account, in the order in which they came. No account stands without a name.
pub struct NameIndex {
    lists: OrderedMap<AccountId, Vec<AccountId>>,
    model: Ghost<Map<AccountId, Seq<AccountId>>>,
}

impl View for NameIndex {
    type V = Map<AccountId, Seq<AccountId>>;

    closed spec fn view(&self) -> Map<AccountId, Seq<AccountId>> {
        self.model@
    }
}

fn find(keys: &Vec<AccountId>, key: &AccountId) -> (r: Option<usize>)
    ensures
        match r {
            Some(i) => i < keys@.len() && keys@[i as int] == *key && keys@.contains(*key),
            None => !keys@.contains(*key),
        },
{
    let mut i: usize = 0;
    while i < keys.len()
        invariant
            i <= keys@.len(),
            forall|j: int| 0 <= j < i ==> keys@[j] != *key,
        decreases keys@.len() - i,
    {
        if keys[i] == *key {
            return Some(i);
        }
        i += 1;
    }
    None
}

impl NameIndex {
    #[verifier::type_invariant]
    spec fn inv(self) -> bool {
        &&& forall|id: AccountId| #[trigger] self.model@.contains_key(id) <==> self.lists@.map.contains_key(id)
        &&& forall|id: AccountId| #[trigger] self.model@.contains_key(id) ==> {
            &&& self.model@[id] == self.lists@.map[id]@
            &&& self.model@[id].len() > 0
            &&& self.model@[id].no_duplicates()
        }
    }

    pub fn new() -> (r: Self)
        ensures
            r@ == Map::<AccountId, Seq<AccountId>>::empty(),
    {
        NameIndex { lists: OrderedMap::new(), model: Ghost(Map::empty()) }
    }

    /// Every account of the index has a name, and none has one twice.
    pub fn check_lists(&self)
        ensures
            forall|id: AccountId| #[trigger] self@.contains_key(id) ==> self@[id].len() > 0 && self@[id].no_duplicates(),
    {
        proof {
            use_type_invariant(self);
        }
    }

    /// The names under `id`.
    pub fn get(&self, id: &AccountId) -> (r: Option<&Vec<AccountId>>)
        ensures
            match r {
                Some(keys) => self@.contains_key(*id) && keys@ == self@[*id] && keys@.len() > 0,
                None => !self@.contains_key(*id),
            },
    {
        proof {
            use_type_invariant(self);
        }
        self.lists.get(id)
    }

    pub fn index_add(&mut self, id: &AccountId, key: &AccountId)
        ensures
            final(self)@ == index_with(old(self)@, *id, *key),
    {
        proof {
            use_type_invariant(&*self);
        }
        let ghost before = self.model@;
        let mut index = NameIndex::new();
        std::mem::swap(&mut index, self);
        proof {
            use_type_invariant(&index);
        }
        let NameIndex { mut lists, model } = index;
        let mut keys: Vec<AccountId> = match lists.remove(id) {
            Some(keys) => keys,
            None => Vec::new(),
        };
        assert(keys@ == names_under(before, *id));
        let ghost listed = keys@;
        if find(&keys, key).is_none() {
            keys.push(*key);
        }
        let ghost after_keys = keys@;
        lists.insert(*id, keys);
        let ghost after = before.insert(*id, after_keys);
        proof {
            assert(after_keys.no_duplicates());
            assert(after_keys.len() > 0) by {
                if listed.contains(*key) {
                    assert(listed.len() > 0);
                }
            }
            assert(after =~= index_with(before, *id, *key));
        }
        *self = NameIndex { lists, model: Ghost(after) };
    }

    pub fn index_remove(&mut self, id: &AccountId, key: &AccountId)
        ensures
            final(self)@ == index_without(old(self)@, *id, *key),
    {
        proof {
            use_type_invariant(&*self);
        }
        let ghost before = self.model@;
        let mut index = NameIndex::new();
        std::mem::swap(&mut index, self);
        proof {
            use_type_invariant(&index);
        }
        let NameIndex { mut lists, model } = index;
        match lists.remove(id) {
            Some(keys) => {
                let mut keys = keys;
                let ghost listed = keys@;
                assert(listed == names_under(before, *id));
                match find(&keys, key) {
                    Some(i) => {
                        assert(crate::ordered::position_of(listed, *key) == i);
                        let _ = keys.swap_remove(i);
                        proof {
                            assert(keys@ =~= crate::ordered::swap_removed(listed, *key));
                            assert forall|a: int, b: int| 0 <= a < b < keys@.len() implies keys@[a] != keys@[b] by {}
                        }
                    },
                    None => {},
                }
                let ghost after_keys = keys@;
                assert(after_keys == crate::ordered::swap_removed(listed, *key));
                if keys.len() > 0 {
                    lists.insert(*id, keys);
                    let ghost after = before.insert(*id, after_keys);
                    *self = NameIndex { lists, model: Ghost(after) };
                } else {
                    let ghost after = before.remove(*id);
                    *self = NameIndex { lists, model: Ghost(after) };
                }
            },
            None => {
                assert(before.remove(*id) =~= before);
                assert(names_under(before, *id) =~= Seq::empty());
                *self = NameIndex { lists, model: Ghost(before) };
            },
        }
    }
}

impl TlaRegistry {
    /// The two indexes list exactly the rented names, each under its owner and its top level account.
    pub open spec fn indexed(self) -> bool {
        &&& forall|k: AccountId| #[trigger] self.sub_accounts@.has(k) ==> {
            &&& names_under(self.sub_accounts_by_owner@, self.sub_accounts@[k].owner).contains(k)
            &&& names_under(self.sub_accounts_by_tla@, self.sub_accounts@[k].tla_id).contains(k)
        }
        &&& forall|o: AccountId, k: AccountId| #[trigger] names_under(self.sub_accounts_by_owner@, o).contains(k)
            ==> self.sub_accounts@.has(k) && self.sub_accounts@[k].owner == o
        &&& forall|t: AccountId, k: AccountId| #[trigger] names_under(self.sub_accounts_by_tla@, t).contains(k)
            ==> self.sub_accounts@.has(k) && self.sub_accounts@[k].tla_id == t
        &&& lists_distinct(self.sub_accounts_by_owner@)
        &&& lists_distinct(self.sub_accounts_by_tla@)
    }

    pub fn sub_account_insert(&mut self, key: AccountId, entry: SubAccountEntry)
        ensures
            final(self).sub_accounts@ == old(self).sub_accounts@.insert(key, entry),
            final(self).sub_accounts_by_owner@ == index_with(old(self).sub_accounts_by_owner@, entry.owner, key),
            final(self).sub_accounts_by_tla@ == index_with(old(self).sub_accounts_by_tla@, entry.tla_id, key),
            *final(self) == (TlaRegistry {
                sub_accounts: final(self).sub_accounts,
                sub_accounts_by_owner: final(self).sub_accounts_by_owner,
                sub_accounts_by_tla: final(self).sub_accounts_by_tla,
                ..*old(self)
            }),
            old(self).indexed() && !old(self).sub_accounts@.has(key) ==> final(self).indexed(),
    {
        self.owner_index_add(&entry.owner, &key);
        self.sub_accounts_by_tla.index_add(&entry.tla_id, &key);
        self.sub_accounts.insert(key, entry);
        proof {
            if old(self).indexed() && !old(self).sub_accounts@.has(key) {
                lemma_index_with(old(self).sub_accounts_by_owner@, entry.owner, key);
                lemma_index_with(old(self).sub_accounts_by_tla@, entry.tla_id, key);
                assert forall|k: AccountId| #[trigger] self.sub_accounts@.has(k) implies names_under(
                    self.sub_accounts_by_owner@,
                    self.sub_accounts@[k].owner,
                ).contains(k) && names_under(self.sub_accounts_by_tla@, self.sub_accounts@[k].tla_id).contains(k) by {
                    if k != key {
                        assert(old(self).sub_accounts@.has(k));
                    }
                }
            }
        }
    }

    pub fn sub_account_remove(&mut self, key: &AccountId) -> (r: Option<SubAccountEntry>)
        ensures
            r == old(self).sub_accounts@.get(*key),
            match r {
                Some(removed) => {
                    &&& final(self).sub_accounts@ == old(self).sub_accounts@.remove(*key)
                    &&& final(self).sub_accounts_by_owner@ == index_without(
                        old(self).sub_accounts_by_owner@,
                        removed.owner,
                        *key,
                    )
                    &&& final(self).sub_accounts_by_tla@ == index_without(
                        old(self).sub_accounts_by_tla@,
                        removed.tla_id,
                        *key,
                    )
                    &&& *final(self) == (TlaRegistry {
                        sub_accounts: final(self).sub_accounts,
                        sub_accounts_by_owner: final(self).sub_accounts_by_owner,
                        sub_accounts_by_tla: final(self).sub_accounts_by_tla,
                        ..*old(self)
                    })
                },
                None => *final(self) == *old(self),
            },
            old(self).indexed() ==> final(self).indexed(),
    {
        let removed = match self.sub_accounts.get(key) {
            Some(sub) => *sub,
            None => {
                return None;
            },
        };
        self.sub_accounts.remove(key);
        self.sub_accounts_by_owner.index_remove(&removed.owner, key);
        self.sub_accounts_by_tla.index_remove(&removed.tla_id, key);
        proof {
            if old(self).indexed() {
                lemma_index_without(old(self).sub_accounts_by_owner@, removed.owner, *key);
                lemma_index_without(old(self).sub_accounts_by_tla@, removed.tla_id, *key);
                assert forall|k: AccountId| #[trigger] self.sub_accounts@.has(k) implies names_under(
                    self.sub_accounts_by_owner@,
                    self.sub_accounts@[k].owner,
                ).contains(k) && names_under(self.sub_accounts_by_tla@, self.sub_accounts@[k].tla_id).contains(k) by {
                    assert(old(self).sub_accounts@.has(k));
                }
            }
        }
        Some(removed)
    }

    /// Hands a rented name to `owner`. Says whether there was one.
    pub fn sub_account_reassign(&mut self, key: &AccountId, owner: &AccountId, payout: &AccountId) -> (r: bool)
        ensures
            r == old(self).sub_accounts@.has(*key),
            !r ==> *final(self) == *old(self),
            r ==> {
                let before = old(self).sub_accounts@[*key];
                &&& final(self).sub_accounts@ == old(self).sub_accounts@.insert(
                    *key,
                    (SubAccountEntry { owner: *owner, payout_account: *payout, ..before }),
                )
                &&& final(self).sub_accounts_by_owner@ == (if before.owner == *owner {
                    old(self).sub_accounts_by_owner@
                } else {
                    index_with(index_without(old(self).sub_accounts_by_owner@, before.owner, *key), *owner, *key)
                })
                &&& *final(self) == (TlaRegistry {
                    sub_accounts: final(self).sub_accounts,
                    sub_accounts_by_owner: final(self).sub_accounts_by_owner,
                    ..*old(self)
                })
            },
            old(self).indexed() ==> final(self).indexed(),
    {
        let sub = match self.sub_accounts.get(key) {
            Some(sub) => *sub,
            None => {
                return false;
            },
        };
        self.sub_accounts.insert(*key, SubAccountEntry { owner: *owner, payout_account: *payout, ..sub });
        if sub.owner != *owner {
            self.sub_accounts_by_owner.index_remove(&sub.owner, key);
            self.owner_index_add(owner, key);
        }
        proof {
            if old(self).indexed() {
                assert(old(self).sub_accounts@.has(*key));
                lemma_index_without(old(self).sub_accounts_by_owner@, sub.owner, *key);
                lemma_index_with(index_without(old(self).sub_accounts_by_owner@, sub.owner, *key), *owner, *key);
                assert forall|k: AccountId| #[trigger] self.sub_accounts@.has(k) implies names_under(
                    self.sub_accounts_by_owner@,
                    self.sub_accounts@[k].owner,
                ).contains(k) && names_under(self.sub_accounts_by_tla@, self.sub_accounts@[k].tla_id).contains(k) by {
                    assert(old(self).sub_accounts@.has(k));
                }
            }
        }
        true
    }

    fn owner_index_add(&mut self, owner: &AccountId, key: &AccountId)
        ensures
            final(self).sub_accounts_by_owner@ == index_with(old(self).sub_accounts_by_owner@, *owner, *key),
            *final(self) == (TlaRegistry {
                sub_accounts_by_owner: final(self).sub_accounts_by_owner,
                ..*old(self)
            }),
    {
        self.sub_accounts_by_owner.index_add(owner, key);
    }
}

/// No list of an index is empty or names an account twice.
pub open spec fn lists_distinct(index: Map<AccountId, Seq<AccountId>>) -> bool {
    forall|id: AccountId| #[trigger] index.contains_key(id) ==> index[id].len() > 0 && index[id].no_duplicates()
}

/// Adding a name touches one list only, and that list then holds it.
pub proof fn lemma_index_with(index: Map<AccountId, Seq<AccountId>>, id: AccountId, key: AccountId)
    requires
        lists_distinct(index),
    ensures
        lists_distinct(index_with(index, id, key)),
        forall|o: AccountId, k: AccountId| #[trigger] names_under(index_with(index, id, key), o).contains(k)
            <==> names_under(index, o).contains(k) || (o == id && k == key),
{
    let keys = names_under(index, id);
    let after = index_with(index, id, key);
    assert forall|o: AccountId, k: AccountId| #[trigger] names_under(after, o).contains(k) <==> names_under(
        index,
        o,
    ).contains(k) || (o == id && k == key) by {
        if o == id && !keys.contains(key) {
            assert(names_under(after, o) =~= keys.push(key));
            if keys.push(key).contains(k) {
                let i = choose|i: int| 0 <= i < keys.push(key).len() && keys.push(key)[i] == k;
                if i < keys.len() {
                    assert(keys[i] == k);
                }
            }
            if keys.contains(k) {
                let i = choose|i: int| 0 <= i < keys.len() && keys[i] == k;
                assert(keys.push(key)[i] == k);
            }
            assert(keys.push(key)[keys.len() as int] == key);
        }
    }
    assert forall|o: AccountId| #[trigger] after.contains_key(o) implies after[o].len() > 0 && after[o].no_duplicates() by {
        if o == id {
            assert(keys.no_duplicates());
        } else {
            assert(index.contains_key(o));
        }
    }
}

/// Taking a name out touches one list only, and that list then does not hold it.
pub proof fn lemma_index_without(index: Map<AccountId, Seq<AccountId>>, id: AccountId, key: AccountId)
    requires
        lists_distinct(index),
    ensures
        lists_distinct(index_without(index, id, key)),
        forall|o: AccountId, k: AccountId| #[trigger] names_under(index_without(index, id, key), o).contains(k)
            <==> names_under(index, o).contains(k) && !(o == id && k == key),
{
    let keys = names_under(index, id);
    let left = crate::ordered::swap_removed(keys, key);
    let after = index_without(index, id, key);
    assert(keys.no_duplicates());
    let n = keys.len() - 1;
    if keys.contains(key) {
        let p = crate::ordered::position_of(keys, key);
        assert(0 <= p < keys.len() && keys[p] == key);
        assert forall|i: int| 0 <= i < left.len() implies #[trigger] left[i] == (if i == p { keys[n] } else { keys[i] }) by {}
        assert forall|k: AccountId| #[trigger] left.contains(k) <==> keys.contains(k) && k != key by {
            if left.contains(k) {
                let i = choose|i: int| 0 <= i < left.len() && left[i] == k;
                let src = if i == p { n } else { i };
                assert(keys[src] == k);
            }
            if keys.contains(k) && k != key {
                let i = choose|i: int| 0 <= i < keys.len() && keys[i] == k;
                let dst = if i == n { p } else { i };
                assert(left[dst] == k);
            }
        }
        assert(left.no_duplicates()) by {
            assert forall|a: int, b: int| 0 <= a < b < left.len() implies left[a] != left[b] by {
                let sa = if a == p { n } else { a };
                let sb = if b == p { n } else { b };
                assert(left[a] == keys[sa] && left[b] == keys[sb]);
            }
        }
    }
    assert forall|o: AccountId, k: AccountId| #[trigger] names_under(after, o).contains(k) <==> names_under(
        index,
        o,
    ).contains(k) && !(o == id && k == key) by {
        if o == id {
            assert(names_under(after, o) =~= left);
            assert(left.contains(k) <==> keys.contains(k) && k != key);
        }
    }
}

} // verus!
