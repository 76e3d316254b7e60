//! What is stored is what is read back: the maps, the feed, the indexes and the rows.
use vstd::prelude::*;

use crate::account::AccountId;
use crate::activity::ActivityFeed;
use crate::common::capped_u64;
use crate::indexes::names_under;
use crate::ordered::{MapKey, OrderedMap};
use crate::registry::TlaRegistry;
use crate::types::{
    time_lifecycle, ActivityRecord, LifecycleClock, LifecycleStatus, NftContractMetadata, PremiumCategory, SubAccountEntry,
};

verus! {

// ---- maps -------------------------------------------------------------------------------------

/// Writing a key hands back what it had before, gives it the new value and leaves every other key alone.
pub proof fn a_written_key_has_its_value<K: MapKey, V>(map: &mut OrderedMap<K, V>, k: K, v: V, other: K::Ident, r: Option<V>)
    requires
        call_ensures(OrderedMap::<K, V>::insert, (map, k, v), r),
        other != k.ident(),
    ensures
        r is Some <==> old(map)@.map.contains_key(k.ident()),
        r matches Some(before) ==> before == old(map)@.map[k.ident()],
        final(map)@.map == old(map)@.map.insert(k.ident(), v),
        final(map)@.map.contains_key(other) == old(map)@.map.contains_key(other),
        final(map)@.map[other] == old(map)@.map[other],
        r is Some ==> final(map)@.keys == old(map)@.keys,
        r is None ==> final(map)@.keys == old(map)@.keys.push(k.ident()),
{
}

/// Taking a key out hands back what it had and leaves every other key alone.
pub proof fn a_removed_key_is_gone<K: MapKey, V>(map: &mut OrderedMap<K, V>, k: K, other: K::Ident, r: Option<V>)
    requires
        call_ensures(OrderedMap::<K, V>::remove, (map, &k), r),
        other != k.ident(),
    ensures
        r is Some <==> old(map)@.map.contains_key(k.ident()),
        r matches Some(before) ==> before == old(map)@.map[k.ident()],
        !final(map)@.map.contains_key(k.ident()),
        final(map)@.map.contains_key(other) == old(map)@.map.contains_key(other),
        final(map)@.map[other] == old(map)@.map[other],
{
}

/// A map answers by its contents: a key is found exactly if it is there, with its value, and the positions walk the keys in order.
pub proof fn a_map_answers_by_its_contents<K: MapKey, V>(
    map: OrderedMap<K, V>,
    k: K,
    has: bool,
    got: Option<&V>,
    n: usize,
    empty: bool,
    i: usize,
    at: &K,
    value: &V,
    place: Option<usize>,
)
    requires
        call_ensures(OrderedMap::<K, V>::contains_key, (&map, &k), has),
        call_ensures(OrderedMap::<K, V>::get, (&map, &k), got),
        call_ensures(OrderedMap::<K, V>::len, (&map,), n),
        call_ensures(OrderedMap::<K, V>::is_empty, (&map,), empty),
        call_ensures(OrderedMap::<K, V>::key_at, (&map, i), at),
        call_ensures(OrderedMap::<K, V>::value_at, (&map, i), value),
        call_ensures(OrderedMap::<K, V>::position, (&map, &k), place),
    ensures
        has <==> map@.map.contains_key(k.ident()),
        got is Some <==> map@.map.contains_key(k.ident()),
        got matches Some(v) ==> *v == map@.map[k.ident()],
        n == map@.keys.len(),
        empty <==> map@.keys.len() == 0,
        at.ident() == map@.keys[i as int],
        *value == map@.map[map@.keys[i as int]],
        place is Some <==> map@.map.contains_key(k.ident()),
        place matches Some(p) ==> p < map@.keys.len() && map@.keys[p as int] == k.ident(),
{
}

// ---- the feed ---------------------------------------------------------------------------------

/// A record comes first in the feed; the others keep their order behind it, and only what no longer fits into two hundred and fifty six falls off.
pub proof fn the_newest_record_comes_first(feed: &mut ActivityFeed, record: ActivityRecord, n: usize, i: usize, r: &ActivityRecord)
    requires
        old(feed)@.len() <= 256,
        call_ensures(ActivityFeed::push_activity, (feed, record), ()),
        call_ensures(ActivityFeed::len, (final(feed),), n),
        call_ensures(ActivityFeed::nth, (final(feed), i), r),
    ensures
        n == (if old(feed)@.len() < 256 {
            old(feed)@.len() + 1
        } else {
            256
        }),
        i == 0 ==> *r == record,
        0 < i < n ==> *r == old(feed)@[i - 1],
{
}

// ---- the rows and their indexes ---------------------------------------------------------------

/// A name that is written has its row and stands in the lists of its owner and of its account; no other name and no other list changes.
pub proof fn a_written_name_is_listed(registry: &mut TlaRegistry, key: AccountId, entry: SubAccountEntry, o: AccountId, k: AccountId)
    requires
        call_ensures(TlaRegistry::sub_account_insert, (registry, key, entry), ()),
        old(registry).indexed(),
    ensures
        final(registry).sub_accounts@.map == old(registry).sub_accounts@.map.insert(key, entry),
        names_under(final(registry).sub_accounts_by_owner@, o).contains(k) <==> names_under(
            old(registry).sub_accounts_by_owner@,
            o,
        ).contains(k) || (o == entry.owner && k == key),
        names_under(final(registry).sub_accounts_by_tla@, o).contains(k) <==> names_under(
            old(registry).sub_accounts_by_tla@,
            o,
        ).contains(k) || (o == entry.tla_id && k == key),
        *final(registry) == (TlaRegistry {
            sub_accounts: final(registry).sub_accounts,
            sub_accounts_by_owner: final(registry).sub_accounts_by_owner,
            sub_accounts_by_tla: final(registry).sub_accounts_by_tla,
            ..*old(registry)
        }),
{
    crate::indexes::lemma_index_with(old(registry).sub_accounts_by_owner@, entry.owner, key);
    crate::indexes::lemma_index_with(old(registry).sub_accounts_by_tla@, entry.tla_id, key);
}

/// A name that is taken out is handed back and leaves its row and its two lists, and no list stays behind empty; nothing else changes, and an unknown name changes nothing.
pub proof fn a_removed_name_is_listed_no_more(registry: &mut TlaRegistry, key: AccountId, o: AccountId, k: AccountId, r: Option<SubAccountEntry>)
    requires
        call_ensures(TlaRegistry::sub_account_remove, (registry, &key), r),
        old(registry).indexed(),
    ensures
        r is Some <==> old(registry).sub_accounts@.has(key),
        r is None ==> *final(registry) == *old(registry),
        r matches Some(row) ==> {
            &&& row == old(registry).sub_accounts@[key]
            &&& final(registry).sub_accounts@.map == old(registry).sub_accounts@.map.remove(key)
            &&& names_under(final(registry).sub_accounts_by_owner@, o).contains(k) <==> names_under(
                old(registry).sub_accounts_by_owner@,
                o,
            ).contains(k) && !(o == row.owner && k == key)
            &&& names_under(final(registry).sub_accounts_by_tla@, o).contains(k) <==> names_under(
                old(registry).sub_accounts_by_tla@,
                o,
            ).contains(k) && !(o == row.tla_id && k == key)
            &&& final(registry).sub_accounts_by_owner@.contains_key(o) ==> final(registry).sub_accounts_by_owner@[o].len() > 0
            &&& final(registry).sub_accounts_by_tla@.contains_key(o) ==> final(registry).sub_accounts_by_tla@[o].len() > 0
            &&& *final(registry) == (TlaRegistry {
                sub_accounts: final(registry).sub_accounts,
                sub_accounts_by_owner: final(registry).sub_accounts_by_owner,
                sub_accounts_by_tla: final(registry).sub_accounts_by_tla,
                ..*old(registry)
            })
        },
{
    if let Some(row) = r {
        crate::indexes::lemma_index_without(old(registry).sub_accounts_by_owner@, row.owner, key);
        crate::indexes::lemma_index_without(old(registry).sub_accounts_by_tla@, row.tla_id, key);
    }
}

/// A known name passes to its new owner and payout account and moves from the one owner's list to the other's; its lease and its account stay.
pub proof fn a_name_passes_to_its_new_owner(
    registry: &mut TlaRegistry,
    key: AccountId,
    owner: AccountId,
    payout: AccountId,
    o: AccountId,
    k: AccountId,
    r: bool,
)
    requires
        call_ensures(TlaRegistry::sub_account_reassign, (registry, &key, &owner, &payout), r),
        old(registry).indexed(),
    ensures
        r <==> old(registry).sub_accounts@.has(key),
        !r ==> *final(registry) == *old(registry),
        r ==> {
            let row = old(registry).sub_accounts@[key];
            &&& final(registry).sub_accounts@.map == old(registry).sub_accounts@.map.insert(
                key,
                (SubAccountEntry {
                    tla_id: row.tla_id,
                    owner,
                    payout_account: payout,
                    rented_at: row.rented_at,
                    expires_at: row.expires_at,
                    retraction_at: row.retraction_at,
                }),
            )
            &&& names_under(final(registry).sub_accounts_by_owner@, o).contains(k) <==> if k == key {
                o == owner
            } else {
                names_under(old(registry).sub_accounts_by_owner@, o).contains(k)
            }
            &&& *final(registry) == (TlaRegistry {
                sub_accounts: final(registry).sub_accounts,
                sub_accounts_by_owner: final(registry).sub_accounts_by_owner,
                ..*old(registry)
            })
        },
{
    if r {
        let before = old(registry).sub_accounts_by_owner@;
        let from = old(registry).sub_accounts@[key].owner;
        crate::indexes::lemma_index_without(before, from, key);
        crate::indexes::lemma_index_with(crate::indexes::index_without(before, from, key), owner, key);
        assert(names_under(before, from).contains(key));
        assert(names_under(before, o).contains(key) ==> o == from);
    }
}

// ---- times, factors and texts -----------------------------------------------------------------

/// A lease is active before its end, in grace until the grace has passed and the floor is reached, and reclaimable from both on.
pub proof fn a_lease_runs_out_in_order(end: u64, clock: LifecycleClock, now: u64, at: u64, r: LifecycleStatus)
    requires
        call_ensures(LifecycleClock::reclaimable_at, (&clock, end), at),
        call_ensures(time_lifecycle, (end, &clock, now), r),
    ensures
        r is Active <==> now < end,
        r is Reclaimable <==> now >= end && now >= capped_u64(end + clock.grace_period_ns) && now >= clock.reclaim_floor_ns,
        r is Grace <==> now >= end && !(now >= capped_u64(end + clock.grace_period_ns) && now >= clock.reclaim_floor_ns),
        now >= at <==> now >= capped_u64(end + clock.grace_period_ns) && now >= clock.reclaim_floor_ns,
{
}

/// What a category multiplies a tier by, as a fraction.
pub proof fn the_fixed_factors(category: PremiumCategory, r: (u128, u128))
    requires
        call_ensures(PremiumCategory::multiplier, (&category,), r),
    ensures
        category is Legendary ==> r == (5u128, 1u128),
        category is Premium ==> r == (3u128, 1u128),
        category is Standard ==> r == (3u128, 2u128),
        category is Community ==> r == (0u128, 1u128),
{
}

/// Of two times the later one is one of them, and neither is later.
pub proof fn the_later_of_two_times(a: u64, b: u64, r: u64)
    requires
        call_ensures(crate::common::later, (a, b), r),
    ensures
        r >= a,
        r >= b,
        r == a || r == b,
{
}

/// A number is written with its last digit behind the text of the rest.
pub proof fn a_number_ends_in_its_last_digit(n: u64, r: String, tens: String)
    requires
        call_ensures(crate::text::decimal_text, (n,), r),
        call_ensures(crate::text::decimal_text, (n / 10,), tens),
    ensures
        r@.last() as int == 48 + n % 10,
        n < 10 ==> r@.len() == 1,
        n >= 10 ==> r@.drop_last() == tens@,
{
    if n >= 10 {
        assert(r@.drop_last() =~= tens@);
    }
}

/// The collection is described as it is stored.
pub proof fn the_collection_is_described_as_stored(registry: TlaRegistry, r: NftContractMetadata)
    requires
        call_ensures(TlaRegistry::nft_metadata, (&registry,), r),
    ensures
        r == registry.nft_contract_metadata,
{
}

} // verus!
