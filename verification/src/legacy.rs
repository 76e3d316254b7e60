//! States that earlier versions left, and how each becomes the current one.
use vstd::prelude::*;

use crate::account::AccountId;
use crate::activity::ActivityFeed;
use crate::host::Env;
use crate::indexes::NameIndex;
use crate::nft::initial_metadata;
use crate::ordered::{OrderedMap, OrderedSet};
use crate::registry::{TlaRegistry, CONTRACT_VERSION, PRODUCTION_LEASE_TERM_NS, STATE_VERSION, UPGRADE_DELAY_NS};
use crate::types::{
    AcceptedOffer, FeeConfig, Listing, NftContractMetadata, PaidOrderState, ParkedEntry,
    SubAccountEntry, TlaEntry, TlaTerms,
};

verus! {

/// The most retired entries that one migration removes from a map.
pub const MIGRATION_DRAIN_CAP: usize = 200;

/// The state from before it carried a version, with the listings and offers of that time.
pub struct LegacyTlaRegistry {
    pub tlas: OrderedMap<AccountId, TlaEntry>,
    pub sub_accounts: OrderedMap<AccountId, SubAccountEntry>,
    pub sub_accounts_by_owner: NameIndex,
    pub sub_accounts_by_tla: NameIndex,
    pub recent_activity: ActivityFeed,
    pub admins: OrderedSet<AccountId>,
    pub fee_config: FeeConfig,
    pub total_revenue: u128,
    pub sub_account_count: u64,
    pub paused: bool,
    pub version: u8,
    pub pending_refunds: OrderedMap<AccountId, u128>,
    pub total_pending_refunds: u128,
    pub ft_allowlist: OrderedSet<AccountId>,
    pub business_sub_count: OrderedMap<AccountId, u32>,
    pub business_sub_cap_override: OrderedMap<AccountId, u32>,
    pub parked_names: OrderedMap<String, ParkedEntry>,
    pub reclaim_pending: OrderedSet<AccountId>,
    pub payment_authorities: OrderedSet<AccountId>,
    pub recovery_authorities: OrderedSet<AccountId>,
    pub hos_extension: AccountId,
    pub grace_period_ns: u64,
    pub price_oracle: AccountId,
    pub near_usd_rate_micro: u128,
    pub rate_updated_at: u64,
    pub rate_sequence: u64,
    pub treasury: AccountId,
    pub council: AccountId,
    pub marketplace_paused: bool,
    pub paused_until_ns: u64,
    pub unpaused_at: u64,
    pub sweepable_tokens: OrderedSet<AccountId>,
    pub suspended_until: OrderedMap<AccountId, u64>,
    pub listings: OrderedMap<AccountId, Listing>,
    pub accepted_offers: OrderedMap<AccountId, AcceptedOffer>,
}

/// The first state that carried its version.
pub struct TlaRegistryV1 {
    pub state_version: u16,
    pub tlas: OrderedMap<AccountId, TlaEntry>,
    pub sub_accounts: OrderedMap<AccountId, SubAccountEntry>,
    pub sub_accounts_by_owner: NameIndex,
    pub sub_accounts_by_tla: NameIndex,
    pub recent_activity: ActivityFeed,
    pub admins: OrderedSet<AccountId>,
    pub fee_config: FeeConfig,
    pub total_revenue: u128,
    pub sub_account_count: u64,
    pub paused: bool,
    pub version: u8,
    pub pending_refunds: OrderedMap<AccountId, u128>,
    pub total_pending_refunds: u128,
    pub ft_allowlist: OrderedSet<AccountId>,
    pub business_sub_count: OrderedMap<AccountId, u32>,
    pub business_sub_cap_override: OrderedMap<AccountId, u32>,
    pub parked_names: OrderedMap<String, ParkedEntry>,
    pub reclaim_pending: OrderedSet<AccountId>,
    pub payment_authorities: OrderedSet<AccountId>,
    pub recovery_authorities: OrderedSet<AccountId>,
    pub hos_extension: AccountId,
    pub grace_period_ns: u64,
    pub price_oracle: AccountId,
    pub near_usd_rate_micro: u128,
    pub rate_updated_at: u64,
    pub rate_sequence: u64,
    pub treasury: AccountId,
    pub council: AccountId,
    pub marketplace_paused: bool,
    pub paused_until_ns: u64,
    pub unpaused_at: u64,
    pub sweepable_tokens: OrderedSet<AccountId>,
    pub suspended_until: OrderedMap<AccountId, u64>,
    pub authority_allowances: OrderedMap<(AccountId, AccountId), u64>,
    pub authority_mints: OrderedMap<(AccountId, AccountId), u64>,
    pub nft_contract_metadata: NftContractMetadata,
    pub approved_code_hash: Option<[u8; 32]>,
    pub approved_at: Option<u64>,
    pub upgrade_delay_ns: u64,
    pub venues: OrderedSet<AccountId>,
    pub upgrade_proven: bool,
}

/// The state before a treasury could be rotated.
pub struct TlaRegistryV4 {
    pub state_version: u16,
    pub tlas: OrderedMap<AccountId, TlaEntry>,
    pub sub_accounts: OrderedMap<AccountId, SubAccountEntry>,
    pub sub_accounts_by_owner: NameIndex,
    pub sub_accounts_by_tla: NameIndex,
    pub recent_activity: ActivityFeed,
    pub admins: OrderedSet<AccountId>,
    pub fee_config: FeeConfig,
    pub total_revenue: u128,
    pub sub_account_count: u64,
    pub paused: bool,
    pub version: u8,
    pub pending_refunds: OrderedMap<AccountId, u128>,
    pub total_pending_refunds: u128,
    pub ft_allowlist: OrderedSet<AccountId>,
    pub business_sub_count: OrderedMap<AccountId, u32>,
    pub business_sub_cap_override: OrderedMap<AccountId, u32>,
    pub parked_names: OrderedMap<String, ParkedEntry>,
    pub reclaim_pending: OrderedSet<AccountId>,
    pub payment_authorities: OrderedSet<AccountId>,
    pub recovery_authorities: OrderedSet<AccountId>,
    pub hos_extension: AccountId,
    pub grace_period_ns: u64,
    pub price_oracle: AccountId,
    pub near_usd_rate_micro: u128,
    pub rate_updated_at: u64,
    pub rate_sequence: u64,
    pub treasury: AccountId,
    pub council: AccountId,
    pub marketplace_paused: bool,
    pub paused_until_ns: u64,
    pub unpaused_at: u64,
    pub sweepable_tokens: OrderedSet<AccountId>,
    pub suspended_until: OrderedMap<AccountId, u64>,
    pub authority_allowances: OrderedMap<(AccountId, AccountId), u64>,
    pub authority_mints: OrderedMap<(AccountId, AccountId), u64>,
    pub nft_contract_metadata: NftContractMetadata,
    pub approved_code_hash: Option<[u8; 32]>,
    pub approved_at: Option<u64>,
    pub upgrade_delay_ns: u64,
    pub venues: OrderedSet<AccountId>,
    pub upgrade_proven: bool,
    pub tla_terms: OrderedMap<AccountId, TlaTerms>,
    pub lease_term_ns: u64,
    pub paid_order_ids: OrderedMap<String, PaidOrderState>,
    pub pending_council: Option<AccountId>,
    pub pending_council_at: Option<u64>,
}

/// What becomes of the first versioned state.
pub open spec fn v1_becomes(old_state: TlaRegistryV1, r: TlaRegistry) -> bool {
    &&& r == (TlaRegistry {
        state_version: STATE_VERSION,
        tlas: old_state.tlas,
        sub_accounts: old_state.sub_accounts,
        sub_accounts_by_owner: old_state.sub_accounts_by_owner,
        sub_accounts_by_tla: old_state.sub_accounts_by_tla,
        recent_activity: old_state.recent_activity,
        admins: old_state.admins,
        fee_config: old_state.fee_config,
        total_revenue: old_state.total_revenue,
        sub_account_count: old_state.sub_account_count,
        paused: old_state.paused,
        version: old_state.version,
        pending_refunds: old_state.pending_refunds,
        total_pending_refunds: old_state.total_pending_refunds,
        ft_allowlist: old_state.ft_allowlist,
        business_sub_count: old_state.business_sub_count,
        business_sub_cap_override: old_state.business_sub_cap_override,
        parked_names: old_state.parked_names,
        reclaim_pending: old_state.reclaim_pending,
        payment_authorities: old_state.payment_authorities,
        recovery_authorities: old_state.recovery_authorities,
        hos_extension: old_state.hos_extension,
        grace_period_ns: old_state.grace_period_ns,
        price_oracle: old_state.price_oracle,
        near_usd_rate_micro: old_state.near_usd_rate_micro,
        rate_updated_at: old_state.rate_updated_at,
        rate_sequence: old_state.rate_sequence,
        treasury: old_state.treasury,
        council: old_state.council,
        marketplace_paused: old_state.marketplace_paused,
        paused_until_ns: old_state.paused_until_ns,
        unpaused_at: old_state.unpaused_at,
        sweepable_tokens: old_state.sweepable_tokens,
        suspended_until: old_state.suspended_until,
        authority_allowances: old_state.authority_allowances,
        authority_mints: old_state.authority_mints,
        nft_contract_metadata: old_state.nft_contract_metadata,
        approved_code_hash: old_state.approved_code_hash,
        approved_at: old_state.approved_at,
        upgrade_delay_ns: old_state.upgrade_delay_ns,
        venues: old_state.venues,
        upgrade_proven: old_state.upgrade_proven,
        tla_terms: r.tla_terms,
        lease_term_ns: PRODUCTION_LEASE_TERM_NS,
        paid_order_ids: r.paid_order_ids,
        pending_council: None,
        pending_council_at: None,
        pending_treasury: None,
    })
    &&& r.tla_terms@ == crate::ordered::OrderedView::<AccountId, TlaTerms>::empty()
    &&& r.paid_order_ids@ == crate::ordered::OrderedView::<Seq<char>, PaidOrderState>::empty()
}

/// What becomes of the state before a treasury could be rotated.
pub open spec fn v4_becomes(old_state: TlaRegistryV4, r: TlaRegistry) -> bool {
    &&& r == (TlaRegistry {
        state_version: STATE_VERSION,
        tlas: old_state.tlas,
        sub_accounts: old_state.sub_accounts,
        sub_accounts_by_owner: old_state.sub_accounts_by_owner,
        sub_accounts_by_tla: old_state.sub_accounts_by_tla,
        recent_activity: old_state.recent_activity,
        admins: old_state.admins,
        fee_config: old_state.fee_config,
        total_revenue: old_state.total_revenue,
        sub_account_count: old_state.sub_account_count,
        paused: old_state.paused,
        version: old_state.version,
        pending_refunds: old_state.pending_refunds,
        total_pending_refunds: old_state.total_pending_refunds,
        ft_allowlist: old_state.ft_allowlist,
        business_sub_count: old_state.business_sub_count,
        business_sub_cap_override: old_state.business_sub_cap_override,
        parked_names: old_state.parked_names,
        reclaim_pending: old_state.reclaim_pending,
        payment_authorities: old_state.payment_authorities,
        recovery_authorities: old_state.recovery_authorities,
        hos_extension: old_state.hos_extension,
        grace_period_ns: old_state.grace_period_ns,
        price_oracle: old_state.price_oracle,
        near_usd_rate_micro: old_state.near_usd_rate_micro,
        rate_updated_at: old_state.rate_updated_at,
        rate_sequence: old_state.rate_sequence,
        treasury: old_state.treasury,
        council: old_state.council,
        marketplace_paused: old_state.marketplace_paused,
        paused_until_ns: old_state.paused_until_ns,
        unpaused_at: old_state.unpaused_at,
        sweepable_tokens: old_state.sweepable_tokens,
        suspended_until: old_state.suspended_until,
        authority_allowances: old_state.authority_allowances,
        authority_mints: old_state.authority_mints,
        nft_contract_metadata: old_state.nft_contract_metadata,
        approved_code_hash: old_state.approved_code_hash,
        approved_at: old_state.approved_at,
        upgrade_delay_ns: old_state.upgrade_delay_ns,
        venues: old_state.venues,
        upgrade_proven: old_state.upgrade_proven,
        tla_terms: old_state.tla_terms,
        lease_term_ns: old_state.lease_term_ns,
        paid_order_ids: old_state.paid_order_ids,
        pending_council: old_state.pending_council,
        pending_council_at: old_state.pending_council_at,
        pending_treasury: None,
    })
}

/// What becomes of the state from before versions.
pub open spec fn legacy_becomes(current: AccountId, old_state: LegacyTlaRegistry, r: TlaRegistry) -> bool {
    &&& r == (TlaRegistry {
        state_version: STATE_VERSION,
        tlas: old_state.tlas,
        sub_accounts: old_state.sub_accounts,
        sub_accounts_by_owner: old_state.sub_accounts_by_owner,
        sub_accounts_by_tla: old_state.sub_accounts_by_tla,
        recent_activity: old_state.recent_activity,
        admins: old_state.admins,
        fee_config: old_state.fee_config,
        total_revenue: old_state.total_revenue,
        sub_account_count: old_state.sub_account_count,
        paused: old_state.paused,
        version: CONTRACT_VERSION,
        pending_refunds: old_state.pending_refunds,
        total_pending_refunds: old_state.total_pending_refunds,
        ft_allowlist: old_state.ft_allowlist,
        business_sub_count: old_state.business_sub_count,
        business_sub_cap_override: old_state.business_sub_cap_override,
        parked_names: old_state.parked_names,
        reclaim_pending: old_state.reclaim_pending,
        payment_authorities: old_state.payment_authorities,
        recovery_authorities: old_state.recovery_authorities,
        hos_extension: old_state.hos_extension,
        grace_period_ns: old_state.grace_period_ns,
        price_oracle: old_state.price_oracle,
        near_usd_rate_micro: old_state.near_usd_rate_micro,
        rate_updated_at: old_state.rate_updated_at,
        rate_sequence: old_state.rate_sequence,
        treasury: old_state.treasury,
        council: old_state.council,
        marketplace_paused: old_state.marketplace_paused,
        paused_until_ns: old_state.paused_until_ns,
        unpaused_at: old_state.unpaused_at,
        sweepable_tokens: old_state.sweepable_tokens,
        suspended_until: old_state.suspended_until,
        authority_allowances: r.authority_allowances,
        authority_mints: r.authority_mints,
        nft_contract_metadata: r.nft_contract_metadata,
        approved_code_hash: None,
        approved_at: None,
        upgrade_delay_ns: UPGRADE_DELAY_NS,
        venues: r.venues,
        upgrade_proven: false,
        tla_terms: r.tla_terms,
        lease_term_ns: PRODUCTION_LEASE_TERM_NS,
        paid_order_ids: r.paid_order_ids,
        pending_council: None,
        pending_council_at: None,
        pending_treasury: None,
    })
    &&& r.tla_terms@ == crate::ordered::OrderedView::<AccountId, TlaTerms>::empty()
    &&& r.paid_order_ids@ == crate::ordered::OrderedView::<Seq<char>, PaidOrderState>::empty()
    &&& r.authority_allowances@ == crate::ordered::OrderedView::<(AccountId, AccountId), u64>::empty()
    &&& r.authority_mints@ == crate::ordered::OrderedView::<(AccountId, AccountId), u64>::empty()
    &&& r.venues@ == crate::ordered::OrderedView::<AccountId, ()>::empty()
    &&& crate::nft::is_initial_metadata(r.nft_contract_metadata, current)
}

/// Everything is kept. Leases get the production term, and nothing is agreed, ordered or pending yet.
pub fn from_v1(old_state: TlaRegistryV1) -> (r: TlaRegistry)
    ensures
        v1_becomes(old_state, r),
{
    let old = old_state;
    TlaRegistry {
        state_version: STATE_VERSION,
        tlas: old.tlas,
        sub_accounts: old.sub_accounts,
        sub_accounts_by_owner: old.sub_accounts_by_owner,
        sub_accounts_by_tla: old.sub_accounts_by_tla,
        recent_activity: old.recent_activity,
        admins: old.admins,
        fee_config: old.fee_config,
        total_revenue: old.total_revenue,
        sub_account_count: old.sub_account_count,
        paused: old.paused,
        version: old.version,
        pending_refunds: old.pending_refunds,
        total_pending_refunds: old.total_pending_refunds,
        ft_allowlist: old.ft_allowlist,
        business_sub_count: old.business_sub_count,
        business_sub_cap_override: old.business_sub_cap_override,
        parked_names: old.parked_names,
        reclaim_pending: old.reclaim_pending,
        payment_authorities: old.payment_authorities,
        recovery_authorities: old.recovery_authorities,
        hos_extension: old.hos_extension,
        grace_period_ns: old.grace_period_ns,
        price_oracle: old.price_oracle,
        near_usd_rate_micro: old.near_usd_rate_micro,
        rate_updated_at: old.rate_updated_at,
        rate_sequence: old.rate_sequence,
        treasury: old.treasury,
        council: old.council,
        marketplace_paused: old.marketplace_paused,
        paused_until_ns: old.paused_until_ns,
        unpaused_at: old.unpaused_at,
        sweepable_tokens: old.sweepable_tokens,
        suspended_until: old.suspended_until,
        authority_allowances: old.authority_allowances,
        authority_mints: old.authority_mints,
        nft_contract_metadata: old.nft_contract_metadata,
        approved_code_hash: old.approved_code_hash,
        approved_at: old.approved_at,
        upgrade_delay_ns: old.upgrade_delay_ns,
        venues: old.venues,
        upgrade_proven: old.upgrade_proven,
        tla_terms: OrderedMap::new(),
        lease_term_ns: PRODUCTION_LEASE_TERM_NS,
        paid_order_ids: OrderedMap::new(),
        pending_council: None,
        pending_council_at: None,
        pending_treasury: None,
    }
}

/// Everything is kept, and no treasury is pending.
pub fn from_v4(old_state: TlaRegistryV4) -> (r: TlaRegistry)
    ensures
        v4_becomes(old_state, r),
{
    let old = old_state;
    TlaRegistry {
        state_version: STATE_VERSION,
        tlas: old.tlas,
        sub_accounts: old.sub_accounts,
        sub_accounts_by_owner: old.sub_accounts_by_owner,
        sub_accounts_by_tla: old.sub_accounts_by_tla,
        recent_activity: old.recent_activity,
        admins: old.admins,
        fee_config: old.fee_config,
        total_revenue: old.total_revenue,
        sub_account_count: old.sub_account_count,
        paused: old.paused,
        version: old.version,
        pending_refunds: old.pending_refunds,
        total_pending_refunds: old.total_pending_refunds,
        ft_allowlist: old.ft_allowlist,
        business_sub_count: old.business_sub_count,
        business_sub_cap_override: old.business_sub_cap_override,
        parked_names: old.parked_names,
        reclaim_pending: old.reclaim_pending,
        payment_authorities: old.payment_authorities,
        recovery_authorities: old.recovery_authorities,
        hos_extension: old.hos_extension,
        grace_period_ns: old.grace_period_ns,
        price_oracle: old.price_oracle,
        near_usd_rate_micro: old.near_usd_rate_micro,
        rate_updated_at: old.rate_updated_at,
        rate_sequence: old.rate_sequence,
        treasury: old.treasury,
        council: old.council,
        marketplace_paused: old.marketplace_paused,
        paused_until_ns: old.paused_until_ns,
        unpaused_at: old.unpaused_at,
        sweepable_tokens: old.sweepable_tokens,
        suspended_until: old.suspended_until,
        authority_allowances: old.authority_allowances,
        authority_mints: old.authority_mints,
        nft_contract_metadata: old.nft_contract_metadata,
        approved_code_hash: old.approved_code_hash,
        approved_at: old.approved_at,
        upgrade_delay_ns: old.upgrade_delay_ns,
        venues: old.venues,
        upgrade_proven: old.upgrade_proven,
        tla_terms: old.tla_terms,
        lease_term_ns: old.lease_term_ns,
        paid_order_ids: old.paid_order_ids,
        pending_council: old.pending_council,
        pending_council_at: old.pending_council_at,
        pending_treasury: None,
    }
}

/// A map without the first keys of a sequence.
pub open spec fn without_all<V>(map: crate::ordered::OrderedView<AccountId, V>, keys: Seq<AccountId>) -> crate::ordered::OrderedView<
    AccountId,
    V,
>
    decreases keys.len(),
{
    if keys.len() == 0 {
        map
    } else {
        without_all(map, keys.drop_last()).remove(keys.last())
    }
}

/// The keys that one migration removes: the first ones, up to the cap.
pub open spec fn doomed_keys(keys: Seq<AccountId>) -> Seq<AccountId> {
    if keys.len() > MIGRATION_DRAIN_CAP {
        keys.take(MIGRATION_DRAIN_CAP as int)
    } else {
        keys
    }
}

/// Removes the first entries of a retired map, up to the cap.
pub fn drain_capped<V>(map: &mut OrderedMap<AccountId, V>)
    ensures
        final(map)@ == without_all(old(map)@, doomed_keys(old(map)@.keys)),
{
    let n: usize = if map.len() > MIGRATION_DRAIN_CAP {
        MIGRATION_DRAIN_CAP
    } else {
        map.len()
    };
    let ghost keys = map@.keys;
    let mut doomed: Vec<AccountId> = Vec::new();
    let mut i: usize = 0;
    while i < n
        invariant
            i <= n <= keys.len(),
            keys == map@.keys,
            *map == *old(map),
            doomed@ == keys.take(i as int),
        decreases n - i,
    {
        doomed.push(*map.key_at(i));
        i += 1;
        assert(keys.take(i as int) =~= keys.take(i - 1).push(keys[i - 1]));
    }
    assert(keys.take(n as int) =~= doomed_keys(keys));
    let mut i: usize = 0;
    while i < doomed.len()
        invariant
            i <= doomed@.len(),
            map@ == without_all(old(map)@, doomed@.take(i as int)),
        decreases doomed@.len() - i,
    {
        map.remove(&doomed[i]);
        i += 1;
        assert(doomed@.take(i as int).drop_last() =~= doomed@.take(i - 1));
    }
    assert(doomed@.take(i as int) =~= doomed@);
}

/// Draining forgets exactly the entries of the doomed keys.
pub proof fn draining_forgets_the_doomed<V>(map: crate::ordered::OrderedView<AccountId, V>, keys: Seq<AccountId>)
    ensures
        forall|k: AccountId| #[trigger] without_all(map, keys).has(k) <==> map.has(k) && !keys.contains(k),
    decreases keys.len(),
{
    if keys.len() > 0 {
        let rest = keys.drop_last();
        draining_forgets_the_doomed(map, rest);
        let r = without_all(map, rest);
        let f = without_all(map, keys);
        assert(f == r.remove(keys.last()));
        assert forall|k: AccountId| #[trigger] f.has(k) <==> map.has(k) && !keys.contains(k) by {
            assert(r.has(k) <==> map.has(k) && !rest.contains(k));
            if keys.contains(k) {
                let i = choose|i: int| 0 <= i < keys.len() && keys[i] == k;
                if i < rest.len() {
                    assert(rest[i] == k);
                }
            }
            if rest.contains(k) {
                let i = choose|i: int| 0 <= i < rest.len() && rest[i] == k;
                assert(keys[i] == k);
            }
            assert(keys[keys.len() - 1] == keys.last());
        }
    }
}

/// A state as it was read back.
pub enum StoredState {
    Legacy(LegacyTlaRegistry),
    V1(TlaRegistryV1),
    V4(TlaRegistryV4),
    Current(TlaRegistry),
}

/// How a state of some version is to be read.
#[derive(PartialEq, Eq, Structural, Clone, Copy, Debug)]
pub enum StateReader {
    V1,
    V4,
    Current,
}

/// Why a state cannot be migrated.
#[derive(PartialEq, Eq, Structural, Clone, Copy, Debug)]
pub enum MigrationError {
    NoState,
    StateVersionUnknown,
}

impl MigrationError {
    pub fn message(&self) -> (r: &'static str)
        ensures
            r@ == (match *self {
                MigrationError::NoState => "no state to migrate"@,
                MigrationError::StateVersionUnknown => "state version is not the one this code understands"@,
            }),
    {
        match self {
            MigrationError::NoState => "no state to migrate",
            MigrationError::StateVersionUnknown => "state version is not the one this code understands",
        }
    }
}

/// The reader that a version asks for.
pub open spec fn reader_of(version: Option<u16>) -> Result<StateReader, MigrationError> {
    match version {
        None => Err(MigrationError::NoState),
        Some(v) => if v == STATE_VERSION {
            Ok(StateReader::Current)
        } else if v == 4 {
            Ok(StateReader::V4)
        } else if v == 1 {
            Ok(StateReader::V1)
        } else {
            Err(MigrationError::StateVersionUnknown)
        },
    }
}

/// Picks the reader for the version that a state starts with. Where no reader is for that version, none is
/// tried; the state may still be the one from before versions, which `choose_state` decides.
pub fn reader_for(version: Option<u16>) -> (r: Result<StateReader, MigrationError>)
    ensures
        r == reader_of(version),
{
    match version {
        None => Err(MigrationError::NoState),
        Some(v) => {
            if v == STATE_VERSION {
                Ok(StateReader::Current)
            } else if v == 4 {
                Ok(StateReader::V4)
            } else if v == 1 {
                Ok(StateReader::V1)
            } else {
                Err(MigrationError::StateVersionUnknown)
            }
        },
    }
}

/// Settles which state is stored, from what could be read: `legacy` by the reader for the state from before
/// versions, `read` by the reader for `version`. The oldest shape goes first, since its leading bytes are
/// no version.
pub fn choose_state(version: Option<u16>, read: Option<StoredState>, legacy: Option<LegacyTlaRegistry>) -> (r: Result<
    StoredState,
    MigrationError,
>)
    ensures
        r == (match legacy {
            Some(old_state) => Ok(StoredState::Legacy(old_state)),
            None => match reader_of(version) {
                Err(refusal) => Err(refusal),
                Ok(_) => match read {
                    Some(stored) => Ok(stored),
                    None => Err(MigrationError::NoState),
                },
            },
        }),
{
    if let Some(old_state) = legacy {
        return Ok(StoredState::Legacy(old_state));
    }
    match reader_for(version) {
        Err(refusal) => Err(refusal),
        Ok(_) => match read {
            Some(stored) => Ok(stored),
            None => Err(MigrationError::NoState),
        },
    }
}

/// The registry that carries on from a stored state.
pub open spec fn carries_on(current: AccountId, stored: StoredState, r: TlaRegistry) -> bool {
    match stored {
        StoredState::Current(old_state) => r == old_state,
        StoredState::V4(old_state) => v4_becomes(old_state, r),
        StoredState::V1(old_state) => v1_becomes(old_state, r),
        StoredState::Legacy(old_state) => legacy_becomes(current, old_state, r),
    }
}

/// Brings a stored state to the current shape. That the migration ran proves that the contract can be
/// upgraded without a key.
pub fn migrate(env: &Env, stored: StoredState) -> (r: TlaRegistry)
    ensures
        r.upgrade_proven,
        exists|kept: TlaRegistry| #[trigger]
            carries_on(env.current, stored, kept) && r == (TlaRegistry { upgrade_proven: true, ..kept }),
{
    let mut registry = match stored {
        StoredState::Current(current) => current,
        StoredState::V4(old) => from_v4(old),
        StoredState::V1(old) => from_v1(old),
        StoredState::Legacy(old) => from_legacy(env, old).0,
    };
    let ghost kept = registry;
    registry.upgrade_proven = true;
    assert(carries_on(env.current, stored, kept));
    registry
}

/// The state before versions, and what is left of its listings and offers.
pub fn from_legacy(env: &Env, old_state: LegacyTlaRegistry) -> (r: (
    TlaRegistry,
    OrderedMap<AccountId, Listing>,
    OrderedMap<AccountId, AcceptedOffer>,
))
    ensures
        legacy_becomes(env.current, old_state, r.0),
        r.1@ == without_all(old_state.listings@, doomed_keys(old_state.listings@.keys)),
        r.2@ == without_all(old_state.accepted_offers@, doomed_keys(old_state.accepted_offers@.keys)),
{
    let old = old_state;
    let mut listings = old.listings;
    let mut accepted_offers = old.accepted_offers;
    drain_capped(&mut listings);
    drain_capped(&mut accepted_offers);
    let registry = TlaRegistry {
        state_version: STATE_VERSION,
        tlas: old.tlas,
        sub_accounts: old.sub_accounts,
        sub_accounts_by_owner: old.sub_accounts_by_owner,
        sub_accounts_by_tla: old.sub_accounts_by_tla,
        recent_activity: old.recent_activity,
        admins: old.admins,
        fee_config: old.fee_config,
        total_revenue: old.total_revenue,
        sub_account_count: old.sub_account_count,
        paused: old.paused,
        version: CONTRACT_VERSION,
        pending_refunds: old.pending_refunds,
        total_pending_refunds: old.total_pending_refunds,
        ft_allowlist: old.ft_allowlist,
        business_sub_count: old.business_sub_count,
        business_sub_cap_override: old.business_sub_cap_override,
        parked_names: old.parked_names,
        reclaim_pending: old.reclaim_pending,
        payment_authorities: old.payment_authorities,
        recovery_authorities: old.recovery_authorities,
        hos_extension: old.hos_extension,
        grace_period_ns: old.grace_period_ns,
        price_oracle: old.price_oracle,
        near_usd_rate_micro: old.near_usd_rate_micro,
        rate_updated_at: old.rate_updated_at,
        rate_sequence: old.rate_sequence,
        treasury: old.treasury,
        council: old.council,
        marketplace_paused: old.marketplace_paused,
        paused_until_ns: old.paused_until_ns,
        unpaused_at: old.unpaused_at,
        sweepable_tokens: old.sweepable_tokens,
        suspended_until: old.suspended_until,
        authority_allowances: OrderedMap::new(),
        authority_mints: OrderedMap::new(),
        nft_contract_metadata: initial_metadata(env),
        approved_code_hash: None,
        approved_at: None,
        upgrade_delay_ns: UPGRADE_DELAY_NS,
        venues: OrderedMap::new(),
        upgrade_proven: false,
        tla_terms: OrderedMap::new(),
        lease_term_ns: PRODUCTION_LEASE_TERM_NS,
        paid_order_ids: OrderedMap::new(),
        pending_council: None,
        pending_council_at: None,
        pending_treasury: None,
    };
    (registry, listings, accepted_offers)
}

} // verus!
