//! What a registry keeps when its state is brought to the current shape.
use vstd::prelude::*;

use crate::account::AccountId;
use crate::host::Env;
use crate::legacy::{LegacyTlaRegistry, MigrationError, StateReader, StoredState};
use crate::registry::TlaRegistry;
use crate::types::{AcceptedOffer, Listing};

verus! {

/// A state is read by the version that it starts with: the fifth as it is, the fourth and the first by their own readers, and no other.
pub proof fn a_state_is_read_by_its_version(version: Option<u16>, r: Result<StateReader, MigrationError>)
    requires
        call_ensures(crate::legacy::reader_for, (version,), r),
    ensures
        version == Some(5u16) ==> r == Ok::<_, MigrationError>(StateReader::Current),
        version == Some(4u16) ==> r == Ok::<_, MigrationError>(StateReader::V4),
        version == Some(1u16) ==> r == Ok::<_, MigrationError>(StateReader::V1),
        version is None ==> r == Err::<StateReader, _>(MigrationError::NoState),
        version is Some && version->0 != 1 && version->0 != 4 && version->0 != 5 ==> r == Err::<StateReader, _>(
            MigrationError::StateVersionUnknown,
        ),
{
}

/// A state from before versions is taken wherever it could be read; otherwise a state of a known version is, if it could be read, and nothing
/// else is.
pub proof fn the_state_that_was_read_is_taken(
    version: Option<u16>,
    read: Option<StoredState>,
    legacy: Option<LegacyTlaRegistry>,
    r: Result<StoredState, MigrationError>,
)
    requires
        call_ensures(crate::legacy::choose_state, (version, read, legacy), r),
    ensures
        ({
            let known = version == Some(1u16) || version == Some(4u16) || version == Some(5u16);
            &&& legacy matches Some(old_state) ==> r == Ok::<_, MigrationError>(StoredState::Legacy(old_state))
            &&& legacy is None && known && read is Some ==> r == Ok::<_, MigrationError>(read->0)
            &&& legacy is None && !(known && read is Some) ==> r is Err
            &&& r matches Err(e) ==> (e is StateVersionUnknown <==> version is Some && !known)
        }),
{
}

/// Whatever shape it was stored in, a migrated registry keeps its accounts, its names and their indexes, its roles, its fees, its revenue,
/// what it owes, its parks, its rate and its pauses; that it migrated proves that it can be upgraded.
pub proof fn a_migrated_registry_keeps_its_books(env: Env, stored: StoredState, r: TlaRegistry)
    requires
        call_ensures(crate::legacy::migrate, (&env, stored), r),
    ensures
        r.upgrade_proven,
        stored matches StoredState::Current(old_state) ==> r == (TlaRegistry { upgrade_proven: true, ..old_state }),
        stored matches StoredState::V4(old_state) ==> {
            &&& r.tlas == old_state.tlas
            &&& r.sub_accounts == old_state.sub_accounts
            &&& r.sub_accounts_by_owner == old_state.sub_accounts_by_owner
            &&& r.sub_accounts_by_tla == old_state.sub_accounts_by_tla
            &&& r.recent_activity == old_state.recent_activity
            &&& r.admins == old_state.admins
            &&& r.fee_config == old_state.fee_config
            &&& r.total_revenue == old_state.total_revenue
            &&& r.sub_account_count == old_state.sub_account_count
            &&& r.paused == old_state.paused
            &&& r.version == old_state.version
            &&& r.pending_refunds == old_state.pending_refunds
            &&& r.total_pending_refunds == old_state.total_pending_refunds
            &&& r.ft_allowlist == old_state.ft_allowlist
            &&& r.business_sub_count == old_state.business_sub_count
            &&& r.business_sub_cap_override == old_state.business_sub_cap_override
            &&& r.parked_names == old_state.parked_names
            &&& r.reclaim_pending == old_state.reclaim_pending
            &&& r.payment_authorities == old_state.payment_authorities
            &&& r.recovery_authorities == old_state.recovery_authorities
            &&& r.hos_extension == old_state.hos_extension
            &&& r.grace_period_ns == old_state.grace_period_ns
            &&& r.price_oracle == old_state.price_oracle
            &&& r.near_usd_rate_micro == old_state.near_usd_rate_micro
            &&& r.rate_updated_at == old_state.rate_updated_at
            &&& r.rate_sequence == old_state.rate_sequence
            &&& r.treasury == old_state.treasury
            &&& r.council == old_state.council
            &&& r.marketplace_paused == old_state.marketplace_paused
            &&& r.paused_until_ns == old_state.paused_until_ns
            &&& r.unpaused_at == old_state.unpaused_at
            &&& r.sweepable_tokens == old_state.sweepable_tokens
            &&& r.suspended_until == old_state.suspended_until
            &&& r.authority_allowances == old_state.authority_allowances
            &&& r.authority_mints == old_state.authority_mints
            &&& r.nft_contract_metadata == old_state.nft_contract_metadata
            &&& r.approved_code_hash == old_state.approved_code_hash
            &&& r.approved_at == old_state.approved_at
            &&& r.upgrade_delay_ns == old_state.upgrade_delay_ns
            &&& r.venues == old_state.venues
            &&& r.tla_terms == old_state.tla_terms
            &&& r.lease_term_ns == old_state.lease_term_ns
            &&& r.paid_order_ids == old_state.paid_order_ids
            &&& r.pending_council == old_state.pending_council
            &&& r.pending_council_at == old_state.pending_council_at
            &&& r.pending_treasury is None
            &&& r.state_version == 5
        },
        stored matches StoredState::V1(old_state) ==> {
            &&& r.tlas == old_state.tlas
            &&& r.sub_accounts == old_state.sub_accounts
            &&& r.sub_accounts_by_owner == old_state.sub_accounts_by_owner
            &&& r.sub_accounts_by_tla == old_state.sub_accounts_by_tla
            &&& r.recent_activity == old_state.recent_activity
            &&& r.admins == old_state.admins
            &&& r.fee_config == old_state.fee_config
            &&& r.total_revenue == old_state.total_revenue
            &&& r.sub_account_count == old_state.sub_account_count
            &&& r.paused == old_state.paused
            &&& r.version == old_state.version
            &&& r.pending_refunds == old_state.pending_refunds
            &&& r.total_pending_refunds == old_state.total_pending_refunds
            &&& r.ft_allowlist == old_state.ft_allowlist
            &&& r.business_sub_count == old_state.business_sub_count
            &&& r.business_sub_cap_override == old_state.business_sub_cap_override
            &&& r.parked_names == old_state.parked_names
            &&& r.reclaim_pending == old_state.reclaim_pending
            &&& r.payment_authorities == old_state.payment_authorities
            &&& r.recovery_authorities == old_state.recovery_authorities
            &&& r.hos_extension == old_state.hos_extension
            &&& r.grace_period_ns == old_state.grace_period_ns
            &&& r.price_oracle == old_state.price_oracle
            &&& r.near_usd_rate_micro == old_state.near_usd_rate_micro
            &&& r.rate_updated_at == old_state.rate_updated_at
            &&& r.rate_sequence == old_state.rate_sequence
            &&& r.treasury == old_state.treasury
            &&& r.council == old_state.council
            &&& r.marketplace_paused == old_state.marketplace_paused
            &&& r.paused_until_ns == old_state.paused_until_ns
            &&& r.unpaused_at == old_state.unpaused_at
            &&& r.sweepable_tokens == old_state.sweepable_tokens
            &&& r.suspended_until == old_state.suspended_until
            &&& r.authority_allowances == old_state.authority_allowances
            &&& r.authority_mints == old_state.authority_mints
            &&& r.nft_contract_metadata == old_state.nft_contract_metadata
            &&& r.approved_code_hash == old_state.approved_code_hash
            &&& r.approved_at == old_state.approved_at
            &&& r.upgrade_delay_ns == old_state.upgrade_delay_ns
            &&& r.venues == old_state.venues
            &&& r.lease_term_ns == 31_536_000_000_000_000
            &&& r.tla_terms@.len() == 0
            &&& r.paid_order_ids@.len() == 0
            &&& r.pending_council is None
            &&& r.pending_council_at is None
            &&& r.pending_treasury is None
            &&& r.state_version == 5
        },
        stored matches StoredState::Legacy(old_state) ==> {
            &&& r.tlas == old_state.tlas
            &&& r.sub_accounts == old_state.sub_accounts
            &&& r.sub_accounts_by_owner == old_state.sub_accounts_by_owner
            &&& r.sub_accounts_by_tla == old_state.sub_accounts_by_tla
            &&& r.recent_activity == old_state.recent_activity
            &&& r.admins == old_state.admins
            &&& r.fee_config == old_state.fee_config
            &&& r.total_revenue == old_state.total_revenue
            &&& r.sub_account_count == old_state.sub_account_count
            &&& r.paused == old_state.paused
            &&& r.pending_refunds == old_state.pending_refunds
            &&& r.total_pending_refunds == old_state.total_pending_refunds
            &&& r.ft_allowlist == old_state.ft_allowlist
            &&& r.business_sub_count == old_state.business_sub_count
            &&& r.business_sub_cap_override == old_state.business_sub_cap_override
            &&& r.parked_names == old_state.parked_names
            &&& r.reclaim_pending == old_state.reclaim_pending
            &&& r.payment_authorities == old_state.payment_authorities
            &&& r.recovery_authorities == old_state.recovery_authorities
            &&& r.hos_extension == old_state.hos_extension
            &&& r.grace_period_ns == old_state.grace_period_ns
            &&& r.price_oracle == old_state.price_oracle
            &&& r.near_usd_rate_micro == old_state.near_usd_rate_micro
            &&& r.rate_updated_at == old_state.rate_updated_at
            &&& r.rate_sequence == old_state.rate_sequence
            &&& r.treasury == old_state.treasury
            &&& r.council == old_state.council
            &&& r.marketplace_paused == old_state.marketplace_paused
            &&& r.paused_until_ns == old_state.paused_until_ns
            &&& r.unpaused_at == old_state.unpaused_at
            &&& r.sweepable_tokens == old_state.sweepable_tokens
            &&& r.suspended_until == old_state.suspended_until
            &&& r.version == 1
            &&& r.lease_term_ns == 31_536_000_000_000_000
            &&& r.upgrade_delay_ns == 172_800_000_000_000
            &&& r.tla_terms@.len() == 0
            &&& r.paid_order_ids@.len() == 0
            &&& r.authority_allowances@.len() == 0
            &&& r.authority_mints@.len() == 0
            &&& r.venues@.len() == 0
            &&& r.approved_code_hash is None
            &&& r.approved_at is None
            &&& r.pending_council is None
            &&& r.pending_council_at is None
            &&& r.pending_treasury is None
            &&& r.state_version == 5
        },
{
}

/// Of the listings and offers that a state from before versions held, the first two hundred of each go, and the rest stays.
pub proof fn old_listings_go_two_hundred_at_a_time(
    env: Env,
    old_state: LegacyTlaRegistry,
    key: AccountId,
    r: (TlaRegistry, crate::ordered::OrderedMap<AccountId, Listing>, crate::ordered::OrderedMap<AccountId, AcceptedOffer>),
)
    requires
        call_ensures(crate::legacy::from_legacy, (&env, old_state), r),
    ensures
        ({
            let first = |keys: Seq<AccountId>| exists|i: int| 0 <= i < keys.len() && i < 200 && #[trigger] keys[i] == key;
            &&& r.1@.has(key) <==> old_state.listings@.has(key) && !first(old_state.listings@.keys)
            &&& r.2@.has(key) <==> old_state.accepted_offers@.has(key) && !first(old_state.accepted_offers@.keys)
        }),
{
    let a = crate::legacy::doomed_keys(old_state.listings@.keys);
    let b = crate::legacy::doomed_keys(old_state.accepted_offers@.keys);
    crate::legacy::draining_forgets_the_doomed(old_state.listings@, a);
    crate::legacy::draining_forgets_the_doomed(old_state.accepted_offers@, b);
    lemma_doomed(old_state.listings@.keys, key);
    lemma_doomed(old_state.accepted_offers@.keys, key);
}

proof fn lemma_doomed(keys: Seq<AccountId>, key: AccountId)
    ensures
        crate::legacy::doomed_keys(keys).contains(key) <==> exists|i: int|
            0 <= i < keys.len() && i < 200 && #[trigger] keys[i] == key,
{
    let doomed = crate::legacy::doomed_keys(keys);
    if doomed.contains(key) {
        let i = choose|i: int| 0 <= i < doomed.len() && doomed[i] == key;
        assert(keys[i] == key);
    }
    if exists|i: int| 0 <= i < keys.len() && i < 200 && #[trigger] keys[i] == key {
        let i = choose|i: int| 0 <= i < keys.len() && i < 200 && #[trigger] keys[i] == key;
        assert(doomed[i] == key);
    }
}

} // verus!
