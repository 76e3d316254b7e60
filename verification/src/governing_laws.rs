//! What the council, the admins, the oracle and the treasury decide.
use vstd::prelude::*;

use crate::account::AccountId;
use crate::common::{capped_u128, capped_u64};
use crate::error::{ContractError, InitError};
use crate::events::Event;
use crate::host::{Call, Callback, Dispatch, Env, Reply};
use crate::registry::TlaRegistry;
use crate::types::{FeeConfig, PaidOrderState, PremiumCategory, TlaEntry, TlaStatus, TlaTerms, TlaType};

verus! {

/// The council itself calls, with one yocto attached.
pub open spec fn by_council(reg: TlaRegistry, env: Env) -> bool {
    env.deposit == 1 && env.predecessor == reg.council
}

/// Why a call is not the council's.
pub open spec fn not_council_because(e: ContractError, reg: TlaRegistry, env: Env) -> bool {
    ||| e is RequiresOneYocto && env.deposit != 1
    ||| e is OnlyCouncil && env.predecessor != reg.council
}

/// An admin calls, with one yocto attached.
pub open spec fn by_admin(reg: TlaRegistry, env: Env) -> bool {
    env.deposit == 1 && reg.admins@.has(env.predecessor)
}

/// Why a call is not an admin's.
pub open spec fn not_admin_because(e: ContractError, reg: TlaRegistry, env: Env) -> bool {
    ||| e is RequiresOneYocto && env.deposit != 1
    ||| e is OnlyAdmin && !reg.admins@.has(env.predecessor)
}

// ---- setting up -------------------------------------------------------------------------------

/// A registry is set up exactly if its grace is a minute at least, its lease term, a year where none is given, a minute to ten
/// years, and neither its council nor its extension is the registry itself. It then has the one admin, who is its oracle too,
/// the launch fees, no rate, no pause, and nothing registered, rented or owed.
pub proof fn a_registry_starts_empty(
    env: Env,
    admin: AccountId,
    extension: AccountId,
    grace: u64,
    treasury: AccountId,
    council: AccountId,
    term: Option<u64>,
    account: AccountId,
    other: AccountId,
    text: Seq<char>,
    r: Result<TlaRegistry, InitError>,
)
    requires
        call_ensures(TlaRegistry::new, (&env, admin, extension, grace, treasury, council, term), r),
    ensures
        ({
            let lease = if term is Some {
                term->0
            } else {
                31_536_000_000_000_000
            };
            match r {
                Ok(reg) => {
                    &&& grace >= 60_000_000_000
                    &&& 60_000_000_000 <= lease <= 315_360_000_000_000_000
                    &&& council != env.current
                    &&& extension != env.current
                    &&& reg.admins@.has(account) <==> account == admin
                    &&& reg.price_oracle == admin
                    &&& reg.hos_extension == extension
                    &&& reg.grace_period_ns == grace
                    &&& reg.lease_term_ns == lease
                    &&& reg.treasury == treasury
                    &&& reg.council == council
                    &&& reg.upgrade_delay_ns == 172_800_000_000_000
                    &&& reg.fee_config == crate::fees::launch_fees()
                    &&& reg.near_usd_rate_micro == 0
                    &&& !reg.paused
                    &&& !reg.marketplace_paused
                    &&& !reg.tlas@.has(account)
                    &&& !reg.sub_accounts@.has(account)
                    &&& !reg.payment_authorities@.has(account)
                    &&& !reg.recovery_authorities@.has(account)
                    &&& !reg.venues@.has(account)
                    &&& !reg.ft_allowlist@.has(account)
                    &&& !reg.sweepable_tokens@.has(account)
                    &&& reg.refund_of(account) == 0
                    &&& reg.total_pending_refunds == 0
                    &&& reg.total_revenue == 0
                    &&& reg.sub_account_count == 0
                    &&& !reg.upgrade_proven
                    &&& reg.pending_council is None
                    &&& reg.pending_treasury is None
                    &&& reg.approved_code_hash is None
                    &&& reg.state_version == 5
                    &&& reg.version == 1
                    &&& reg.recent_activity@.len() == 0
                    &&& reg.rate_updated_at == 0
                    &&& reg.rate_sequence == 0
                    &&& reg.paused_until_ns == 0
                    &&& reg.unpaused_at == 0
                    &&& reg.approved_at is None
                    &&& reg.pending_council_at is None
                    &&& !reg.business_sub_count@.has(account)
                    &&& !reg.business_sub_cap_override@.has(account)
                    &&& !reg.tla_terms@.has(account)
                    &&& !reg.reclaim_pending@.has(account)
                    &&& !reg.suspended_until@.has(account)
                    &&& !reg.authority_allowances@.has((account, other))
                    &&& !reg.authority_mints@.has((account, other))
                    &&& !reg.parked_names@.has(text)
                    &&& !reg.paid_order_ids@.has(text)
                    &&& reg.admins@.len() == 1
                    &&& reg.nft_contract_metadata.spec@ == "nft-1.0.0"@
                    &&& reg.nft_contract_metadata.name@ == env.current@
                    &&& reg.nft_contract_metadata.symbol@ == env.current@
                    &&& reg.nft_contract_metadata.icon is None
                    &&& reg.nft_contract_metadata.base_uri is None
                    &&& reg.nft_contract_metadata.reference is None
                    &&& reg.nft_contract_metadata.reference_hash is None
                    &&& reg.indexed()
                    &&& reg.wf()
                },
                Err(e) => {
                    ||| e is GracePeriodTooShort && grace < 60_000_000_000
                    ||| e is LeaseTermTooShort && lease < 60_000_000_000
                    ||| e is LeaseTermTooLong && lease > 315_360_000_000_000_000
                    ||| e is CouncilIsRegistry && council == env.current
                    ||| e is WiringPointsAtRegistry && extension == env.current
                },
            }
        }),
{
    if r is Ok {
        crate::laws::a_new_registry_counts_no_names(r->Ok_0);
    }
}

// ---- top level accounts -----------------------------------------------------------------------

/// An account that was just registered.
pub open spec fn just_registered(entry: TlaEntry, tla_type: TlaType, premium: PremiumCategory, licensee: Option<AccountId>) -> bool {
    &&& entry.status is Registered
    &&& entry.tla_type == tla_type
    &&& entry.premium_category == premium
    &&& entry.licensee == licensee
    &&& entry.activated_at == 0
    &&& entry.expires_at == 0
}

/// The council registers an account exactly if it is not registered yet and, where it is a business, has a licensee. It is then
/// registered as asked for, and no other account changes.
pub proof fn the_council_registers_an_account(
    registry: &mut TlaRegistry,
    env: Env,
    tla_id: AccountId,
    tla_type: TlaType,
    premium: PremiumCategory,
    licensee: Option<AccountId>,
    other: AccountId,
    r: Result<Reply<()>, ContractError>,
)
    requires
        call_ensures(TlaRegistry::register_tla, (registry, &env, tla_id, tla_type, premium, licensee), r),
        other != tla_id,
    ensures
        ({
            let reg = *old(registry);
            let after = *final(registry);
            match r {
                Ok(_) => {
                    &&& by_council(reg, env)
                    &&& !reg.tlas@.has(tla_id)
                    &&& tla_type is Business ==> licensee is Some
                    &&& after.tlas@.has(tla_id)
                    &&& just_registered(after.tlas@[tla_id], tla_type, premium, licensee)
                    &&& after.tlas@.get(other) == reg.tlas@.get(other)
                    &&& after == (TlaRegistry { tlas: after.tlas, ..reg })
                },
                Err(e) => {
                    &&& after == reg
                    &&& {
                        ||| not_council_because(e, reg, env)
                        ||| e is TlaAlreadyRegistered && reg.tlas@.has(tla_id)
                        ||| e is BusinessTlaRequiresLicensee && tla_type is Business && licensee is None
                    }
                },
            }
        }),
{
}

/// A batch that may be taken: of one to 650 ids, none twice, short enough to be logged.
pub open spec fn batch_fits(ids: Seq<AccountId>) -> bool {
    &&& 1 <= ids.len() <= 650
    &&& ids.no_duplicates()
    &&& crate::admin::logged_bytes(ids) <= 15_872
}

/// Why a batch is not taken.
pub open spec fn batch_does_not_fit_because(e: ContractError, ids: Seq<AccountId>) -> bool {
    ||| e is EmptyBatch && ids.len() == 0
    ||| e is BatchTooLarge && (ids.len() > 650 || crate::admin::logged_bytes(ids) > 15_872)
    ||| e is DuplicateInBatch && !ids.no_duplicates()
}

/// A batch is registered as a whole or not at all: exactly if each of its accounts could be registered by itself.
pub proof fn a_batch_is_registered_whole(
    registry: &mut TlaRegistry,
    env: Env,
    ids: Vec<AccountId>,
    tla_type: TlaType,
    premium: PremiumCategory,
    licensee: Option<AccountId>,
    r: Result<Reply<()>, ContractError>,
)
    requires
        call_ensures(TlaRegistry::register_tlas, (registry, &env, ids, tla_type, premium, licensee), r),
    ensures
        ({
            let reg = *old(registry);
            let after = *final(registry);
            let fresh = forall|i: int| 0 <= i < ids@.len() ==> !reg.tlas@.has(#[trigger] ids@[i]);
            match r {
                Ok(_) => {
                    &&& by_council(reg, env)
                    &&& batch_fits(ids@)
                    &&& fresh
                    &&& tla_type is Business ==> licensee is Some
                    &&& forall|i: int|
                        0 <= i < ids@.len() ==> after.tlas@.has(#[trigger] ids@[i]) && just_registered(
                            after.tlas@[ids@[i]],
                            tla_type,
                            premium,
                            licensee,
                        )
                    &&& forall|other: AccountId|
                        !ids@.contains(other) ==> #[trigger] after.tlas@.get(other) == reg.tlas@.get(other)
                    &&& after == (TlaRegistry { tlas: after.tlas, ..reg })
                },
                Err(e) => {
                    &&& after == reg
                    &&& {
                        ||| not_council_because(e, reg, env)
                        ||| batch_does_not_fit_because(e, ids@)
                        ||| e is TlaAlreadyRegistered && !fresh
                        ||| e is BusinessTlaRequiresLicensee && tla_type is Business && licensee is None
                    }
                },
            }
        }),
{
    let reg = *old(registry);
    let registration = crate::types::TlaRegistration { tla_type, premium_category: premium, licensee };
    lemma_registrations(reg, ids@, registration, 0);
    crate::admin::lemma_all_registered(reg.tlas@, ids@, crate::admin::registered_entry(registration));
    if r is Ok {
        let after = *final(registry);
        assert forall|i: int| 0 <= i < ids@.len() implies after.tlas@.has(#[trigger] ids@[i]) && just_registered(
            after.tlas@[ids@[i]],
            tla_type,
            premium,
            licensee,
        ) by {
            assert(ids@.contains(ids@[i]));
        }
        assert(reg.registration_refusal(ids@[0], registration) is None);
        assert forall|i: int| 0 <= i < ids@.len() implies !reg.tlas@.has(#[trigger] ids@[i]) by {
            assert(reg.registration_refusal(ids@[i], registration) is None);
        }
        let entry = crate::admin::registered_entry(registration);
        assert forall|other: AccountId| !ids@.contains(other) implies #[trigger] after.tlas@.get(other) == reg.tlas@.get(
            other,
        ) by {
            assert(crate::admin::all_registered(reg.tlas@, ids@, entry).has(other) == reg.tlas@.has(other));
            assert(crate::admin::all_registered(reg.tlas@, ids@, entry)[other] == reg.tlas@[other]);
        }
    }
}

proof fn lemma_registrations(reg: TlaRegistry, ids: Seq<AccountId>, registration: crate::types::TlaRegistration, from: int)
    requires
        0 <= from <= ids.len(),
    ensures
        match reg.registrations_refusal(ids, registration, from) {
            None => forall|i: int| from <= i < ids.len() ==> reg.registration_refusal(#[trigger] ids[i], registration) is None,
            Some(e) => exists|i: int|
                from <= i < ids.len() && reg.registration_refusal(#[trigger] ids[i], registration) == Some(e),
        },
    decreases ids.len() - from,
{
    if from < ids.len() {
        lemma_registrations(reg, ids, registration, from + 1);
        assert(reg.registration_refusal(ids[from], registration) == reg.registration_refusal(ids[from], registration));
    }
}

/// An account that runs for a year from `now`.
pub open spec fn just_activated(entry: TlaEntry, before: TlaEntry, now: u64) -> bool {
    entry == (TlaEntry {
        status: TlaStatus::Active,
        activated_at: now,
        expires_at: capped_u64(now + 31_536_000_000_000_000),
        ..before
    })
}

/// An admin activates an open account exactly from the registered state, for a year and for nothing; no other account changes.
pub proof fn an_admin_activates_an_open_account(
    registry: &mut TlaRegistry,
    env: Env,
    tla_id: AccountId,
    other: AccountId,
    r: Result<Reply<()>, ContractError>,
)
    requires
        call_ensures(TlaRegistry::activate_open_tla, (registry, &env, tla_id), r),
        other != tla_id,
    ensures
        ({
            let reg = *old(registry);
            let after = *final(registry);
            let entry = reg.tlas@[tla_id];
            match r {
                Ok(reply) => {
                    &&& by_admin(reg, env)
                    &&& reg.tlas@.has(tla_id)
                    &&& entry.status is Registered
                    &&& entry.tla_type is Open
                    &&& after.tlas@.has(tla_id)
                    &&& just_activated(after.tlas@[tla_id], entry, env.now)
                    &&& after.tlas@.get(other) == reg.tlas@.get(other)
                    &&& after == (TlaRegistry { tlas: after.tlas, ..reg })
                },
                Err(e) => {
                    &&& after == reg
                    &&& {
                        ||| not_admin_because(e, reg, env)
                        ||| e is TlaNotFound && !reg.tlas@.has(tla_id)
                        ||| e is TlaNotInRegisteredState && !(entry.status is Registered)
                        ||| e is WrongActivationEndpoint && entry.tla_type is Business
                    }
                },
            }
        }),
{
}

/// A batch is activated as a whole or not at all.
pub proof fn a_batch_is_activated_whole(registry: &mut TlaRegistry, env: Env, ids: Vec<AccountId>, r: Result<Reply<()>, ContractError>)
    requires
        call_ensures(TlaRegistry::activate_open_tlas, (registry, &env, ids), r),
    ensures
        ({
            let reg = *old(registry);
            let after = *final(registry);
            match r {
                Ok(_) => {
                    &&& by_admin(reg, env)
                    &&& batch_fits(ids@)
                    &&& forall|i: int|
                        0 <= i < ids@.len() ==> {
                            &&& reg.tlas@.has(#[trigger] ids@[i])
                            &&& reg.tlas@[ids@[i]].status is Registered
                            &&& reg.tlas@[ids@[i]].tla_type is Open
                            &&& after.tlas@.has(ids@[i])
                            &&& just_activated(after.tlas@[ids@[i]], reg.tlas@[ids@[i]], env.now)
                        }
                    &&& forall|other: AccountId|
                        !ids@.contains(other) ==> #[trigger] after.tlas@.get(other) == reg.tlas@.get(other)
                    &&& after == (TlaRegistry { tlas: after.tlas, ..reg })
                },
                Err(e) => {
                    &&& after == reg
                    &&& {
                        ||| not_admin_because(e, reg, env)
                        ||| batch_does_not_fit_because(e, ids@)
                        ||| exists|i: int|
                            0 <= i < ids@.len() && {
                                let id = #[trigger] ids@[i];
                                ||| e is TlaNotFound && !reg.tlas@.has(id)
                                ||| e is TlaNotInRegisteredState && !(reg.tlas@[id].status is Registered)
                                ||| e is WrongActivationEndpoint && reg.tlas@[id].tla_type is Business
                            }
                    }
                },
            }
        }),
{
    let reg = *old(registry);
    lemma_activations(reg, ids@, 0);
    if r is Ok {
        assert forall|i: int| 0 <= i < ids@.len() implies reg.tlas@.has(#[trigger] ids@[i]) by {
            assert(reg.open_activation_refusal(ids@[i]) is None);
        }
        crate::admin::lemma_all_activated(reg.tlas@, ids@, env.now);
        assert forall|i: int| 0 <= i < ids@.len() implies {
            &&& reg.tlas@.has(#[trigger] ids@[i])
            &&& reg.tlas@[ids@[i]].status is Registered
            &&& reg.tlas@[ids@[i]].tla_type is Open
            &&& final(registry).tlas@.has(ids@[i])
            &&& just_activated(final(registry).tlas@[ids@[i]], reg.tlas@[ids@[i]], env.now)
        } by {
            assert(reg.open_activation_refusal(ids@[i]) is None);
            assert(ids@.contains(ids@[i]));
            assert(crate::admin::all_activated(reg.tlas@, ids@, env.now).has(ids@[i]));
            assert(crate::admin::all_activated(reg.tlas@, ids@, env.now)[ids@[i]] == crate::admin::activated(
                reg.tlas@[ids@[i]],
                env.now,
            ));
        }
        assert forall|other: AccountId| !ids@.contains(other) implies #[trigger] final(registry).tlas@.get(other)
            == reg.tlas@.get(other) by {
            assert(crate::admin::all_activated(reg.tlas@, ids@, env.now).has(other) == reg.tlas@.has(other));
            assert(crate::admin::all_activated(reg.tlas@, ids@, env.now)[other] == reg.tlas@[other]);
        }
    }
}

proof fn lemma_activations(reg: TlaRegistry, ids: Seq<AccountId>, from: int)
    requires
        0 <= from <= ids.len(),
    ensures
        match reg.open_activations_refusal(ids, from) {
            None => forall|i: int| from <= i < ids.len() ==> reg.open_activation_refusal(#[trigger] ids[i]) is None,
            Some(e) => exists|i: int| from <= i < ids.len() && reg.open_activation_refusal(#[trigger] ids[i]) == Some(e),
        },
    decreases ids.len() - from,
{
    if from < ids.len() {
        lemma_activations(reg, ids, from + 1);
        assert(reg.open_activation_refusal(ids[from]) == reg.open_activation_refusal(ids[from]));
    }
}

/// An admin suspends any account that was activated, for seven days, and lifts a suspension at any time; the term runs on meanwhile.
pub proof fn an_admin_suspends_and_lifts(
    suspending: &mut TlaRegistry,
    lifting: &mut TlaRegistry,
    env: Env,
    tla_id: AccountId,
    r: Result<Reply<()>, ContractError>,
    s: Result<Reply<()>, ContractError>,
)
    requires
        call_ensures(TlaRegistry::suspend_tla, (suspending, &env, tla_id), r),
        call_ensures(TlaRegistry::unsuspend_tla, (lifting, &env, tla_id), s),
    ensures
        ({
            let reg = *old(suspending);
            let after = *final(suspending);
            let entry = reg.tlas@[tla_id];
            match r {
                Ok(_) => {
                    &&& by_admin(reg, env)
                    &&& reg.tlas@.has(tla_id)
                    &&& !(entry.status is Registered)
                    &&& after.tlas@ == reg.tlas@.insert(tla_id, (TlaEntry { status: TlaStatus::Suspended, ..entry }))
                    &&& after.suspended_until@ == reg.suspended_until@.insert(
                        tla_id,
                        capped_u64(env.now + 604_800_000_000_000),
                    )
                    &&& after == (TlaRegistry { tlas: after.tlas, suspended_until: after.suspended_until, ..reg })
                },
                Err(e) => {
                    &&& after == reg
                    &&& {
                        ||| not_admin_because(e, reg, env)
                        ||| e is TlaNotFound && !reg.tlas@.has(tla_id)
                        ||| e is TlaNotActive && entry.status is Registered
                    }
                },
            }
        }),
        ({
            let reg = *old(lifting);
            let after = *final(lifting);
            let entry = reg.tlas@[tla_id];
            match s {
                Ok(_) => {
                    &&& by_admin(reg, env)
                    &&& reg.tlas@.has(tla_id)
                    &&& entry.status is Suspended
                    &&& entry.tla_type is Business ==> entry.licensee is Some
                    &&& after.tlas@ == reg.tlas@.insert(tla_id, (TlaEntry { status: TlaStatus::Active, ..entry }))
                    &&& after.suspended_until@ == reg.suspended_until@.remove(tla_id)
                    &&& after == (TlaRegistry { tlas: after.tlas, suspended_until: after.suspended_until, ..reg })
                },
                Err(e) => {
                    &&& after == reg
                    &&& {
                        ||| not_admin_because(e, reg, env)
                        ||| e is TlaNotFound && !reg.tlas@.has(tla_id)
                        ||| e is TlaNotSuspended && !(entry.status is Suspended)
                        ||| e is BusinessTlaMissingLicensee && entry.tla_type is Business && entry.licensee is None
                    }
                },
            }
        }),
{
}

// ---- authorities ------------------------------------------------------------------------------

/// The council makes and unmakes admins: at most thirty-two, and never none.
pub proof fn the_council_makes_and_unmakes_admins(
    adding: &mut TlaRegistry,
    removing: &mut TlaRegistry,
    env: Env,
    account: AccountId,
    r: Result<Reply<()>, ContractError>,
    s: Result<Reply<()>, ContractError>,
)
    requires
        call_ensures(TlaRegistry::add_admin, (adding, &env, account), r),
        call_ensures(TlaRegistry::remove_admin, (removing, &env, account), s),
    ensures
        ({
            let reg = *old(adding);
            let after = *final(adding);
            match r {
                Ok(reply) => {
                    &&& by_council(reg, env)
                    &&& reg.admins@.len() < 32
                    &&& reg.admins@.has(account) ==> after == reg && reply.events@.len() == 0
                    &&& !reg.admins@.has(account) ==> after.admins@ == reg.admins@.insert(account, ())
                        && reply.events@ == seq![Event::AdminAdded { account, by: env.predecessor }]
                    &&& after == (TlaRegistry { admins: after.admins, ..reg })
                },
                Err(e) => {
                    &&& after == reg
                    &&& {
                        ||| not_council_because(e, reg, env)
                        ||| e is AuthoritySetFull && reg.admins@.len() >= 32
                    }
                },
            }
        }),
        ({
            let reg = *old(removing);
            let after = *final(removing);
            match s {
                Ok(reply) => {
                    &&& by_council(reg, env)
                    &&& reg.admins@.len() > 1
                    &&& !reg.admins@.has(account) ==> after == reg && reply.events@.len() == 0
                    &&& reg.admins@.has(account) ==> after.admins@ == reg.admins@.remove(account)
                        && reply.events@ == seq![Event::AdminRemoved { account, by: env.predecessor }]
                    &&& after == (TlaRegistry { admins: after.admins, ..reg })
                },
                Err(e) => {
                    &&& after == reg
                    &&& {
                        ||| not_council_because(e, reg, env)
                        ||| e is CannotRemoveLastAdmin && reg.admins@.len() <= 1
                    }
                },
            }
        }),
{
}

/// The council makes and unmakes payment authorities, at most thirty-two.
pub proof fn the_council_makes_and_unmakes_payment_authorities(
    adding: &mut TlaRegistry,
    removing: &mut TlaRegistry,
    env: Env,
    account: AccountId,
    r: Result<Reply<()>, ContractError>,
    s: Result<Reply<()>, ContractError>,
)
    requires
        call_ensures(TlaRegistry::add_payment_authority, (adding, &env, account), r),
        call_ensures(TlaRegistry::remove_payment_authority, (removing, &env, account), s),
    ensures
        ({
            let reg = *old(adding);
            let after = *final(adding);
            match r {
                Ok(reply) => {
                    &&& by_council(reg, env)
                    &&& reg.payment_authorities@.len() < 32
                    &&& reg.payment_authorities@.has(account) ==> after == reg && reply.events@.len() == 0
                    &&& !reg.payment_authorities@.has(account) ==> after.payment_authorities@ == reg.payment_authorities@.insert(account, ())
                        && reply.events@ == seq![Event::PaymentAuthorityAdded { account, by: env.predecessor }]
                    &&& after == (TlaRegistry { payment_authorities: after.payment_authorities, ..reg })
                },
                Err(e) => {
                    &&& after == reg
                    &&& {
                        ||| not_council_because(e, reg, env)
                        ||| e is AuthoritySetFull && reg.payment_authorities@.len() >= 32
                    }
                },
            }
        }),
        ({
            let reg = *old(removing);
            let after = *final(removing);
            match s {
                Ok(reply) => {
                    &&& by_council(reg, env)
                    &&& !reg.payment_authorities@.has(account) ==> after == reg && reply.events@.len() == 0
                    &&& reg.payment_authorities@.has(account) ==> after.payment_authorities@ == reg.payment_authorities@.remove(account)
                        && reply.events@ == seq![Event::PaymentAuthorityRemoved { account, by: env.predecessor }]
                    &&& after == (TlaRegistry { payment_authorities: after.payment_authorities, ..reg })
                },
                Err(e) => {
                    &&& after == reg
                    &&& {
                        ||| not_council_because(e, reg, env)
                    }
                },
            }
        }),
{
}

/// The council makes and unmakes recovery authorities, at most thirty-two.
pub proof fn the_council_makes_and_unmakes_recovery_authorities(
    adding: &mut TlaRegistry,
    removing: &mut TlaRegistry,
    env: Env,
    account: AccountId,
    r: Result<Reply<()>, ContractError>,
    s: Result<Reply<()>, ContractError>,
)
    requires
        call_ensures(TlaRegistry::add_recovery_authority, (adding, &env, account), r),
        call_ensures(TlaRegistry::remove_recovery_authority, (removing, &env, account), s),
    ensures
        ({
            let reg = *old(adding);
            let after = *final(adding);
            match r {
                Ok(reply) => {
                    &&& by_council(reg, env)
                    &&& reg.recovery_authorities@.len() < 32
                    &&& reg.recovery_authorities@.has(account) ==> after == reg && reply.events@.len() == 0
                    &&& !reg.recovery_authorities@.has(account) ==> after.recovery_authorities@ == reg.recovery_authorities@.insert(account, ())
                        && reply.events@ == seq![Event::RecoveryAuthorityAdded { account, by: env.predecessor }]
                    &&& after == (TlaRegistry { recovery_authorities: after.recovery_authorities, ..reg })
                },
                Err(e) => {
                    &&& after == reg
                    &&& {
                        ||| not_council_because(e, reg, env)
                        ||| e is AuthoritySetFull && reg.recovery_authorities@.len() >= 32
                    }
                },
            }
        }),
        ({
            let reg = *old(removing);
            let after = *final(removing);
            match s {
                Ok(reply) => {
                    &&& by_council(reg, env)
                    &&& !reg.recovery_authorities@.has(account) ==> after == reg && reply.events@.len() == 0
                    &&& reg.recovery_authorities@.has(account) ==> after.recovery_authorities@ == reg.recovery_authorities@.remove(account)
                        && reply.events@ == seq![Event::RecoveryAuthorityRemoved { account, by: env.predecessor }]
                    &&& after == (TlaRegistry { recovery_authorities: after.recovery_authorities, ..reg })
                },
                Err(e) => {
                    &&& after == reg
                    &&& {
                        ||| not_council_because(e, reg, env)
                    }
                },
            }
        }),
{
}

/// The council opens and closes venues: at most eight, and never the registry itself.
pub proof fn the_council_opens_and_closes_venues(
    adding: &mut TlaRegistry,
    removing: &mut TlaRegistry,
    env: Env,
    account: AccountId,
    r: Result<Reply<()>, ContractError>,
    s: Result<Reply<()>, ContractError>,
)
    requires
        call_ensures(TlaRegistry::add_venue, (adding, &env, account), r),
        call_ensures(TlaRegistry::remove_venue, (removing, &env, account), s),
    ensures
        ({
            let reg = *old(adding);
            let after = *final(adding);
            match r {
                Ok(reply) => {
                    &&& by_council(reg, env)
                    &&& reg.venues@.len() < 8
                    &&& account != env.current
                    &&& reg.venues@.has(account) ==> after == reg && reply.events@.len() == 0
                    &&& !reg.venues@.has(account) ==> after.venues@ == reg.venues@.insert(account, ())
                        && reply.events@ == seq![Event::VenueAdded { account, by: env.predecessor }]
                    &&& after == (TlaRegistry { venues: after.venues, ..reg })
                },
                Err(e) => {
                    &&& after == reg
                    &&& {
                        ||| not_council_because(e, reg, env)
                        ||| e is AllowlistFull && reg.venues@.len() >= 8
                        ||| e is VenueIsRegistry && account == env.current
                    }
                },
            }
        }),
        ({
            let reg = *old(removing);
            let after = *final(removing);
            match s {
                Ok(reply) => {
                    &&& by_council(reg, env)
                    &&& !reg.venues@.has(account) ==> after == reg && reply.events@.len() == 0
                    &&& reg.venues@.has(account) ==> after.venues@ == reg.venues@.remove(account)
                        && reply.events@ == seq![Event::VenueRemoved { account, by: env.predecessor }]
                    &&& after == (TlaRegistry { venues: after.venues, ..reg })
                },
                Err(e) => {
                    &&& after == reg
                    &&& {
                        ||| not_council_because(e, reg, env)
                    }
                },
            }
        }),
{
}

/// An admin gates a token: at most sixteen are gated, a gated one becomes sweepable, and at most sixty-four are. An admin lifts
/// that again, which leaves it sweepable; the council takes a token that is no longer gated off the sweepable ones.
pub proof fn tokens_are_gated_and_swept(
    gating: &mut TlaRegistry,
    lifting: &mut TlaRegistry,
    closing: &mut TlaRegistry,
    env: Env,
    token: AccountId,
    r: Result<Reply<()>, ContractError>,
    s: Result<Reply<()>, ContractError>,
    t: Result<Reply<()>, ContractError>,
)
    requires
        call_ensures(TlaRegistry::add_ft_allowlist, (gating, &env, token), r),
        call_ensures(TlaRegistry::remove_ft_allowlist, (lifting, &env, token), s),
        call_ensures(TlaRegistry::remove_sweepable_token, (closing, &env, token), t),
    ensures
        ({
            let reg = *old(gating);
            let after = *final(gating);
            let gated = reg.ft_allowlist@.has(token);
            let full = reg.ft_allowlist@.len() >= 16 || !reg.sweepable_tokens@.has(token) && reg.sweepable_tokens@.len()
                >= 64;
            match r {
                Ok(_) => {
                    &&& by_admin(reg, env)
                    &&& gated || !full
                    &&& gated ==> after == reg
                    &&& !gated ==> {
                        &&& after.ft_allowlist@ == reg.ft_allowlist@.insert(token, ())
                        &&& after.sweepable_tokens@ == reg.sweepable_tokens@.insert(token, ())
                        &&& after == (TlaRegistry {
                            ft_allowlist: after.ft_allowlist,
                            sweepable_tokens: after.sweepable_tokens,
                            ..reg
                        })
                    }
                },
                Err(e) => {
                    &&& after == reg
                    &&& {
                        ||| not_admin_because(e, reg, env)
                        ||| e is AllowlistFull && !gated && full
                    }
                },
            }
        }),
        ({
            let reg = *old(lifting);
            let after = *final(lifting);
            match s {
                Ok(_) => {
                    &&& by_admin(reg, env)
                    &&& !reg.ft_allowlist@.has(token) ==> after == reg
                    &&& reg.ft_allowlist@.has(token) ==> after.ft_allowlist@ == reg.ft_allowlist@.remove(token)
                    &&& after == (TlaRegistry { ft_allowlist: after.ft_allowlist, ..reg })
                },
                Err(e) => after == reg && not_admin_because(e, reg, env),
            }
        }),
        ({
            let reg = *old(closing);
            let after = *final(closing);
            match t {
                Ok(_) => {
                    &&& by_council(reg, env)
                    &&& !reg.ft_allowlist@.has(token)
                    &&& !reg.sweepable_tokens@.has(token) ==> after == reg
                    &&& reg.sweepable_tokens@.has(token) ==> after.sweepable_tokens@ == reg.sweepable_tokens@.remove(token)
                    &&& after == (TlaRegistry { sweepable_tokens: after.sweepable_tokens, ..reg })
                },
                Err(e) => {
                    &&& after == reg
                    &&& {
                        ||| not_council_because(e, reg, env)
                        ||| e is TokenStillAllowlisted && reg.ft_allowlist@.has(token)
                    }
                },
            }
        }),
{
}

/// The council allows a payment authority a number of mints, not zero, under a registered account, and takes the allowance away
/// again together with the count of what was used.
pub proof fn the_council_allows_mints(
    binding: &mut TlaRegistry,
    unbinding: &mut TlaRegistry,
    env: Env,
    account: AccountId,
    tla_id: AccountId,
    max_mints: u64,
    r: Result<Reply<()>, ContractError>,
    s: Result<Reply<()>, ContractError>,
)
    requires
        call_ensures(TlaRegistry::bind_payment_authority_tla, (binding, &env, account, tla_id, max_mints), r),
        call_ensures(TlaRegistry::unbind_payment_authority_tla, (unbinding, &env, account, tla_id), s),
    ensures
        ({
            let reg = *old(binding);
            let after = *final(binding);
            match r {
                Ok(_) => {
                    &&& by_council(reg, env)
                    &&& reg.payment_authorities@.has(account)
                    &&& reg.tlas@.has(tla_id)
                    &&& max_mints > 0
                    &&& after.authority_allowances@ == reg.authority_allowances@.insert((account, tla_id), max_mints)
                    &&& after == (TlaRegistry { authority_allowances: after.authority_allowances, ..reg })
                },
                Err(e) => {
                    &&& after == reg
                    &&& {
                        ||| not_council_because(e, reg, env)
                        ||| e is OnlyPaymentAuthority && !reg.payment_authorities@.has(account)
                        ||| e is TlaNotFound && !reg.tlas@.has(tla_id)
                        ||| e is AuthorityMintAllowanceZero && max_mints == 0
                    }
                },
            }
        }),
        ({
            let reg = *old(unbinding);
            let after = *final(unbinding);
            match s {
                Ok(_) => {
                    &&& by_council(reg, env)
                    &&& after.authority_allowances@ == reg.authority_allowances@.remove((account, tla_id))
                    &&& after.authority_mints@ == reg.authority_mints@.remove((account, tla_id))
                    &&& after == (TlaRegistry {
                        authority_allowances: after.authority_allowances,
                        authority_mints: after.authority_mints,
                        ..reg
                    })
                },
                Err(e) => after == reg && not_council_because(e, reg, env),
            }
        }),
{
}

/// An admin frees an order that has been in flight for an hour, and its authority counts one mint fewer; a settled order is never
/// freed.
pub proof fn an_admin_frees_a_hanging_order(
    registry: &mut TlaRegistry,
    env: Env,
    order_id: String,
    r: Result<Reply<()>, ContractError>,
)
    requires
        call_ensures(TlaRegistry::admin_release_paid_order, (registry, &env, order_id), r),
    ensures
        ({
            let reg = *old(registry);
            let after = *final(registry);
            let known = reg.paid_order_ids@.has(order_id@);
            let held = reg.paid_order_ids@[order_id@];
            match r {
                Ok(_) => {
                    &&& by_admin(reg, env)
                    &&& known
                    &&& held matches PaidOrderState::InFlight { payer, tla_id, started_at, .. }
                    &&& env.now >= started_at + 3_600_000_000_000
                    &&& after.paid_order_ids@ == reg.paid_order_ids@.remove(order_id@)
                    &&& after.mints_used(payer, tla_id) == (if reg.mints_used(payer, tla_id) == 0 {
                        0
                    } else {
                        reg.mints_used(payer, tla_id) - 1
                    })
                    &&& after == (TlaRegistry {
                        paid_order_ids: after.paid_order_ids,
                        authority_mints: after.authority_mints,
                        ..reg
                    })
                },
                Err(e) => {
                    &&& after == reg
                    &&& {
                        ||| not_admin_because(e, reg, env)
                        ||| e is PaidOrderNotFound && !known
                        ||| e is PaidOrderAlreadySettled && held is Settled
                        ||| e is PaidOrderStillInFlight && (held matches PaidOrderState::InFlight { started_at, .. }
                            && env.now < started_at + 3_600_000_000_000)
                    }
                },
            }
        }),
{
}

// ---- fees and money ---------------------------------------------------------------------------

/// The council changes the fees exactly to a configuration that charges something by length, falls as names grow, pays for creation,
/// keeps its rates and shares within their bounds, keeps the stored rate usable, leaves a business room, gives at least a day's
/// notice, and stays within the price cap.
pub proof fn the_council_sets_sound_fees(registry: &mut TlaRegistry, env: Env, c: FeeConfig, r: Result<Reply<()>, ContractError>)
    requires
        call_ensures(TlaRegistry::update_fee_config, (registry, &env, c), r),
    ensures
        ({
            let reg = *old(registry);
            let after = *final(registry);
            let rate = reg.near_usd_rate_micro;
            let cap: int = 100_000_000_000_000;
            let charges = c.rent_tier_5_usd_micro > 0 || c.rent_tier_8_usd_micro > 0 || c.rent_tier_10_usd_micro > 0
                || c.rent_tier_12plus_usd_micro > 0;
            let descends = c.rent_tier_5_usd_micro >= c.rent_tier_8_usd_micro && c.rent_tier_8_usd_micro
                >= c.rent_tier_10_usd_micro && c.rent_tier_10_usd_micro >= c.rent_tier_12plus_usd_micro;
            let bounded = c.max_rate_move_bps <= 10_000 && c.quote_slippage_bps <= 10_000 && 0
                < c.min_near_usd_rate_micro && c.min_near_usd_rate_micro <= c.max_near_usd_rate_micro
                && c.max_near_usd_rate_micro <= 1_000_000_000_000 && 0 < c.rate_update_cooldown_ns
                && c.rate_update_cooldown_ns <= c.max_rate_age_ns;
            let usable = rate == 0 || c.min_near_usd_rate_micro <= rate && rate <= c.max_near_usd_rate_micro;
            let capped = c.tla_allocation_fee_usd_micro <= cap && c.rent_tier_5_usd_micro <= cap
                && c.rent_tier_8_usd_micro <= cap && c.rent_tier_10_usd_micro <= cap && c.rent_tier_12plus_usd_micro
                <= cap && c.sub_fee_per_account_usd_micro <= cap;
            match r {
                Ok(_) => {
                    &&& by_council(reg, env)
                    &&& charges
                    &&& c.account_creation_deposit_yocto > 0
                    &&& descends
                    &&& bounded
                    &&& usable
                    &&& c.business_max_subs > 0
                    &&& c.retraction_notice_ns >= 86_400_000_000_000
                    &&& capped
                    &&& after == (TlaRegistry { fee_config: c, ..reg })
                },
                Err(e) => {
                    &&& after == reg
                    &&& {
                        ||| not_council_because(e, reg, env)
                        ||| e is AllRentTiersZero && !charges
                        ||| e is CreationDepositZero && c.account_creation_deposit_yocto == 0
                        ||| e is RentTiersNotDescending && !descends
                        ||| e is InvalidRateBounds && !bounded
                        ||| e is RateOutOfBounds && !usable
                        ||| e is InvalidBusinessCap && c.business_max_subs == 0
                        ||| e is RetractionNoticeTooShort && c.retraction_notice_ns < 86_400_000_000_000
                        ||| e is FeeExceedsCap && !capped
                    }
                },
            }
        }),
{
}

/// The treasury or the council releases revenue to the treasury: some, no more than was earned, and no more than the account can
/// spend beyond its storage stake and all that it owes. It leaves the revenue and is owed to the treasury, and to nobody else.
pub proof fn revenue_goes_to_the_treasury(registry: &mut TlaRegistry, env: Env, amount: u128, other: AccountId, r: Result<Reply<()>, ContractError>)
    requires
        call_ensures(TlaRegistry::withdraw, (registry, &env, amount), r),
        other != old(registry).treasury,
    ensures
        ({
            let reg = *old(registry);
            let after = *final(registry);
            let stake = env.storage_byte_cost * env.storage_usage;
            let short = capped_u128(reg.total_pending_refunds + amount) > (if env.balance > stake {
                env.balance - stake
            } else {
                0
            });
            match r {
                Ok(_) => {
                    &&& env.deposit == 1
                    &&& env.predecessor == reg.treasury || env.predecessor == reg.council
                    &&& 0 < amount
                    &&& amount <= reg.total_revenue
                    &&& !short
                    &&& after.total_revenue == reg.total_revenue - amount
                    &&& after.refund_of(reg.treasury) == capped_u128(reg.refund_of(reg.treasury) + amount)
                    &&& after.refund_of(other) == reg.refund_of(other)
                    &&& after.total_pending_refunds == capped_u128(reg.total_pending_refunds + amount)
                    &&& after == (TlaRegistry {
                        total_revenue: after.total_revenue,
                        pending_refunds: after.pending_refunds,
                        total_pending_refunds: after.total_pending_refunds,
                        ..reg
                    })
                },
                Err(e) => {
                    &&& after == reg
                    &&& {
                        ||| e is RequiresOneYocto && env.deposit != 1
                        ||| e is OnlyTreasuryOrCouncil && env.predecessor != reg.treasury && env.predecessor != reg.council
                        ||| e is WithdrawalAmountZero && amount == 0
                        ||| e is InsufficientRevenue && amount > reg.total_revenue
                        ||| e is InsufficientContractBalance && short
                    }
                },
            }
        }),
{
    let stake = env.storage_byte_cost * env.storage_usage;
    assert(stake >= 0) by (nonlinear_arith)
        requires
            stake == env.storage_byte_cost * env.storage_usage,
    ;
}

/// The council sets the lease term of later rentals, of a minute to ten years.
pub proof fn the_council_sets_the_lease_term(registry: &mut TlaRegistry, env: Env, term: u64, r: Result<Reply<()>, ContractError>)
    requires
        call_ensures(TlaRegistry::set_lease_term_ns, (registry, &env, term), r),
    ensures
        ({
            let reg = *old(registry);
            let after = *final(registry);
            match r {
                Ok(_) => {
                    &&& by_council(reg, env)
                    &&& 60_000_000_000 <= term <= 315_360_000_000_000_000
                    &&& after == (TlaRegistry { lease_term_ns: term, ..reg })
                },
                Err(e) => {
                    &&& after == reg
                    &&& {
                        ||| not_council_because(e, reg, env)
                        ||| e is LeaseTermTooShort && term < 60_000_000_000
                        ||| e is LeaseTermTooLong && term > 315_360_000_000_000_000
                    }
                },
            }
        }),
{
}

/// The council agrees terms for a registered account: a fee for its names only where it is a business, and no fee beyond the price cap.
/// What was agreed is what holds from then on, and no other account's terms change.
pub proof fn the_council_agrees_terms(
    registry: &mut TlaRegistry,
    env: Env,
    tla_id: AccountId,
    terms: TlaTerms,
    other: AccountId,
    r: Result<Reply<()>, ContractError>,
)
    requires
        call_ensures(TlaRegistry::set_tla_terms, (registry, &env, tla_id, terms), r),
        other != tla_id,
    ensures
        ({
            let reg = *old(registry);
            let after = *final(registry);
            let cap: int = 100_000_000_000_000;
            let over = (terms.allocation_fee_usd_micro is Some && terms.allocation_fee_usd_micro->0 > cap) || (
            terms.tla_rent_usd_micro is Some && terms.tla_rent_usd_micro->0 > cap) || (terms.sub_fee_usd_micro is Some
                && terms.sub_fee_usd_micro->0 > cap);
            match r {
                Ok(_) => {
                    &&& by_council(reg, env)
                    &&& reg.tlas@.has(tla_id)
                    &&& terms.sub_fee_usd_micro is Some ==> reg.tlas@[tla_id].tla_type is Business
                    &&& !over
                    &&& after.terms_of(tla_id) == terms
                    &&& after.terms_of(other) == reg.terms_of(other)
                    &&& after == (TlaRegistry { tla_terms: after.tla_terms, ..reg })
                },
                Err(e) => {
                    &&& after == reg
                    &&& {
                        ||| not_council_because(e, reg, env)
                        ||| e is TlaNotFound && !reg.tlas@.has(tla_id)
                        ||| e is NotBusinessTla && terms.sub_fee_usd_micro is Some && reg.tlas@[tla_id].tla_type is Open
                        ||| e is FeeExceedsCap && over
                    }
                },
            }
        }),
{
}

/// The council caps the names of one business account, or lets the general cap hold for it again; no other account's cap changes.
pub proof fn the_council_caps_a_business(
    registry: &mut TlaRegistry,
    env: Env,
    tla_id: AccountId,
    cap: Option<u32>,
    other: AccountId,
    r: Result<Reply<()>, ContractError>,
)
    requires
        call_ensures(TlaRegistry::set_business_sub_cap, (registry, &env, tla_id, cap), r),
        other != tla_id,
    ensures
        ({
            let reg = *old(registry);
            let after = *final(registry);
            match r {
                Ok(_) => {
                    &&& by_council(reg, env)
                    &&& reg.tlas@.has(tla_id)
                    &&& reg.tlas@[tla_id].tla_type is Business
                    &&& cap is Some ==> after.business_cap(tla_id) == cap->0
                    &&& cap is None ==> after.business_cap(tla_id) == reg.fee_config.business_max_subs
                    &&& after.business_cap(other) == reg.business_cap(other)
                    &&& after == (TlaRegistry { business_sub_cap_override: after.business_sub_cap_override, ..reg })
                },
                Err(e) => {
                    &&& after == reg
                    &&& {
                        ||| not_council_because(e, reg, env)
                        ||| e is TlaNotFound && !reg.tlas@.has(tla_id)
                        ||| e is NotBusinessTla && reg.tlas@[tla_id].tla_type is Open
                    }
                },
            }
        }),
{
}

// ---- the rate ---------------------------------------------------------------------------------

/// The council sets the first rate, within the band, and only the first.
pub proof fn the_council_sets_the_first_rate(registry: &mut TlaRegistry, env: Env, rate: u128, r: Result<Reply<()>, ContractError>)
    requires
        call_ensures(TlaRegistry::admin_set_initial_rate, (registry, &env, rate), r),
    ensures
        ({
            let reg = *old(registry);
            let after = *final(registry);
            let in_band = reg.fee_config.min_near_usd_rate_micro <= rate && rate <= reg.fee_config.max_near_usd_rate_micro;
            match r {
                Ok(reply) => {
                    &&& by_council(reg, env)
                    &&& reg.near_usd_rate_micro == 0
                    &&& in_band
                    &&& rate_is_stored(after, reg, env, rate)
                    &&& reply.events@.len() == 1
                },
                Err(e) => {
                    &&& after == reg
                    &&& {
                        ||| not_council_because(e, reg, env)
                        ||| e is RateAlreadyInitialized && reg.near_usd_rate_micro != 0
                        ||| e is RateOutOfBounds && !in_band
                    }
                },
            }
        }),
{
}

/// The rate is in place from now on, one step later than the one before, and nothing else changes.
pub open spec fn rate_is_stored(after: TlaRegistry, reg: TlaRegistry, env: Env, rate: u128) -> bool {
    after == (TlaRegistry {
        near_usd_rate_micro: rate,
        rate_updated_at: env.now,
        rate_sequence: capped_u64(reg.rate_sequence + 1),
        ..reg
    })
}

/// The oracle moves the rate exactly once there is one and the cooldown is over, within the band, and from a rate in the band by no
/// more than the share allowed, up or down; from a rate outside the band it may come back by any step, which is reported.
pub proof fn the_oracle_moves_the_rate_within_bounds(registry: &mut TlaRegistry, env: Env, rate: u128, r: Result<Reply<()>, ContractError>)
    requires
        old(registry).wf(),
        call_ensures(TlaRegistry::set_near_usd_rate, (registry, &env, rate), r),
    ensures
        ({
            let reg = *old(registry);
            let after = *final(registry);
            let c = reg.fee_config;
            let old_rate = reg.near_usd_rate_micro;
            let in_band = c.min_near_usd_rate_micro <= rate && rate <= c.max_near_usd_rate_micro;
            let was_in_band = c.min_near_usd_rate_micro <= old_rate && old_rate <= c.max_near_usd_rate_micro;
            let near = old_rate * (10_000 - c.max_rate_move_bps) <= rate * 10_000 && rate * 10_000 <= old_rate * (10_000
                + c.max_rate_move_bps);
            let allowed = c.max_rate_move_bps <= 10_000 && in_band && (was_in_band ==> near);
            let early = env.now < capped_u64(reg.rate_updated_at + c.rate_update_cooldown_ns);
            match r {
                Ok(reply) => {
                    &&& env.predecessor == reg.price_oracle
                    &&& old_rate > 0
                    &&& !early
                    &&& allowed
                    &&& rate_is_stored(after, reg, env, rate)
                    &&& was_in_band ==> reply.events@.len() == 1
                    &&& !was_in_band ==> reply.events@.len() == 2 && reply.events@[0] == (Event::RateRecoveredFromOutOfBand {
                        stranded_micro: old_rate,
                        new_micro: rate,
                        by: env.predecessor,
                    })
                    &&& reply.events@.last() == (Event::NearUsdRateUpdated {
                        previous_micro: old_rate,
                        new_micro: rate,
                        sequence: after.rate_sequence,
                        by: env.predecessor,
                    })
                },
                Err(e) => {
                    &&& after == reg
                    &&& {
                        ||| e is OnlyPriceOracle && env.predecessor != reg.price_oracle
                        ||| e is RateNotInitialized && old_rate == 0
                        ||| e is RateCooldown && early
                        ||| e is RateOutOfBounds && !allowed
                    }
                },
            }
        }),
{
    let reg = *old(registry);
    let old_rate = reg.near_usd_rate_micro as int;
    let bps = reg.fee_config.max_rate_move_bps as int;
    let lo = old_rate * (10_000 - bps);
    let hi = old_rate * (10_000 + bps);
    assert(lo + 9_999 - 10_000 * ((lo + 9_999) / 10_000) <= 9_999);
    assert(10_000 * (hi / 10_000) <= hi < 10_000 * (hi / 10_000) + 10_000);
    assert(10_000 * ((lo + 9_999) / 10_000) <= lo + 9_999);
    assert(crate::pricing::lowest_rate(old_rate, bps) == (lo + 9_999) / 10_000);
    assert(crate::pricing::highest_rate(old_rate, bps) == hi / 10_000);
}

/// The council appoints the oracle.
pub proof fn the_council_appoints_the_oracle(registry: &mut TlaRegistry, env: Env, account: AccountId, r: Result<Reply<()>, ContractError>)
    requires
        call_ensures(TlaRegistry::set_price_oracle, (registry, &env, account), r),
    ensures
        r is Ok <==> by_council(*old(registry), env),
        r is Ok ==> *final(registry) == (TlaRegistry { price_oracle: account, ..*old(registry) }),
        r matches Err(e) ==> not_council_because(e, *old(registry), env) && *final(registry) == *old(registry),
{
}

// ---- council and treasury ---------------------------------------------------------------------

/// The council names an heir, another account than itself and than the registry, and may take that back; the heir takes over by its
/// own call with one yocto, once the delay has passed since it was named.
pub proof fn the_council_passes_on(
    naming: &mut TlaRegistry,
    cancelling: &mut TlaRegistry,
    taking: &mut TlaRegistry,
    env: Env,
    heir: AccountId,
    r: Result<Reply<()>, ContractError>,
    s: Result<Reply<()>, ContractError>,
    t: Result<Reply<()>, ContractError>,
)
    requires
        call_ensures(TlaRegistry::approve_council_rotation, (naming, &env, heir), r),
        call_ensures(TlaRegistry::cancel_council_rotation, (cancelling, &env), s),
        call_ensures(TlaRegistry::commit_council_rotation, (taking, &env), t),
    ensures
        ({
            let reg = *old(naming);
            let after = *final(naming);
            match r {
                Ok(_) => {
                    &&& by_council(reg, env)
                    &&& heir != reg.council
                    &&& heir != env.current
                    &&& after == (TlaRegistry {
                        pending_council: Some(heir),
                        pending_council_at: Some(env.now),
                        ..reg
                    })
                },
                Err(e) => {
                    &&& after == reg
                    &&& {
                        ||| not_council_because(e, reg, env)
                        ||| e is CouncilUnchanged && heir == reg.council
                        ||| e is CouncilIsSelf && heir == env.current
                    }
                },
            }
        }),
        ({
            let reg = *old(cancelling);
            let after = *final(cancelling);
            match s {
                Ok(_) => {
                    &&& by_council(reg, env)
                    &&& reg.pending_council is Some
                    &&& after == (TlaRegistry { pending_council: None, pending_council_at: None, ..reg })
                },
                Err(e) => {
                    &&& after == reg
                    &&& {
                        ||| not_council_because(e, reg, env)
                        ||| e is NoCouncilRotationPending && reg.pending_council is None
                    }
                },
            }
        }),
        ({
            let reg = *old(taking);
            let after = *final(taking);
            match t {
                Ok(_) => {
                    &&& env.deposit == 1
                    &&& reg.pending_council == Some(env.predecessor)
                    &&& reg.pending_council_at is Some
                    &&& env.now >= capped_u64(reg.pending_council_at->0 + reg.upgrade_delay_ns)
                    &&& after == (TlaRegistry {
                        council: env.predecessor,
                        pending_council: None,
                        pending_council_at: None,
                        ..reg
                    })
                },
                Err(e) => {
                    &&& after == reg
                    &&& {
                        ||| e is RequiresOneYocto && env.deposit != 1
                        ||| e is NoCouncilRotationPending && (reg.pending_council is None || reg.pending_council_at is None)
                        ||| e is OnlyPendingCouncil && reg.pending_council != Some(env.predecessor)
                        ||| e is CouncilRotationTooYoung && env.now < capped_u64(
                            reg.pending_council_at->0 + reg.upgrade_delay_ns,
                        )
                    }
                },
            }
        }),
{
}

/// The council names the next treasury, another account than the present one and than the registry, and may take that back; the next
/// treasury takes over by its own call with one yocto.
pub proof fn the_treasury_passes_on(
    naming: &mut TlaRegistry,
    cancelling: &mut TlaRegistry,
    taking: &mut TlaRegistry,
    env: Env,
    heir: AccountId,
    r: Result<Reply<()>, ContractError>,
    s: Result<Reply<()>, ContractError>,
    t: Result<Reply<()>, ContractError>,
)
    requires
        call_ensures(TlaRegistry::approve_treasury_rotation, (naming, &env, heir), r),
        call_ensures(TlaRegistry::cancel_treasury_rotation, (cancelling, &env), s),
        call_ensures(TlaRegistry::commit_treasury_rotation, (taking, &env), t),
    ensures
        ({
            let reg = *old(naming);
            let after = *final(naming);
            match r {
                Ok(_) => {
                    &&& by_council(reg, env)
                    &&& heir != reg.treasury
                    &&& heir != env.current
                    &&& after == (TlaRegistry { pending_treasury: Some(heir), ..reg })
                },
                Err(e) => {
                    &&& after == reg
                    &&& {
                        ||| not_council_because(e, reg, env)
                        ||| e is TreasuryUnchanged && heir == reg.treasury
                        ||| e is TreasuryIsSelf && heir == env.current
                    }
                },
            }
        }),
        ({
            let reg = *old(cancelling);
            let after = *final(cancelling);
            match s {
                Ok(_) => {
                    &&& by_council(reg, env)
                    &&& reg.pending_treasury is Some
                    &&& after == (TlaRegistry { pending_treasury: None, ..reg })
                },
                Err(e) => {
                    &&& after == reg
                    &&& {
                        ||| not_council_because(e, reg, env)
                        ||| e is NoTreasuryRotationPending && reg.pending_treasury is None
                    }
                },
            }
        }),
        ({
            let reg = *old(taking);
            let after = *final(taking);
            match t {
                Ok(_) => {
                    &&& env.deposit == 1
                    &&& reg.pending_treasury == Some(env.predecessor)
                    &&& after == (TlaRegistry { treasury: env.predecessor, pending_treasury: None, ..reg })
                },
                Err(e) => {
                    &&& after == reg
                    &&& {
                        ||| e is RequiresOneYocto && env.deposit != 1
                        ||| e is NoTreasuryRotationPending && reg.pending_treasury is None
                        ||| e is OnlyPendingTreasury && reg.pending_treasury != Some(env.predecessor)
                    }
                },
            }
        }),
{
}

// ---- upgrades ---------------------------------------------------------------------------------

/// The council approves code by its digest, from now on.
pub proof fn the_council_approves_code(registry: &mut TlaRegistry, env: Env, digest: [u8; 32], r: Result<Reply<()>, ContractError>)
    requires
        call_ensures(TlaRegistry::approve_upgrade, (registry, &env, digest), r),
    ensures
        r is Ok <==> by_council(*old(registry), env),
        r is Ok ==> *final(registry) == (TlaRegistry {
            approved_code_hash: Some(digest),
            approved_at: Some(env.now),
            ..*old(registry)
        }),
        r matches Err(e) ==> not_council_because(e, *old(registry), env) && *final(registry) == *old(registry),
{
}

/// The council installs code exactly if there is some, it bears the approved digest, and the delay has passed since the approval; the
/// approval is spent, and the registry itself gets the code.
pub proof fn approved_code_is_installed_after_its_delay(
    registry: &mut TlaRegistry,
    env: Env,
    code: Vec<u8>,
    digest: [u8; 32],
    r: Result<Reply<Dispatch>, ContractError>,
)
    requires
        call_ensures(TlaRegistry::upgrade_with_digest, (registry, &env, code, digest), r),
    ensures
        code_is_installed(*final(registry), *old(registry), env, code, digest@, r),
{
}

/// What an upgrade with a code of that digest comes to.
pub open spec fn code_is_installed(
    after: TlaRegistry,
    reg: TlaRegistry,
    env: Env,
    code: Vec<u8>,
    digest: Seq<u8>,
    r: Result<Reply<Dispatch>, ContractError>,
) -> bool {
    match r {
        Ok(reply) => {
            &&& by_council(reg, env)
            &&& code@.len() > 0
            &&& reg.approved_code_hash is Some
            &&& reg.approved_code_hash->0@ == digest
            &&& reg.approved_at is Some
            &&& env.now >= capped_u64(reg.approved_at->0 + reg.upgrade_delay_ns)
            &&& reply.value.call == (Call::DeployAndMigrate { account: env.current, code, reserved_tgas: 60 })
            &&& after == (TlaRegistry { approved_code_hash: None, approved_at: None, ..reg })
        },
        Err(e) => {
            &&& after == reg
            &&& {
                ||| not_council_because(e, reg, env)
                ||| e is EmptyCode && code@.len() == 0
                ||| e is NoApprovedHash && (reg.approved_code_hash is None || reg.approved_at is None)
                ||| e is HashMismatch && reg.approved_code_hash->0@ != digest
                ||| e is ApprovalTooYoung && env.now < capped_u64(reg.approved_at->0 + reg.upgrade_delay_ns)
            }
        },
    }
}

/// An upgrade is judged by the digest of the very code that it brings.
pub proof fn an_upgrade_is_judged_by_its_own_digest(registry: &mut TlaRegistry, env: Env, code: Vec<u8>, r: Result<Reply<Dispatch>, ContractError>)
    requires
        call_ensures(TlaRegistry::upgrade, (registry, &env, code), r),
    ensures
        code_is_installed(*final(registry), *old(registry), env, code, crate::common::sha256_of(code@), r),
{
}

/// The council deletes a key of the registry exactly once an upgrade has run, and only a deletion that went through is reported as
/// one.
pub proof fn the_council_seals_a_proven_registry(
    registry: &mut TlaRegistry,
    settled: &mut TlaRegistry,
    env: Env,
    public_key: String,
    success: bool,
    by: AccountId,
    r: Result<Reply<Dispatch>, ContractError>,
    s: Reply<bool>,
)
    requires
        call_ensures(TlaRegistry::seal, (registry, &env, public_key), r),
        call_ensures(TlaRegistry::after_seal, (settled, public_key, by, success), s),
    ensures
        *final(registry) == *old(registry),
        *final(settled) == *old(settled),
        r is Ok <==> by_council(*old(registry), env) && old(registry).upgrade_proven,
        r matches Ok(reply) ==> {
            &&& reply.value.call == (Call::DeleteKey { account: env.current, public_key })
            &&& reply.value.callback == (Callback::AfterSeal { public_key, by: env.predecessor })
        },
        r matches Err(e) ==> not_council_because(e, *old(registry), env) || e is UpgradeNotProven && !old(
            registry,
        ).upgrade_proven,
        s.value == success,
        success ==> s.events@ == seq![Event::Sealed { public_key, by }],
        !success ==> s.events@ == seq![Event::SealFailed { public_key, by }],
{
}

/// An admin names the collection.
pub proof fn an_admin_names_the_collection(
    registry: &mut TlaRegistry,
    env: Env,
    name: String,
    symbol: String,
    icon: Option<String>,
    base_uri: Option<String>,
    reference: Option<String>,
    r: Result<Reply<()>, ContractError>,
)
    requires
        call_ensures(TlaRegistry::admin_set_nft_metadata, (registry, &env, name, symbol, icon, base_uri, reference), r),
    ensures
        r is Ok <==> by_admin(*old(registry), env),
        r matches Err(e) ==> not_admin_because(e, *old(registry), env) && *final(registry) == *old(registry),
        r is Ok ==> {
            let m = final(registry).nft_contract_metadata;
            &&& m.name == name
            &&& m.symbol == symbol
            &&& m.icon == icon
            &&& m.base_uri == base_uri
            &&& m.reference == reference
            &&& m.reference_hash is None
            &&& m.spec@ == "nft-1.0.0"@
            &&& *final(registry) == (TlaRegistry { nft_contract_metadata: m, ..*old(registry) })
        },
{
}

} // verus!
