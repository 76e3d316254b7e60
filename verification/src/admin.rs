//! What the council and the admins decide.
use vstd::prelude::*;

use crate::account::{named_account, sub_account_key, AccountId, FullName};
use crate::common::{same_digest, sha256, MAX_AUTHORITY_HOLD_NS};
use crate::error::ContractError;
use crate::events::Event;
use crate::host::{logged, quiet, Call, Callback, Dispatch, Env, Reply};
use crate::pricing::{MAX_NEAR_USD_RATE_MICRO, MAX_USD_MICRO};
use crate::registry::{assert_one_yocto, TlaRegistry, MAX_LEASE_TERM_NS, MIN_LEASE_TERM_NS};
use crate::types::{
    validate_name, FeeConfig, PaidOrderState, ParkedEntry, PremiumCategory, TlaEntry,
    TlaRegistration, TlaStatus, TlaType, ONE_YEAR_NS,
};

verus! {

pub const MAX_ALLOWLIST_SIZE: usize = 16;

/// One hour.
pub const MANUAL_ORDER_RELEASE_AFTER_NS: u64 = 3_600_000_000_000;

/// The most bytes that one receipt may log.
pub const LOG_BUDGET_BYTES: usize = 16_384;

/// What a batch's event logs besides its ids.
pub const LOG_ENVELOPE_BYTES: usize = 512;

pub const MAX_TLA_BATCH: usize = 650;

pub const MAX_SWEEPABLE_SIZE: usize = 64;

pub const MAX_VENUES: usize = 8;

pub const MAX_AUTHORITY_SET: usize = 32;

pub const SEAL_CB_TGAS: u64 = 5;

/// One day. The registry pushes now plus the notice, and the wallet holds it to its own floor a
/// block later, so this one is longer.
pub const MIN_RETRACTION_NOTICE_NS: u64 = 86_400_000_000_000;

/// A retraction at the shortest notice still clears the wallet's floor.
pub proof fn notice_clears_the_wallet_floor()
    ensures
        MIN_RETRACTION_NOTICE_NS > crate::common::MIN_LEASE_RETRACT_NOTICE_NS,
{
}

/// The bytes that the ids take in a log: each with its quotes and its comma.
pub open spec fn logged_bytes(ids: Seq<AccountId>) -> nat
    decreases ids.len(),
{
    if ids.len() == 0 {
        0
    } else {
        logged_bytes(ids.drop_last()) + ids.last()@.len() + 3
    }
}

pub open spec fn batch_refusal(ids: Seq<AccountId>) -> Option<ContractError> {
    if ids.len() == 0 {
        Some(ContractError::EmptyBatch)
    } else if ids.len() > MAX_TLA_BATCH {
        Some(ContractError::BatchTooLarge)
    } else if logged_bytes(ids) + LOG_ENVELOPE_BYTES > LOG_BUDGET_BYTES {
        Some(ContractError::BatchTooLarge)
    } else if !ids.no_duplicates() {
        Some(ContractError::DuplicateInBatch)
    } else {
        None
    }
}

/// A batch must not be empty, and must fit the batch and log limits.
fn assert_batch_fits(ids: &Vec<AccountId>) -> (r: Result<(), ContractError>)
    ensures
        r == (if ids@.len() == 0 {
            Err(ContractError::EmptyBatch)
        } else if ids@.len() > MAX_TLA_BATCH || logged_bytes(ids@) + LOG_ENVELOPE_BYTES > LOG_BUDGET_BYTES {
            Err(ContractError::BatchTooLarge)
        } else {
            Ok(())
        }),
{
    if ids.len() == 0 {
        return Err(ContractError::EmptyBatch);
    }
    if ids.len() > MAX_TLA_BATCH {
        return Err(ContractError::BatchTooLarge);
    }
    let mut logged_so_far: usize = 0;
    let mut i: usize = 0;
    while i < ids.len()
        invariant
            i <= ids@.len() <= MAX_TLA_BATCH,
            logged_so_far == logged_bytes(ids@.take(i as int)),
            logged_so_far <= 67 * i,
        decreases ids@.len() - i,
    {
        assert(ids@.take(i + 1).drop_last() =~= ids@.take(i as int));
        logged_so_far = logged_so_far + ids[i].text_len() + 3;
        i += 1;
    }
    assert(ids@.take(i as int) =~= ids@);
    if logged_so_far + LOG_ENVELOPE_BYTES > LOG_BUDGET_BYTES {
        return Err(ContractError::BatchTooLarge);
    }
    Ok(())
}

/// A batch names no account twice.
fn assert_no_repeats(ids: &Vec<AccountId>) -> (r: Result<(), ContractError>)
    ensures
        r == (if ids@.no_duplicates() {
            Ok(())
        } else {
            Err(ContractError::DuplicateInBatch)
        }),
{
    let mut i: usize = 0;
    while i < ids.len()
        invariant
            i <= ids@.len(),
            forall|a: int, b: int| 0 <= a < b < i ==> ids@[a] != ids@[b],
        decreases ids@.len() - i,
    {
        let mut j: usize = 0;
        while j < i
            invariant
                j <= i < ids@.len(),
                forall|a: int| 0 <= a < j ==> ids@[a] != ids@[i as int],
            decreases i - j,
        {
            if ids[j] == ids[i] {
                assert(!ids@.no_duplicates());
                return Err(ContractError::DuplicateInBatch);
            }
            j += 1;
        }
        i += 1;
    }
    Ok(())
}

/// Why a call is not an admin's, if it is not: it must carry one yocto and come from an admin.
pub open spec fn admin_refusal(registry: TlaRegistry, env: Env) -> Option<ContractError> {
    if env.deposit != 1 {
        Some(ContractError::RequiresOneYocto)
    } else if !registry.is_admin(env.predecessor) {
        Some(ContractError::OnlyAdmin)
    } else {
        None
    }
}

/// A top level account that is registered and not yet active.
pub open spec fn registered_entry(registration: TlaRegistration) -> TlaEntry {
    TlaEntry {
        tla_type: registration.tla_type,
        status: TlaStatus::Registered,
        licensee: registration.licensee,
        premium_category: registration.premium_category,
        activated_at: 0,
        expires_at: 0,
    }
}

/// The entries once every id is registered, in order.
pub open spec fn all_registered(
    tlas: crate::ordered::OrderedView<AccountId, TlaEntry>,
    ids: Seq<AccountId>,
    entry: TlaEntry,
) -> crate::ordered::OrderedView<AccountId, TlaEntry>
    decreases ids.len(),
{
    if ids.len() == 0 {
        tlas
    } else {
        all_registered(tlas, ids.drop_last(), entry).insert(ids.last(), entry)
    }
}

/// An entry once its account is active for a year.
pub open spec fn activated(entry: TlaEntry, now: u64) -> TlaEntry {
    TlaEntry {
        status: TlaStatus::Active,
        activated_at: now,
        expires_at: crate::common::capped_u64(now + ONE_YEAR_NS),
        ..entry
    }
}

/// The entries once every id is active.
pub open spec fn all_activated(
    tlas: crate::ordered::OrderedView<AccountId, TlaEntry>,
    ids: Seq<AccountId>,
    now: u64,
) -> crate::ordered::OrderedView<AccountId, TlaEntry>
    decreases ids.len(),
{
    if ids.len() == 0 {
        tlas
    } else {
        let rest = all_activated(tlas, ids.drop_last(), now);
        rest.insert(ids.last(), activated(rest[ids.last()], now))
    }
}

/// Registering a batch leaves every other entry alone, and registers each id.
pub proof fn lemma_all_registered(
    tlas: crate::ordered::OrderedView<AccountId, TlaEntry>,
    ids: Seq<AccountId>,
    entry: TlaEntry,
)
    ensures
        forall|id: AccountId| #[trigger] all_registered(tlas, ids, entry).has(id) <==> tlas.has(id) || ids.contains(id),
        forall|id: AccountId| ids.contains(id) ==> #[trigger] all_registered(tlas, ids, entry)[id] == entry,
        forall|id: AccountId| !ids.contains(id) ==> #[trigger] all_registered(tlas, ids, entry)[id] == tlas[id],
    decreases ids.len(),
{
    if ids.len() > 0 {
        let rest = ids.drop_last();
        lemma_all_registered(tlas, rest, entry);
        assert forall|id: AccountId| #[trigger] ids.contains(id) <==> rest.contains(id) || id == ids.last() by {
            if ids.contains(id) {
                let i = choose|i: int| 0 <= i < ids.len() && ids[i] == id;
                if i < rest.len() {
                    assert(rest[i] == id);
                }
            }
            if rest.contains(id) {
                let i = choose|i: int| 0 <= i < rest.len() && rest[i] == id;
                assert(ids[i] == id);
            }
            if id == ids.last() {
                assert(ids[ids.len() - 1] == id);
            }
        }
        let r = all_registered(tlas, rest, entry);
        let f = all_registered(tlas, ids, entry);
        assert(f == r.insert(ids.last(), entry));
        assert forall|id: AccountId| #[trigger] f.has(id) <==> tlas.has(id) || ids.contains(id) by {
            assert(r.has(id) <==> tlas.has(id) || rest.contains(id));
        }
        assert forall|id: AccountId| ids.contains(id) implies #[trigger] f[id] == entry by {
            assert(rest.contains(id) ==> r[id] == entry);
        }
        assert forall|id: AccountId| !ids.contains(id) implies #[trigger] f[id] == tlas[id] by {
            assert(r[id] == tlas[id]);
        }
    }
}

/// Activating a batch adds no entry, activates each id once, and leaves every other entry alone.
pub proof fn lemma_all_activated(
    tlas: crate::ordered::OrderedView<AccountId, TlaEntry>,
    ids: Seq<AccountId>,
    now: u64,
)
    requires
        ids.no_duplicates(),
        forall|i: int| 0 <= i < ids.len() ==> tlas.has(#[trigger] ids[i]),
    ensures
        forall|id: AccountId| #[trigger] all_activated(tlas, ids, now).has(id) <==> tlas.has(id),
        all_activated(tlas, ids, now).keys == tlas.keys,
        forall|id: AccountId| ids.contains(id) ==> #[trigger] all_activated(tlas, ids, now)[id] == activated(tlas[id], now),
        forall|id: AccountId| !ids.contains(id) ==> #[trigger] all_activated(tlas, ids, now)[id] == tlas[id],
    decreases ids.len(),
{
    if ids.len() > 0 {
        let rest = ids.drop_last();
        assert forall|i: int| 0 <= i < rest.len() implies tlas.has(#[trigger] rest[i]) by {
            assert(ids[i] == rest[i]);
        }
        lemma_all_activated(tlas, rest, now);
        assert(tlas.has(ids[ids.len() - 1]));
        assert forall|id: AccountId| #[trigger] ids.contains(id) <==> rest.contains(id) || id == ids.last() by {
            if ids.contains(id) {
                let i = choose|i: int| 0 <= i < ids.len() && ids[i] == id;
                if i < rest.len() {
                    assert(rest[i] == id);
                }
            }
            if rest.contains(id) {
                let i = choose|i: int| 0 <= i < rest.len() && rest[i] == id;
                assert(ids[i] == id);
            }
            if id == ids.last() {
                assert(ids[ids.len() - 1] == id);
            }
        }
        assert(!rest.contains(ids.last())) by {
            if rest.contains(ids.last()) {
                let i = choose|i: int| 0 <= i < rest.len() && rest[i] == ids.last();
                assert(ids[i] == ids[ids.len() - 1]);
            }
        }
        let r = all_activated(tlas, rest, now);
        let f = all_activated(tlas, ids, now);
        assert(r.has(ids.last()));
        assert(r[ids.last()] == tlas[ids.last()]);
        assert(f == r.insert(ids.last(), activated(tlas[ids.last()], now)));
        assert forall|id: AccountId| #[trigger] f.has(id) <==> tlas.has(id) by {
            assert(r.has(id) <==> tlas.has(id));
        }
        assert forall|id: AccountId| ids.contains(id) implies #[trigger] f[id] == activated(tlas[id], now) by {
            assert(rest.contains(id) ==> r[id] == activated(tlas[id], now));
        }
        assert forall|id: AccountId| !ids.contains(id) implies #[trigger] f[id] == tlas[id] by {
            assert(r[id] == tlas[id]);
        }
    }
}

impl TlaRegistry {
    // ---- top level accounts -------------------------------------------------------------------

    /// Why one account cannot be registered.
    pub open spec fn registration_refusal(self, tla_id: AccountId, registration: TlaRegistration) -> Option<ContractError> {
        if self.tlas@.has(tla_id) {
            Some(ContractError::TlaAlreadyRegistered)
        } else if registration.tla_type is Business && registration.licensee is None {
            Some(ContractError::BusinessTlaRequiresLicensee)
        } else {
            None
        }
    }

    /// Why the batch cannot be registered: the refusal of the first account that is refused.
    pub open spec fn registrations_refusal(self, ids: Seq<AccountId>, registration: TlaRegistration, from: int) -> Option<ContractError>
        decreases ids.len() - from,
    {
        if from < 0 || from >= ids.len() {
            None
        } else if self.registration_refusal(ids[from], registration) is Some {
            self.registration_refusal(ids[from], registration)
        } else {
            self.registrations_refusal(ids, registration, from + 1)
        }
    }

    /// Why one open account cannot be activated.
    pub open spec fn open_activation_refusal(self, tla_id: AccountId) -> Option<ContractError> {
        if !self.tlas@.has(tla_id) {
            Some(ContractError::TlaNotFound)
        } else if !(self.tlas@[tla_id].status is Registered) {
            Some(ContractError::TlaNotInRegisteredState)
        } else if !(self.tlas@[tla_id].tla_type is Open) {
            Some(ContractError::WrongActivationEndpoint)
        } else {
            None
        }
    }

    /// Why the batch cannot be activated: the refusal of the first account that is refused.
    pub open spec fn open_activations_refusal(self, ids: Seq<AccountId>, from: int) -> Option<ContractError>
        decreases ids.len() - from,
    {
        if from < 0 || from >= ids.len() {
            None
        } else if self.open_activation_refusal(ids[from]) is Some {
            self.open_activation_refusal(ids[from])
        } else {
            self.open_activations_refusal(ids, from + 1)
        }
    }

    fn check_registration(&self, tla_id: &AccountId, registration: &TlaRegistration) -> (r: Result<(), ContractError>)
        ensures
            r == (match self.registration_refusal(*tla_id, *registration) {
                Some(e) => Err(e),
                None => Ok(()),
            }),
    {
        if self.tlas.contains_key(tla_id) {
            return Err(ContractError::TlaAlreadyRegistered);
        }
        if registration.tla_type == TlaType::Business && registration.licensee.is_none() {
            return Err(ContractError::BusinessTlaRequiresLicensee);
        }
        Ok(())
    }

    fn check_open_activation(&self, tla_id: &AccountId) -> (r: Result<(), ContractError>)
        ensures
            r == (match self.open_activation_refusal(*tla_id) {
                Some(e) => Err(e),
                None => Ok(()),
            }),
    {
        match self.tlas.get(tla_id) {
            None => Err(ContractError::TlaNotFound),
            Some(entry) => {
                if entry.status != TlaStatus::Registered {
                    return Err(ContractError::TlaNotInRegisteredState);
                }
                if entry.tla_type != TlaType::Open {
                    return Err(ContractError::WrongActivationEndpoint);
                }
                Ok(())
            },
        }
    }

    fn write_registration(&mut self, tla_id: &AccountId, registration: &TlaRegistration)
        ensures
            final(self).tlas@ == old(self).tlas@.insert(*tla_id, registered_entry(*registration)),
            *final(self) == (TlaRegistry { tlas: final(self).tlas, ..*old(self) }),
    {
        let entry = TlaEntry {
            tla_type: registration.tla_type,
            status: TlaStatus::Registered,
            licensee: registration.licensee,
            premium_category: registration.premium_category,
            activated_at: 0,
            expires_at: 0,
        };
        self.tlas.insert(*tla_id, entry);
    }

    fn write_open_activation(&mut self, tla_id: &AccountId, now: u64, expires_at: u64)
        ensures
            *final(self) == (TlaRegistry { tlas: final(self).tlas, ..*old(self) }),
            final(self).tlas@ == (if old(self).tlas@.has(*tla_id) {
                old(self).tlas@.insert(
                    *tla_id,
                    (TlaEntry { status: TlaStatus::Active, activated_at: now, expires_at, ..old(self).tlas@[*tla_id] }),
                )
            } else {
                old(self).tlas@
            }),
    {
        let entry = match self.tlas.get(tla_id) {
            Some(entry) => *entry,
            None => {
                return;
            },
        };
        self.tlas.insert(*tla_id, TlaEntry { status: TlaStatus::Active, activated_at: now, expires_at, ..entry });
    }

    fn activate_one_open(&mut self, env: &Env, tla_id: AccountId) -> (r: Result<Reply<()>, ContractError>)
        ensures
            match old(self).open_activation_refusal(tla_id) {
                Some(e) => r == Err::<Reply<()>, _>(e) && *final(self) == *old(self),
                None => {
                    &&& r matches Ok(reply)
                    &&& reply.events@ == seq![
                        Event::TlaActivated {
                            tla_id,
                            expires_at: crate::common::capped_u64(env.now + ONE_YEAR_NS),
                            paid_yocto: 0,
                        },
                    ]
                    &&& final(self).tlas@ == old(self).tlas@.insert(tla_id, activated(old(self).tlas@[tla_id], env.now))
                    &&& *final(self) == (TlaRegistry { tlas: final(self).tlas, ..*old(self) })
                },
            },
    {
        self.check_open_activation(&tla_id)?;
        let expires_at: u64 = env.now.saturating_add(ONE_YEAR_NS);
        self.write_open_activation(&tla_id, env.now, expires_at);
        Ok(logged((), Event::TlaActivated { tla_id, expires_at, paid_yocto: 0 }))
    }

    pub fn register_tla(
        &mut self,
        env: &Env,
        tla_id: AccountId,
        tla_type: TlaType,
        premium_category: PremiumCategory,
        licensee: Option<AccountId>,
    ) -> (r: Result<Reply<()>, ContractError>)
        ensures
            ({
                let registration = TlaRegistration { tla_type, premium_category, licensee };
                let refusal = if crate::registry::council_refusal(*env, old(self).council) is Some {
                    crate::registry::council_refusal(*env, old(self).council)
                } else {
                    old(self).registration_refusal(tla_id, registration)
                };
                match refusal {
                    Some(e) => r == Err::<Reply<()>, _>(e) && *final(self) == *old(self),
                    None => {
                        &&& r matches Ok(reply)
                        &&& reply.events@ == seq![Event::TlaRegistered { tla_id, tla_type, premium_category, licensee }]
                        &&& final(self).tlas@ == old(self).tlas@.insert(tla_id, registered_entry(registration))
                        &&& *final(self) == (TlaRegistry { tlas: final(self).tlas, ..*old(self) })
                    },
                }
            }),
    {
        assert_one_yocto(env)?;
        self.assert_council(env)?;
        let registration = TlaRegistration { tla_type, premium_category, licensee };
        self.check_registration(&tla_id, &registration)?;
        self.write_registration(&tla_id, &registration);
        Ok(logged((), Event::TlaRegistered { tla_id, tla_type, premium_category, licensee }))
    }

    pub open spec fn register_tlas_refusal(self, env: Env, ids: Seq<AccountId>, registration: TlaRegistration) -> Option<ContractError> {
        if crate::registry::council_refusal(env, self.council) is Some {
            crate::registry::council_refusal(env, self.council)
        } else if batch_refusal(ids) is Some {
            batch_refusal(ids)
        } else {
            self.registrations_refusal(ids, registration, 0)
        }
    }

    /// Registers every account of the batch, or none.
    pub fn register_tlas(
        &mut self,
        env: &Env,
        tla_ids: Vec<AccountId>,
        tla_type: TlaType,
        premium_category: PremiumCategory,
        licensee: Option<AccountId>,
    ) -> (r: Result<Reply<()>, ContractError>)
        ensures
            ({
                let registration = TlaRegistration { tla_type, premium_category, licensee };
                match old(self).register_tlas_refusal(*env, tla_ids@, registration) {
                    Some(e) => r == Err::<Reply<()>, _>(e) && *final(self) == *old(self),
                    None => {
                        &&& r matches Ok(reply)
                        &&& reply.events@ == seq![Event::TlasRegistered { tla_ids, tla_type, premium_category, licensee }]
                        &&& final(self).tlas@ == all_registered(old(self).tlas@, tla_ids@, registered_entry(registration))
                        &&& *final(self) == (TlaRegistry { tlas: final(self).tlas, ..*old(self) })
                    },
                }
            }),
    {
        assert_one_yocto(env)?;
        self.assert_council(env)?;
        assert_batch_fits(&tla_ids)?;
        assert_no_repeats(&tla_ids)?;
        let shared = TlaRegistration { tla_type, premium_category, licensee };
        let mut i: usize = 0;
        while i < tla_ids.len()
            invariant
                *self == *old(self),
                i <= tla_ids@.len(),
                batch_refusal(tla_ids@) is None,
                crate::registry::council_refusal(*env, self.council) is None,
                self.registrations_refusal(tla_ids@, shared, i as int) == self.registrations_refusal(tla_ids@, shared, 0),
                shared == (TlaRegistration { tla_type, premium_category, licensee }),
            decreases tla_ids@.len() - i,
        {
            match self.check_registration(&tla_ids[i], &shared) {
                Err(e) => {
                    return Err(e);
                },
                Ok(()) => {},
            }
            i += 1;
        }
        let ghost entry = registered_entry(shared);
        let mut i: usize = 0;
        while i < tla_ids.len()
            invariant
                i <= tla_ids@.len(),
                entry == registered_entry(shared),
                self.tlas@ == all_registered(old(self).tlas@, tla_ids@.take(i as int), entry),
                *self == (TlaRegistry { tlas: self.tlas, ..*old(self) }),
            decreases tla_ids@.len() - i,
        {
            self.write_registration(&tla_ids[i], &shared);
            assert(tla_ids@.take(i + 1).drop_last() =~= tla_ids@.take(i as int));
            i += 1;
        }
        assert(tla_ids@.take(i as int) =~= tla_ids@);
        Ok(logged((), Event::TlasRegistered { tla_ids, tla_type, premium_category, licensee }))
    }

    pub open spec fn activate_open_tlas_refusal(self, env: Env, ids: Seq<AccountId>) -> Option<ContractError> {
        if admin_refusal(self, env) is Some {
            admin_refusal(self, env)
        } else if batch_refusal(ids) is Some {
            batch_refusal(ids)
        } else {
            self.open_activations_refusal(ids, 0)
        }
    }

    /// Activates every open account of the batch, or none.
    pub fn activate_open_tlas(&mut self, env: &Env, tla_ids: Vec<AccountId>) -> (r: Result<Reply<()>, ContractError>)
        ensures
            match old(self).activate_open_tlas_refusal(*env, tla_ids@) {
                Some(e) => r == Err::<Reply<()>, _>(e) && *final(self) == *old(self),
                None => {
                    &&& r matches Ok(reply)
                    &&& reply.events@ == seq![
                        Event::TlasActivated {
                            tla_ids,
                            expires_at: crate::common::capped_u64(env.now + ONE_YEAR_NS),
                        },
                    ]
                    &&& final(self).tlas@ == all_activated(old(self).tlas@, tla_ids@, env.now)
                    &&& *final(self) == (TlaRegistry { tlas: final(self).tlas, ..*old(self) })
                },
            },
    {
        assert_one_yocto(env)?;
        self.assert_admin(env)?;
        assert_batch_fits(&tla_ids)?;
        assert_no_repeats(&tla_ids)?;
        let mut i: usize = 0;
        while i < tla_ids.len()
            invariant
                *self == *old(self),
                i <= tla_ids@.len(),
                batch_refusal(tla_ids@) is None,
                admin_refusal(*self, *env) is None,
                self.open_activations_refusal(tla_ids@, i as int) == self.open_activations_refusal(tla_ids@, 0),
                forall|k: int| 0 <= k < i ==> self.tlas@.has(#[trigger] tla_ids@[k]),
            decreases tla_ids@.len() - i,
        {
            match self.check_open_activation(&tla_ids[i]) {
                Err(e) => {
                    return Err(e);
                },
                Ok(()) => {},
            }
            i += 1;
        }
        let expires_at: u64 = env.now.saturating_add(ONE_YEAR_NS);
        let mut i: usize = 0;
        while i < tla_ids.len()
            invariant
                i <= tla_ids@.len(),
                tla_ids@.no_duplicates(),
                expires_at == crate::common::capped_u64(env.now + ONE_YEAR_NS),
                forall|k: int| 0 <= k < tla_ids@.len() ==> old(self).tlas@.has(#[trigger] tla_ids@[k]),
                self.tlas@ == all_activated(old(self).tlas@, tla_ids@.take(i as int), env.now),
                *self == (TlaRegistry { tlas: self.tlas, ..*old(self) }),
            decreases tla_ids@.len() - i,
        {
            proof {
                let done = tla_ids@.take(i as int);
                assert(done.no_duplicates());
                assert forall|k: int| 0 <= k < done.len() implies old(self).tlas@.has(#[trigger] done[k]) by {
                    assert(tla_ids@[k] == done[k]);
                }
                lemma_all_activated(old(self).tlas@, done, env.now);
                assert(old(self).tlas@.has(tla_ids@[i as int]));
                assert(tla_ids@.take(i + 1).drop_last() =~= done);
            }
            self.write_open_activation(&tla_ids[i], env.now, expires_at);
            i += 1;
        }
        assert(tla_ids@.take(i as int) =~= tla_ids@);
        Ok(logged((), Event::TlasActivated { tla_ids, expires_at }))
    }

    pub fn activate_open_tla(&mut self, env: &Env, tla_id: AccountId) -> (r: Result<Reply<()>, ContractError>)
        ensures
            ({
                let refusal = if admin_refusal(*old(self), *env) is Some {
                    admin_refusal(*old(self), *env)
                } else {
                    old(self).open_activation_refusal(tla_id)
                };
                match refusal {
                    Some(e) => r == Err::<Reply<()>, _>(e) && *final(self) == *old(self),
                    None => {
                        &&& r matches Ok(reply)
                        &&& reply.events@ == seq![
                            Event::TlaActivated {
                                tla_id,
                                expires_at: crate::common::capped_u64(env.now + ONE_YEAR_NS),
                                paid_yocto: 0,
                            },
                        ]
                        &&& final(self).tlas@ == old(self).tlas@.insert(
                            tla_id,
                            activated(old(self).tlas@[tla_id], env.now),
                        )
                        &&& *final(self) == (TlaRegistry { tlas: final(self).tlas, ..*old(self) })
                    },
                }
            }),
    {
        assert_one_yocto(env)?;
        self.assert_admin(env)?;
        self.activate_one_open(env, tla_id)
    }

    pub fn suspend_tla(&mut self, env: &Env, tla_id: AccountId) -> (r: Result<Reply<()>, ContractError>)
        ensures
            ({
                let refusal = if admin_refusal(*old(self), *env) is Some {
                    admin_refusal(*old(self), *env)
                } else if !old(self).tlas@.has(tla_id) {
                    Some(ContractError::TlaNotFound)
                } else if old(self).tlas@[tla_id].status is Registered {
                    Some(ContractError::TlaNotActive)
                } else {
                    None
                };
                match refusal {
                    Some(e) => r == Err::<Reply<()>, _>(e) && *final(self) == *old(self),
                    None => {
                        &&& r matches Ok(reply)
                        &&& reply.events@ == seq![Event::TlaSuspended { tla_id, by: env.predecessor }]
                        &&& final(self).tlas@ == old(self).tlas@.insert(
                            tla_id,
                            (TlaEntry { status: TlaStatus::Suspended, ..old(self).tlas@[tla_id] }),
                        )
                        &&& final(self).suspended_until@ == old(self).suspended_until@.insert(
                            tla_id,
                            crate::common::capped_u64(env.now + MAX_AUTHORITY_HOLD_NS),
                        )
                        &&& *final(self) == (TlaRegistry {
                            tlas: final(self).tlas,
                            suspended_until: final(self).suspended_until,
                            ..*old(self)
                        })
                    },
                }
            }),
    {
        assert_one_yocto(env)?;
        self.assert_admin(env)?;
        let entry = match self.tlas.get(&tla_id) {
            None => {
                return Err(ContractError::TlaNotFound);
            },
            Some(entry) => *entry,
        };
        if entry.status == TlaStatus::Registered {
            return Err(ContractError::TlaNotActive);
        }
        self.tlas.insert(tla_id, TlaEntry { status: TlaStatus::Suspended, ..entry });
        let until: u64 = env.now.saturating_add(MAX_AUTHORITY_HOLD_NS);
        self.suspended_until.insert(tla_id, until);
        Ok(logged((), Event::TlaSuspended { tla_id, by: env.predecessor }))
    }

    pub fn unsuspend_tla(&mut self, env: &Env, tla_id: AccountId) -> (r: Result<Reply<()>, ContractError>)
        ensures
            ({
                let refusal = if admin_refusal(*old(self), *env) is Some {
                    admin_refusal(*old(self), *env)
                } else if !old(self).tlas@.has(tla_id) {
                    Some(ContractError::TlaNotFound)
                } else if !(old(self).tlas@[tla_id].status is Suspended) {
                    Some(ContractError::TlaNotSuspended)
                } else if old(self).tlas@[tla_id].tla_type is Business && old(self).tlas@[tla_id].licensee is None {
                    Some(ContractError::BusinessTlaMissingLicensee)
                } else {
                    None
                };
                match refusal {
                    Some(e) => r == Err::<Reply<()>, _>(e) && *final(self) == *old(self),
                    None => {
                        &&& r matches Ok(reply)
                        &&& reply.events@ == seq![Event::TlaUnsuspended { tla_id, by: env.predecessor }]
                        &&& final(self).tlas@ == old(self).tlas@.insert(
                            tla_id,
                            (TlaEntry { status: TlaStatus::Active, ..old(self).tlas@[tla_id] }),
                        )
                        &&& final(self).suspended_until@ == old(self).suspended_until@.remove(tla_id)
                        &&& *final(self) == (TlaRegistry {
                            tlas: final(self).tlas,
                            suspended_until: final(self).suspended_until,
                            ..*old(self)
                        })
                    },
                }
            }),
    {
        assert_one_yocto(env)?;
        self.assert_admin(env)?;
        let entry = match self.tlas.get(&tla_id) {
            None => {
                return Err(ContractError::TlaNotFound);
            },
            Some(entry) => *entry,
        };
        if entry.status != TlaStatus::Suspended {
            return Err(ContractError::TlaNotSuspended);
        }
        if entry.tla_type == TlaType::Business && entry.licensee.is_none() {
            return Err(ContractError::BusinessTlaMissingLicensee);
        }
        self.tlas.insert(tla_id, TlaEntry { status: TlaStatus::Active, ..entry });
        self.suspended_until.remove(&tla_id);
        Ok(logged((), Event::TlaUnsuspended { tla_id, by: env.predecessor }))
    }

    // ---- authorities --------------------------------------------------------------------------

    pub fn add_admin(&mut self, env: &Env, account_id: AccountId) -> (r: Result<Reply<()>, ContractError>)
        ensures
            ({
                let refusal = if crate::registry::council_refusal(*env, old(self).council) is Some {
                    crate::registry::council_refusal(*env, old(self).council)
                } else if old(self).admins@.len() >= MAX_AUTHORITY_SET {
                    Some(ContractError::AuthoritySetFull)
                } else {
                    None
                };
                match refusal {
                    Some(e) => r == Err::<Reply<()>, _>(e) && *final(self) == *old(self),
                    None => {
                        &&& r matches Ok(reply)
                        &&& if old(self).admins@.has(account_id) {
                            reply.events@ == Seq::<Event>::empty() && *final(self) == *old(self)
                        } else {
                            &&& reply.events@ == seq![Event::AdminAdded { account: account_id, by: env.predecessor }]
                            &&& final(self).admins@ == old(self).admins@.insert(account_id, ())
                            &&& *final(self) == (TlaRegistry { admins: final(self).admins, ..*old(self) })
                        }
                    },
                }
            }),
    {
        assert_one_yocto(env)?;
        self.assert_council(env)?;
        if self.admins.len() >= MAX_AUTHORITY_SET {
            return Err(ContractError::AuthoritySetFull);
        }
        if self.admins.contains_key(&account_id) {
            return Ok(quiet(()));
        }
        self.admins.insert(account_id, ());
        Ok(logged((), Event::AdminAdded { account: account_id, by: env.predecessor }))
    }

    pub fn remove_admin(&mut self, env: &Env, account_id: AccountId) -> (r: Result<Reply<()>, ContractError>)
        ensures
            ({
                let refusal = if crate::registry::council_refusal(*env, old(self).council) is Some {
                    crate::registry::council_refusal(*env, old(self).council)
                } else if old(self).admins@.len() <= 1 {
                    Some(ContractError::CannotRemoveLastAdmin)
                } else {
                    None
                };
                match refusal {
                    Some(e) => r == Err::<Reply<()>, _>(e) && *final(self) == *old(self),
                    None => {
                        &&& r matches Ok(reply)
                        &&& if !old(self).admins@.has(account_id) {
                            reply.events@ == Seq::<Event>::empty() && *final(self) == *old(self)
                        } else {
                            &&& reply.events@ == seq![Event::AdminRemoved { account: account_id, by: env.predecessor }]
                            &&& final(self).admins@ == old(self).admins@.remove(account_id)
                            &&& *final(self) == (TlaRegistry { admins: final(self).admins, ..*old(self) })
                        }
                    },
                }
            }),
    {
        assert_one_yocto(env)?;
        self.assert_council(env)?;
        if self.admins.len() <= 1 {
            return Err(ContractError::CannotRemoveLastAdmin);
        }
        if !self.admins.contains_key(&account_id) {
            return Ok(quiet(()));
        }
        self.admins.remove(&account_id);
        Ok(logged((), Event::AdminRemoved { account: account_id, by: env.predecessor }))
    }

    pub fn add_payment_authority(&mut self, env: &Env, account_id: AccountId) -> (r: Result<Reply<()>, ContractError>)
        ensures
            ({
                let refusal = if crate::registry::council_refusal(*env, old(self).council) is Some {
                    crate::registry::council_refusal(*env, old(self).council)
                } else if old(self).payment_authorities@.len() >= MAX_AUTHORITY_SET {
                    Some(ContractError::AuthoritySetFull)
                } else {
                    None
                };
                match refusal {
                    Some(e) => r == Err::<Reply<()>, _>(e) && *final(self) == *old(self),
                    None => {
                        &&& r matches Ok(reply)
                        &&& if old(self).payment_authorities@.has(account_id) {
                            reply.events@ == Seq::<Event>::empty() && *final(self) == *old(self)
                        } else {
                            &&& reply.events@ == seq![Event::PaymentAuthorityAdded { account: account_id, by: env.predecessor }]
                            &&& final(self).payment_authorities@ == old(self).payment_authorities@.insert(account_id, ())
                            &&& *final(self) == (TlaRegistry { payment_authorities: final(self).payment_authorities, ..*old(self) })
                        }
                    },
                }
            }),
    {
        assert_one_yocto(env)?;
        self.assert_council(env)?;
        if self.payment_authorities.len() >= MAX_AUTHORITY_SET {
            return Err(ContractError::AuthoritySetFull);
        }
        if self.payment_authorities.contains_key(&account_id) {
            return Ok(quiet(()));
        }
        self.payment_authorities.insert(account_id, ());
        Ok(logged((), Event::PaymentAuthorityAdded { account: account_id, by: env.predecessor }))
    }

    pub fn remove_payment_authority(&mut self, env: &Env, account_id: AccountId) -> (r: Result<Reply<()>, ContractError>)
        ensures
            ({
                let refusal = if crate::registry::council_refusal(*env, old(self).council) is Some {
                    crate::registry::council_refusal(*env, old(self).council)
                } else {
                    None
                };
                match refusal {
                    Some(e) => r == Err::<Reply<()>, _>(e) && *final(self) == *old(self),
                    None => {
                        &&& r matches Ok(reply)
                        &&& if !old(self).payment_authorities@.has(account_id) {
                            reply.events@ == Seq::<Event>::empty() && *final(self) == *old(self)
                        } else {
                            &&& reply.events@ == seq![Event::PaymentAuthorityRemoved { account: account_id, by: env.predecessor }]
                            &&& final(self).payment_authorities@ == old(self).payment_authorities@.remove(account_id)
                            &&& *final(self) == (TlaRegistry { payment_authorities: final(self).payment_authorities, ..*old(self) })
                        }
                    },
                }
            }),
    {
        assert_one_yocto(env)?;
        self.assert_council(env)?;
        if !self.payment_authorities.contains_key(&account_id) {
            return Ok(quiet(()));
        }
        self.payment_authorities.remove(&account_id);
        Ok(logged((), Event::PaymentAuthorityRemoved { account: account_id, by: env.predecessor }))
    }

    pub fn add_venue(&mut self, env: &Env, account_id: AccountId) -> (r: Result<Reply<()>, ContractError>)
        ensures
            ({
                let refusal = if crate::registry::council_refusal(*env, old(self).council) is Some {
                    crate::registry::council_refusal(*env, old(self).council)
                } else if account_id == env.current {
                    Some(ContractError::VenueIsRegistry)
                } else if old(self).venues@.len() >= MAX_VENUES {
                    Some(ContractError::AllowlistFull)
                } else {
                    None
                };
                match refusal {
                    Some(e) => r == Err::<Reply<()>, _>(e) && *final(self) == *old(self),
                    None => {
                        &&& r matches Ok(reply)
                        &&& if old(self).venues@.has(account_id) {
                            reply.events@ == Seq::<Event>::empty() && *final(self) == *old(self)
                        } else {
                            &&& reply.events@ == seq![Event::VenueAdded { account: account_id, by: env.predecessor }]
                            &&& final(self).venues@ == old(self).venues@.insert(account_id, ())
                            &&& *final(self) == (TlaRegistry { venues: final(self).venues, ..*old(self) })
                        }
                    },
                }
            }),
    {
        assert_one_yocto(env)?;
        self.assert_council(env)?;
        if account_id == env.current {
            return Err(ContractError::VenueIsRegistry);
        }
        if self.venues.len() >= MAX_VENUES {
            return Err(ContractError::AllowlistFull);
        }
        if self.venues.contains_key(&account_id) {
            return Ok(quiet(()));
        }
        self.venues.insert(account_id, ());
        Ok(logged((), Event::VenueAdded { account: account_id, by: env.predecessor }))
    }

    pub fn remove_venue(&mut self, env: &Env, account_id: AccountId) -> (r: Result<Reply<()>, ContractError>)
        ensures
            ({
                let refusal = if crate::registry::council_refusal(*env, old(self).council) is Some {
                    crate::registry::council_refusal(*env, old(self).council)
                } else {
                    None
                };
                match refusal {
                    Some(e) => r == Err::<Reply<()>, _>(e) && *final(self) == *old(self),
                    None => {
                        &&& r matches Ok(reply)
                        &&& if !old(self).venues@.has(account_id) {
                            reply.events@ == Seq::<Event>::empty() && *final(self) == *old(self)
                        } else {
                            &&& reply.events@ == seq![Event::VenueRemoved { account: account_id, by: env.predecessor }]
                            &&& final(self).venues@ == old(self).venues@.remove(account_id)
                            &&& *final(self) == (TlaRegistry { venues: final(self).venues, ..*old(self) })
                        }
                    },
                }
            }),
    {
        assert_one_yocto(env)?;
        self.assert_council(env)?;
        if !self.venues.contains_key(&account_id) {
            return Ok(quiet(()));
        }
        self.venues.remove(&account_id);
        Ok(logged((), Event::VenueRemoved { account: account_id, by: env.predecessor }))
    }

    pub fn add_recovery_authority(&mut self, env: &Env, account_id: AccountId) -> (r: Result<Reply<()>, ContractError>)
        ensures
            ({
                let refusal = if crate::registry::council_refusal(*env, old(self).council) is Some {
                    crate::registry::council_refusal(*env, old(self).council)
                } else if old(self).recovery_authorities@.len() >= MAX_AUTHORITY_SET {
                    Some(ContractError::AuthoritySetFull)
                } else {
                    None
                };
                match refusal {
                    Some(e) => r == Err::<Reply<()>, _>(e) && *final(self) == *old(self),
                    None => {
                        &&& r matches Ok(reply)
                        &&& if old(self).recovery_authorities@.has(account_id) {
                            reply.events@ == Seq::<Event>::empty() && *final(self) == *old(self)
                        } else {
                            &&& reply.events@ == seq![Event::RecoveryAuthorityAdded { account: account_id, by: env.predecessor }]
                            &&& final(self).recovery_authorities@ == old(self).recovery_authorities@.insert(account_id, ())
                            &&& *final(self) == (TlaRegistry { recovery_authorities: final(self).recovery_authorities, ..*old(self) })
                        }
                    },
                }
            }),
    {
        assert_one_yocto(env)?;
        self.assert_council(env)?;
        if self.recovery_authorities.len() >= MAX_AUTHORITY_SET {
            return Err(ContractError::AuthoritySetFull);
        }
        if self.recovery_authorities.contains_key(&account_id) {
            return Ok(quiet(()));
        }
        self.recovery_authorities.insert(account_id, ());
        Ok(logged((), Event::RecoveryAuthorityAdded { account: account_id, by: env.predecessor }))
    }

    pub fn remove_recovery_authority(&mut self, env: &Env, account_id: AccountId) -> (r: Result<Reply<()>, ContractError>)
        ensures
            ({
                let refusal = if crate::registry::council_refusal(*env, old(self).council) is Some {
                    crate::registry::council_refusal(*env, old(self).council)
                } else {
                    None
                };
                match refusal {
                    Some(e) => r == Err::<Reply<()>, _>(e) && *final(self) == *old(self),
                    None => {
                        &&& r matches Ok(reply)
                        &&& if !old(self).recovery_authorities@.has(account_id) {
                            reply.events@ == Seq::<Event>::empty() && *final(self) == *old(self)
                        } else {
                            &&& reply.events@ == seq![Event::RecoveryAuthorityRemoved { account: account_id, by: env.predecessor }]
                            &&& final(self).recovery_authorities@ == old(self).recovery_authorities@.remove(account_id)
                            &&& *final(self) == (TlaRegistry { recovery_authorities: final(self).recovery_authorities, ..*old(self) })
                        }
                    },
                }
            }),
    {
        assert_one_yocto(env)?;
        self.assert_council(env)?;
        if !self.recovery_authorities.contains_key(&account_id) {
            return Ok(quiet(()));
        }
        self.recovery_authorities.remove(&account_id);
        Ok(logged((), Event::RecoveryAuthorityRemoved { account: account_id, by: env.predecessor }))
    }

    pub fn remove_ft_allowlist(&mut self, env: &Env, token: AccountId) -> (r: Result<Reply<()>, ContractError>)
        ensures
            ({
                let refusal = if admin_refusal(*old(self), *env) is Some {
                    admin_refusal(*old(self), *env)
                } else {
                    None
                };
                match refusal {
                    Some(e) => r == Err::<Reply<()>, _>(e) && *final(self) == *old(self),
                    None => {
                        &&& r matches Ok(reply)
                        &&& if !old(self).ft_allowlist@.has(token) {
                            reply.events@ == Seq::<Event>::empty() && *final(self) == *old(self)
                        } else {
                            &&& reply.events@ == seq![Event::FtAllowlistRemoved { token, by: env.predecessor }]
                            &&& final(self).ft_allowlist@ == old(self).ft_allowlist@.remove(token)
                            &&& *final(self) == (TlaRegistry { ft_allowlist: final(self).ft_allowlist, ..*old(self) })
                        }
                    },
                }
            }),
    {
        assert_one_yocto(env)?;
        self.assert_admin(env)?;
        if !self.ft_allowlist.contains_key(&token) {
            return Ok(quiet(()));
        }
        self.ft_allowlist.remove(&token);
        Ok(logged((), Event::FtAllowlistRemoved { token, by: env.predecessor }))
    }

    pub fn remove_sweepable_token(&mut self, env: &Env, token: AccountId) -> (r: Result<Reply<()>, ContractError>)
        ensures
            ({
                let refusal = if crate::registry::council_refusal(*env, old(self).council) is Some {
                    crate::registry::council_refusal(*env, old(self).council)
                } else if old(self).ft_allowlist@.has(token) {
                    Some(ContractError::TokenStillAllowlisted)
                } else {
                    None
                };
                match refusal {
                    Some(e) => r == Err::<Reply<()>, _>(e) && *final(self) == *old(self),
                    None => {
                        &&& r matches Ok(reply)
                        &&& if !old(self).sweepable_tokens@.has(token) {
                            reply.events@ == Seq::<Event>::empty() && *final(self) == *old(self)
                        } else {
                            &&& reply.events@ == seq![Event::SweepableTokenRemoved { token, by: env.predecessor }]
                            &&& final(self).sweepable_tokens@ == old(self).sweepable_tokens@.remove(token)
                            &&& *final(self) == (TlaRegistry { sweepable_tokens: final(self).sweepable_tokens, ..*old(self) })
                        }
                    },
                }
            }),
    {
        assert_one_yocto(env)?;
        self.assert_council(env)?;
        if self.ft_allowlist.contains_key(&token) {
            return Err(ContractError::TokenStillAllowlisted);
        }
        if !self.sweepable_tokens.contains_key(&token) {
            return Ok(quiet(()));
        }
        self.sweepable_tokens.remove(&token);
        Ok(logged((), Event::SweepableTokenRemoved { token, by: env.predecessor }))
    }

    pub fn bind_payment_authority_tla(
        &mut self,
        env: &Env,
        account_id: AccountId,
        tla_id: AccountId,
        max_mints: u64,
    ) -> (r: Result<Reply<()>, ContractError>)
        ensures
            ({
                let refusal = if crate::registry::council_refusal(*env, old(self).council) is Some {
                    crate::registry::council_refusal(*env, old(self).council)
                } else if !old(self).payment_authorities@.has(account_id) {
                    Some(ContractError::OnlyPaymentAuthority)
                } else if !old(self).tlas@.has(tla_id) {
                    Some(ContractError::TlaNotFound)
                } else if max_mints == 0 {
                    Some(ContractError::AuthorityMintAllowanceZero)
                } else {
                    None
                };
                match refusal {
                    Some(e) => r == Err::<Reply<()>, _>(e) && *final(self) == *old(self),
                    None => {
                        &&& r matches Ok(reply)
                        &&& reply.events@ == seq![
                            Event::PaymentAuthorityBound {
                                account: account_id,
                                tla_id,
                                max_mints,
                                by: env.predecessor,
                            },
                        ]
                        &&& final(self).authority_allowances@ == old(self).authority_allowances@.insert(
                            (account_id, tla_id),
                            max_mints,
                        )
                        &&& *final(self) == (TlaRegistry {
                            authority_allowances: final(self).authority_allowances,
                            ..*old(self)
                        })
                    },
                }
            }),
    {
        assert_one_yocto(env)?;
        self.assert_council(env)?;
        if !self.payment_authorities.contains_key(&account_id) {
            return Err(ContractError::OnlyPaymentAuthority);
        }
        if !self.tlas.contains_key(&tla_id) {
            return Err(ContractError::TlaNotFound);
        }
        if max_mints == 0 {
            return Err(ContractError::AuthorityMintAllowanceZero);
        }
        self.authority_allowances.insert((account_id, tla_id), max_mints);
        Ok(
            logged(
                (),
                Event::PaymentAuthorityBound { account: account_id, tla_id, max_mints, by: env.predecessor },
            ),
        )
    }

    pub fn unbind_payment_authority_tla(&mut self, env: &Env, account_id: AccountId, tla_id: AccountId) -> (r: Result<
        Reply<()>,
        ContractError,
    >)
        ensures
            match crate::registry::council_refusal(*env, old(self).council) {
                Some(e) => r == Err::<Reply<()>, _>(e) && *final(self) == *old(self),
                None => {
                    &&& r matches Ok(reply)
                    &&& reply.events@ == seq![
                        Event::PaymentAuthorityUnbound { account: account_id, tla_id, by: env.predecessor },
                    ]
                    &&& final(self).authority_allowances@ == old(self).authority_allowances@.remove((account_id, tla_id))
                    &&& final(self).authority_mints@ == old(self).authority_mints@.remove((account_id, tla_id))
                    &&& *final(self) == (TlaRegistry {
                        authority_allowances: final(self).authority_allowances,
                        authority_mints: final(self).authority_mints,
                        ..*old(self)
                    })
                },
            },
    {
        assert_one_yocto(env)?;
        self.assert_council(env)?;
        self.authority_allowances.remove(&(account_id, tla_id));
        self.authority_mints.remove(&(account_id, tla_id));
        Ok(logged((), Event::PaymentAuthorityUnbound { account: account_id, tla_id, by: env.predecessor }))
    }

    pub fn payment_authority_allowance(&self, account_id: AccountId, tla_id: AccountId) -> (r: Option<u64>)
        ensures
            r == self.authority_allowances@.get((account_id, tla_id)),
    {
        match self.authority_allowances.get(&(account_id, tla_id)) {
            Some(max) => Some(*max),
            None => None,
        }
    }

    /// How many mints an authority has used under a top level account.
    pub open spec fn mints_used(self, account_id: AccountId, tla_id: AccountId) -> u64 {
        if self.authority_mints@.has((account_id, tla_id)) {
            self.authority_mints@[(account_id, tla_id)]
        } else {
            0
        }
    }

    pub fn payment_authority_used(&self, account_id: AccountId, tla_id: AccountId) -> (r: u64)
        ensures
            r == self.mints_used(account_id, tla_id),
    {
        match self.authority_mints.get(&(account_id, tla_id)) {
            Some(used) => *used,
            None => 0,
        }
    }

    pub fn is_payment_authority_bound(&self, account_id: AccountId, tla_id: AccountId) -> (r: bool)
        ensures
            r == self.authority_allowances@.has((account_id, tla_id)),
    {
        self.authority_allowances.contains_key(&(account_id, tla_id))
    }

    // ---- fees and money -----------------------------------------------------------------------

    /// What is wrong with a fee configuration, if anything.
    pub open spec fn fee_config_refusal(self, config: FeeConfig) -> Option<ContractError> {
        let min_rate = config.min_near_usd_rate_micro;
        let max_rate = config.max_near_usd_rate_micro;
        let rate = self.near_usd_rate_micro;
        if config.rent_tier_5_usd_micro == 0 && config.rent_tier_8_usd_micro == 0 && config.rent_tier_10_usd_micro == 0
            && config.rent_tier_12plus_usd_micro == 0 {
            Some(ContractError::AllRentTiersZero)
        } else if config.account_creation_deposit_yocto == 0 {
            Some(ContractError::CreationDepositZero)
        } else if !crate::fees::tiers_descend(config) {
            Some(ContractError::RentTiersNotDescending)
        } else if config.max_rate_move_bps > 10_000 || config.quote_slippage_bps > 10_000 {
            Some(ContractError::InvalidRateBounds)
        } else if min_rate == 0 || min_rate > max_rate || max_rate > MAX_NEAR_USD_RATE_MICRO {
            Some(ContractError::InvalidRateBounds)
        } else if rate != 0 && !(min_rate <= rate <= max_rate) {
            Some(ContractError::RateOutOfBounds)
        } else if config.rate_update_cooldown_ns == 0 || config.max_rate_age_ns < config.rate_update_cooldown_ns {
            Some(ContractError::InvalidRateBounds)
        } else if config.business_max_subs == 0 {
            Some(ContractError::InvalidBusinessCap)
        } else if config.retraction_notice_ns < MIN_RETRACTION_NOTICE_NS {
            Some(ContractError::RetractionNoticeTooShort)
        } else if config.tla_allocation_fee_usd_micro > MAX_USD_MICRO || config.rent_tier_5_usd_micro > MAX_USD_MICRO
            || config.rent_tier_8_usd_micro > MAX_USD_MICRO || config.rent_tier_10_usd_micro > MAX_USD_MICRO
            || config.rent_tier_12plus_usd_micro > MAX_USD_MICRO || config.sub_fee_per_account_usd_micro
            > MAX_USD_MICRO {
            Some(ContractError::FeeExceedsCap)
        } else {
            None
        }
    }

    pub fn update_fee_config(&mut self, env: &Env, config: FeeConfig) -> (r: Result<Reply<()>, ContractError>)
        ensures
            ({
                let refusal = if crate::registry::council_refusal(*env, old(self).council) is Some {
                    crate::registry::council_refusal(*env, old(self).council)
                } else {
                    old(self).fee_config_refusal(config)
                };
                match refusal {
                    Some(e) => r == Err::<Reply<()>, _>(e) && *final(self) == *old(self),
                    None => {
                        &&& r matches Ok(reply)
                        &&& reply.events@ == seq![Event::FeeConfigUpdated { by: env.predecessor }]
                        &&& *final(self) == (TlaRegistry { fee_config: config, ..*old(self) })
                        &&& final(self).wf()
                    },
                }
            }),
    {
        assert_one_yocto(env)?;
        self.assert_council(env)?;
        if config.rent_tier_5_usd_micro == 0 && config.rent_tier_8_usd_micro == 0 && config.rent_tier_10_usd_micro == 0
            && config.rent_tier_12plus_usd_micro == 0 {
            return Err(ContractError::AllRentTiersZero);
        }
        if config.account_creation_deposit_yocto == 0 {
            return Err(ContractError::CreationDepositZero);
        }
        if config.rent_tier_5_usd_micro < config.rent_tier_8_usd_micro || config.rent_tier_8_usd_micro
            < config.rent_tier_10_usd_micro || config.rent_tier_10_usd_micro < config.rent_tier_12plus_usd_micro {
            return Err(ContractError::RentTiersNotDescending);
        }
        if config.max_rate_move_bps > 10_000 || config.quote_slippage_bps > 10_000 {
            return Err(ContractError::InvalidRateBounds);
        }
        let min_rate: u128 = config.min_near_usd_rate_micro;
        let max_rate: u128 = config.max_near_usd_rate_micro;
        if min_rate == 0 || min_rate > max_rate || max_rate > MAX_NEAR_USD_RATE_MICRO {
            return Err(ContractError::InvalidRateBounds);
        }
        if self.near_usd_rate_micro != 0 && (self.near_usd_rate_micro < min_rate || self.near_usd_rate_micro > max_rate) {
            return Err(ContractError::RateOutOfBounds);
        }
        if config.rate_update_cooldown_ns == 0 || config.max_rate_age_ns < config.rate_update_cooldown_ns {
            return Err(ContractError::InvalidRateBounds);
        }
        if config.business_max_subs == 0 {
            return Err(ContractError::InvalidBusinessCap);
        }
        if config.retraction_notice_ns < MIN_RETRACTION_NOTICE_NS {
            return Err(ContractError::RetractionNoticeTooShort);
        }
        if config.tla_allocation_fee_usd_micro > MAX_USD_MICRO || config.rent_tier_5_usd_micro > MAX_USD_MICRO
            || config.rent_tier_8_usd_micro > MAX_USD_MICRO || config.rent_tier_10_usd_micro > MAX_USD_MICRO
            || config.rent_tier_12plus_usd_micro > MAX_USD_MICRO || config.sub_fee_per_account_usd_micro
            > MAX_USD_MICRO {
            return Err(ContractError::FeeExceedsCap);
        }
        self.fee_config = config;
        Ok(logged((), Event::FeeConfigUpdated { by: env.predecessor }))
    }

    pub open spec fn withdraw_refusal(self, env: Env, amount: u128) -> Option<ContractError> {
        if env.deposit != 1 {
            Some(ContractError::RequiresOneYocto)
        } else if env.predecessor != self.treasury && env.predecessor != self.council {
            Some(ContractError::OnlyTreasuryOrCouncil)
        } else if amount == 0 {
            Some(ContractError::WithdrawalAmountZero)
        } else if amount > self.total_revenue {
            Some(ContractError::InsufficientRevenue)
        } else if crate::common::capped_u128(self.total_pending_refunds + amount) > env.spendable() {
            Some(ContractError::InsufficientContractBalance)
        } else {
            None
        }
    }

    /// Revenue goes to the treasury, whoever releases it, and only beyond what is owed already.
    pub fn withdraw(&mut self, env: &Env, amount: u128) -> (r: Result<Reply<()>, ContractError>)
        ensures
            match old(self).withdraw_refusal(*env, amount) {
                Some(e) => r == Err::<Reply<()>, _>(e) && *final(self) == *old(self),
                None => {
                    &&& r matches Ok(reply)
                    &&& reply.events@ == seq![
                        Event::WithdrawalQueued { amount_yocto: amount, recipient: old(self).treasury },
                    ]
                    &&& final(self).total_revenue == old(self).total_revenue - amount
                    &&& final(self).owes_more(*old(self), old(self).treasury, amount)
                    &&& *final(self) == (TlaRegistry {
                        total_revenue: final(self).total_revenue,
                        pending_refunds: final(self).pending_refunds,
                        total_pending_refunds: final(self).total_pending_refunds,
                        ..*old(self)
                    })
                },
            },
    {
        assert_one_yocto(env)?;
        if env.predecessor != self.treasury && env.predecessor != self.council {
            return Err(ContractError::OnlyTreasuryOrCouncil);
        }
        let recipient = self.treasury;
        if amount == 0 {
            return Err(ContractError::WithdrawalAmountZero);
        }
        if amount > self.total_revenue {
            return Err(ContractError::InsufficientRevenue);
        }
        if self.total_pending_refunds.saturating_add(amount) > env.available_balance() {
            return Err(ContractError::InsufficientContractBalance);
        }
        self.total_revenue = self.total_revenue.saturating_sub(amount);
        self.add_pending_refund(&recipient, amount);
        Ok(logged((), Event::WithdrawalQueued { amount_yocto: amount, recipient }))
    }

    pub open spec fn add_ft_refusal(self, env: Env, token: AccountId) -> Option<ContractError> {
        if admin_refusal(self, env) is Some {
            admin_refusal(self, env)
        } else if self.ft_allowlist@.has(token) {
            None
        } else if self.ft_allowlist@.len() >= MAX_ALLOWLIST_SIZE {
            Some(ContractError::AllowlistFull)
        } else if !self.sweepable_tokens@.has(token) && self.sweepable_tokens@.len() >= MAX_SWEEPABLE_SIZE {
            Some(ContractError::AllowlistFull)
        } else {
            None
        }
    }

    /// A token that is gated is sweepable too, and stays so when it is no longer gated.
    pub fn add_ft_allowlist(&mut self, env: &Env, token: AccountId) -> (r: Result<Reply<()>, ContractError>)
        ensures
            match old(self).add_ft_refusal(*env, token) {
                Some(e) => r == Err::<Reply<()>, _>(e) && *final(self) == *old(self),
                None => {
                    &&& r matches Ok(reply)
                    &&& if old(self).ft_allowlist@.has(token) {
                        reply.events@ == Seq::<Event>::empty() && *final(self) == *old(self)
                    } else {
                        &&& reply.events@ == seq![Event::FtAllowlistAdded { token, by: env.predecessor }]
                        &&& final(self).ft_allowlist@ == old(self).ft_allowlist@.insert(token, ())
                        &&& final(self).sweepable_tokens@ == old(self).sweepable_tokens@.insert(token, ())
                        &&& *final(self) == (TlaRegistry {
                            ft_allowlist: final(self).ft_allowlist,
                            sweepable_tokens: final(self).sweepable_tokens,
                            ..*old(self)
                        })
                    }
                },
            },
    {
        assert_one_yocto(env)?;
        self.assert_admin(env)?;
        if self.ft_allowlist.contains_key(&token) {
            return Ok(quiet(()));
        }
        if self.ft_allowlist.len() >= MAX_ALLOWLIST_SIZE {
            return Err(ContractError::AllowlistFull);
        }
        let widens_sweep = !self.sweepable_tokens.contains_key(&token);
        if widens_sweep && self.sweepable_tokens.len() >= MAX_SWEEPABLE_SIZE {
            return Err(ContractError::AllowlistFull);
        }
        self.ft_allowlist.insert(token, ());
        self.sweepable_tokens.insert(token, ());
        Ok(logged((), Event::FtAllowlistAdded { token, by: env.predecessor }))
    }

    pub fn set_lease_term_ns(&mut self, env: &Env, lease_term_ns: u64) -> (r: Result<Reply<()>, ContractError>)
        ensures
            ({
                let refusal = if crate::registry::council_refusal(*env, old(self).council) is Some {
                    crate::registry::council_refusal(*env, old(self).council)
                } else if lease_term_ns < MIN_LEASE_TERM_NS {
                    Some(ContractError::LeaseTermTooShort)
                } else if lease_term_ns > MAX_LEASE_TERM_NS {
                    Some(ContractError::LeaseTermTooLong)
                } else {
                    None
                };
                match refusal {
                    Some(e) => r == Err::<Reply<()>, _>(e) && *final(self) == *old(self),
                    None => {
                        &&& r matches Ok(reply)
                        &&& reply.events@ == seq![Event::LeaseTermChanged { lease_term_ns, by: env.predecessor }]
                        &&& *final(self) == (TlaRegistry { lease_term_ns, ..*old(self) })
                    },
                }
            }),
    {
        assert_one_yocto(env)?;
        self.assert_council(env)?;
        if lease_term_ns < MIN_LEASE_TERM_NS {
            return Err(ContractError::LeaseTermTooShort);
        }
        if lease_term_ns > MAX_LEASE_TERM_NS {
            return Err(ContractError::LeaseTermTooLong);
        }
        self.lease_term_ns = lease_term_ns;
        Ok(logged((), Event::LeaseTermChanged { lease_term_ns, by: env.predecessor }))
    }

    // ---- names --------------------------------------------------------------------------------

    pub fn admin_clear_reclaim_pending(&mut self, env: &Env, tla_id: AccountId, name: String) -> (r: Result<
        Reply<()>,
        ContractError,
    >)
        ensures
            ({
                let key = crate::account::named_account_of(tla_id, name@);
                match admin_refusal(*old(self), *env) {
                    Some(e) => r == Err::<Reply<()>, _>(e) && *final(self) == *old(self),
                    None => {
                        &&& r matches Ok(reply)
                        &&& reply.events@ == seq![
                            Event::ReclaimPendingCleared {
                                full_name: crate::account::full_name_of(tla_id, name),
                                by: env.predecessor,
                            },
                        ]
                        &&& final(self).reclaim_dropped(*old(self), key)
                        &&& *final(self) == (TlaRegistry {
                            reclaim_pending: final(self).reclaim_pending,
                            ..*old(self)
                        })
                    },
                }
            }),
    {
        assert_one_yocto(env)?;
        self.assert_admin(env)?;
        self.drop_reclaim(&named_account(&tla_id, name.as_str()));
        let full_name = FullName::of(tla_id, name);
        Ok(logged((), Event::ReclaimPendingCleared { full_name, by: env.predecessor }))
    }

    pub open spec fn release_order_refusal(self, env: Env, order_id: Seq<char>) -> Option<ContractError> {
        if admin_refusal(self, env) is Some {
            admin_refusal(self, env)
        } else if !self.paid_order_ids@.has(order_id) {
            Some(ContractError::PaidOrderNotFound)
        } else {
            match self.paid_order_ids@[order_id] {
                PaidOrderState::Settled => Some(ContractError::PaidOrderAlreadySettled),
                PaidOrderState::InFlight { started_at, .. } => if crate::common::floored(
                    env.now as int,
                    started_at as int,
                ) < MANUAL_ORDER_RELEASE_AFTER_NS {
                    Some(ContractError::PaidOrderStillInFlight)
                } else {
                    None
                },
            }
        }
    }

    /// Frees an order whose mint never answered, and gives the authority its mint back.
    pub fn admin_release_paid_order(&mut self, env: &Env, order_id: String) -> (r: Result<Reply<()>, ContractError>)
        ensures
            match old(self).release_order_refusal(*env, order_id@) {
                Some(e) => r == Err::<Reply<()>, _>(e) && *final(self) == *old(self),
                None => {
                    let held = old(self).paid_order_ids@[order_id@];
                    &&& r matches Ok(reply)
                    &&& reply.events@ == seq![Event::PaidRentalOrderReleased { order_id }]
                    &&& final(self).paid_order_ids@ == old(self).paid_order_ids@.remove(order_id@)
                    &&& final(self).authority_mints@ == crate::rental::mint_returned(
                        old(self).authority_mints@,
                        held->payer,
                        held->tla_id,
                    )
                    &&& *final(self) == (TlaRegistry {
                        paid_order_ids: final(self).paid_order_ids,
                        authority_mints: final(self).authority_mints,
                        ..*old(self)
                    })
                },
            },
    {
        assert_one_yocto(env)?;
        self.assert_admin(env)?;
        let held: PaidOrderState = match self.paid_order_ids.get(&order_id) {
            None => {
                return Err(ContractError::PaidOrderNotFound);
            },
            Some(held) => *held,
        };
        match held {
            PaidOrderState::Settled => Err(ContractError::PaidOrderAlreadySettled),
            PaidOrderState::InFlight { started_at, payer, tla_id, .. } => {
                let held_for: u64 = env.now.saturating_sub(started_at);
                if held_for < MANUAL_ORDER_RELEASE_AFTER_NS {
                    return Err(ContractError::PaidOrderStillInFlight);
                }
                self.paid_order_ids.remove(&order_id);
                self.release_authority_mint(&payer, &tla_id);
                Ok(logged((), Event::PaidRentalOrderReleased { order_id }))
            },
        }
    }

    /// Whether the name is rented.
    pub open spec fn rented(self, tla_id: AccountId, name: Seq<char>) -> bool {
        match crate::account::named_account_of(tla_id, name) {
            Some(key) => self.sub_accounts@.has(key),
            None => false,
        }
    }

    pub(crate) fn is_rented(&self, tla_id: &AccountId, name: &str) -> (r: bool)
        ensures
            r == self.rented(*tla_id, name@),
    {
        match named_account(tla_id, name) {
            Some(key) => self.sub_accounts.contains_key(&key),
            None => false,
        }
    }

    pub open spec fn release_park_refusal(self, env: Env, tla_id: AccountId, name: Seq<char>) -> Option<ContractError> {
        if admin_refusal(self, env) is Some {
            admin_refusal(self, env)
        } else if self.rented(tla_id, name) {
            Some(ContractError::SubAccountNameTaken)
        } else if !self.parked(tla_id, name) {
            Some(ContractError::SubAccountNotParked)
        } else {
            None
        }
    }

    pub fn admin_release_park(&mut self, env: &Env, tla_id: AccountId, name: String) -> (r: Result<
        Reply<()>,
        ContractError,
    >)
        ensures
            match old(self).release_park_refusal(*env, tla_id, name@) {
                Some(e) => r == Err::<Reply<()>, _>(e) && *final(self) == *old(self),
                None => {
                    &&& r matches Ok(reply)
                    &&& reply.events@ == seq![
                        Event::ParkReleased {
                            full_name: crate::account::full_name_of(tla_id, name),
                            by: env.predecessor,
                        },
                    ]
                    &&& final(self).parked_names@ == old(self).parked_names@.remove(
                        crate::account::sub_account_text(tla_id, name@),
                    )
                    &&& *final(self) == (TlaRegistry { parked_names: final(self).parked_names, ..*old(self) })
                },
            },
    {
        assert_one_yocto(env)?;
        self.assert_admin(env)?;
        if self.is_rented(&tla_id, name.as_str()) {
            return Err(ContractError::SubAccountNameTaken);
        }
        let text = sub_account_key(&tla_id, name.as_str());
        if !self.parked_names.contains_key(&text) {
            return Err(ContractError::SubAccountNotParked);
        }
        self.parked_names.remove(&text);
        let full_name = FullName::of(tla_id, name);
        Ok(logged((), Event::ParkReleased { full_name, by: env.predecessor }))
    }

    pub open spec fn force_park_refusal(self, env: Env, tla_id: AccountId, name: Seq<char>) -> Option<ContractError> {
        if admin_refusal(self, env) is Some {
            admin_refusal(self, env)
        } else if crate::types::name_refusal(name) is Some {
            crate::types::name_refusal(name)
        } else if !self.tlas@.has(tla_id) {
            Some(ContractError::TlaNotFound)
        } else if self.rented(tla_id, name) || self.parked(tla_id, name) {
            Some(ContractError::SubAccountNameTaken)
        } else {
            None
        }
    }

    pub fn admin_force_park(&mut self, env: &Env, tla_id: AccountId, name: String) -> (r: Result<
        Reply<()>,
        ContractError,
    >)
        ensures
            match old(self).force_park_refusal(*env, tla_id, name@) {
                Some(e) => r == Err::<Reply<()>, _>(e) && *final(self) == *old(self),
                None => {
                    &&& r matches Ok(reply)
                    &&& reply.events@ == seq![
                        Event::ParkForced {
                            full_name: crate::account::full_name_of(tla_id, name),
                            by: env.predecessor,
                        },
                    ]
                    &&& final(self).parked_names@ == old(self).parked_names@.insert(
                        crate::account::sub_account_text(tla_id, name@),
                        ParkedEntry { tla_id, parked_at: env.now },
                    )
                    &&& *final(self) == (TlaRegistry { parked_names: final(self).parked_names, ..*old(self) })
                },
            },
    {
        assert_one_yocto(env)?;
        self.assert_admin(env)?;
        validate_name(name.as_str())?;
        if !self.tlas.contains_key(&tla_id) {
            return Err(ContractError::TlaNotFound);
        }
        if self.is_rented(&tla_id, name.as_str()) {
            return Err(ContractError::SubAccountNameTaken);
        }
        let text = sub_account_key(&tla_id, name.as_str());
        if self.parked_names.contains_key(&text) {
            return Err(ContractError::SubAccountNameTaken);
        }
        self.parked_names.insert(text, ParkedEntry { tla_id, parked_at: env.now });
        let full_name = FullName::of(tla_id, name);
        Ok(logged((), Event::ParkForced { full_name, by: env.predecessor }))
    }

    // ---- council and treasury -----------------------------------------------------------------

    pub fn approve_council_rotation(&mut self, env: &Env, new_council: AccountId) -> (r: Result<
        Reply<()>,
        ContractError,
    >)
        ensures
            ({
                let refusal = if crate::registry::council_refusal(*env, old(self).council) is Some {
                    crate::registry::council_refusal(*env, old(self).council)
                } else if new_council == old(self).council {
                    Some(ContractError::CouncilUnchanged)
                } else if new_council == env.current {
                    Some(ContractError::CouncilIsSelf)
                } else {
                    None
                };
                match refusal {
                    Some(e) => r == Err::<Reply<()>, _>(e) && *final(self) == *old(self),
                    None => {
                        &&& r matches Ok(reply)
                        &&& reply.events@ == seq![Event::CouncilRotationApproved { new_council, by: env.predecessor }]
                        &&& *final(self) == (TlaRegistry {
                            pending_council: Some(new_council),
                            pending_council_at: Some(env.now),
                            ..*old(self)
                        })
                    },
                }
            }),
    {
        assert_one_yocto(env)?;
        self.assert_council(env)?;
        if new_council == self.council {
            return Err(ContractError::CouncilUnchanged);
        }
        if new_council == env.current {
            return Err(ContractError::CouncilIsSelf);
        }
        self.pending_council = Some(new_council);
        self.pending_council_at = Some(env.now);
        Ok(logged((), Event::CouncilRotationApproved { new_council, by: env.predecessor }))
    }

    pub fn cancel_council_rotation(&mut self, env: &Env) -> (r: Result<Reply<()>, ContractError>)
        ensures
            ({
                let refusal = if crate::registry::council_refusal(*env, old(self).council) is Some {
                    crate::registry::council_refusal(*env, old(self).council)
                } else if old(self).pending_council is None {
                    Some(ContractError::NoCouncilRotationPending)
                } else {
                    None
                };
                match refusal {
                    Some(e) => r == Err::<Reply<()>, _>(e) && *final(self) == *old(self),
                    None => {
                        &&& r matches Ok(reply)
                        &&& reply.events@ == seq![Event::CouncilRotationCancelled { by: env.predecessor }]
                        &&& *final(self) == (TlaRegistry {
                            pending_council: None,
                            pending_council_at: None,
                            ..*old(self)
                        })
                    },
                }
            }),
    {
        assert_one_yocto(env)?;
        self.assert_council(env)?;
        if self.pending_council.is_none() {
            return Err(ContractError::NoCouncilRotationPending);
        }
        self.pending_council = None;
        self.pending_council_at = None;
        Ok(logged((), Event::CouncilRotationCancelled { by: env.predecessor }))
    }

    pub open spec fn commit_council_refusal(self, env: Env) -> Option<ContractError> {
        if env.deposit != 1 {
            Some(ContractError::RequiresOneYocto)
        } else if self.pending_council is None {
            Some(ContractError::NoCouncilRotationPending)
        } else if env.predecessor != self.pending_council->0 {
            Some(ContractError::OnlyPendingCouncil)
        } else if self.pending_council_at is None {
            Some(ContractError::NoCouncilRotationPending)
        } else if env.now < crate::common::capped_u64(self.pending_council_at->0 + self.upgrade_delay_ns) {
            Some(ContractError::CouncilRotationTooYoung)
        } else {
            None
        }
    }

    /// The new council takes over itself, once the delay has passed.
    pub fn commit_council_rotation(&mut self, env: &Env) -> (r: Result<Reply<()>, ContractError>)
        ensures
            match old(self).commit_council_refusal(*env) {
                Some(e) => r == Err::<Reply<()>, _>(e) && *final(self) == *old(self),
                None => {
                    &&& r matches Ok(reply)
                    &&& reply.events@ == seq![
                        Event::CouncilRotated { new_council: env.predecessor, by: env.predecessor },
                    ]
                    &&& *final(self) == (TlaRegistry {
                        council: env.predecessor,
                        pending_council: None,
                        pending_council_at: None,
                        ..*old(self)
                    })
                },
            },
    {
        assert_one_yocto(env)?;
        let pending = match self.pending_council {
            Some(pending) => pending,
            None => {
                return Err(ContractError::NoCouncilRotationPending);
            },
        };
        if env.predecessor != pending {
            return Err(ContractError::OnlyPendingCouncil);
        }
        let approved_at: u64 = match self.pending_council_at {
            Some(at) => at,
            None => {
                return Err(ContractError::NoCouncilRotationPending);
            },
        };
        if env.now < approved_at.saturating_add(self.upgrade_delay_ns) {
            return Err(ContractError::CouncilRotationTooYoung);
        }
        self.council = pending;
        self.pending_council = None;
        self.pending_council_at = None;
        Ok(logged((), Event::CouncilRotated { new_council: pending, by: env.predecessor }))
    }

    pub fn pending_council(&self) -> (r: Option<(AccountId, u64)>)
        ensures
            r == (if self.pending_council is Some && self.pending_council_at is Some {
                Some((self.pending_council->0, self.pending_council_at->0))
            } else {
                None
            }),
    {
        match (self.pending_council, self.pending_council_at) {
            (Some(account), Some(at)) => Some((account, at)),
            _ => None,
        }
    }

    pub fn approve_treasury_rotation(&mut self, env: &Env, new_treasury: AccountId) -> (r: Result<
        Reply<()>,
        ContractError,
    >)
        ensures
            ({
                let refusal = if crate::registry::council_refusal(*env, old(self).council) is Some {
                    crate::registry::council_refusal(*env, old(self).council)
                } else if new_treasury == old(self).treasury {
                    Some(ContractError::TreasuryUnchanged)
                } else if new_treasury == env.current {
                    Some(ContractError::TreasuryIsSelf)
                } else {
                    None
                };
                match refusal {
                    Some(e) => r == Err::<Reply<()>, _>(e) && *final(self) == *old(self),
                    None => {
                        &&& r matches Ok(reply)
                        &&& reply.events@ == seq![
                            Event::TreasuryRotationApproved { new_treasury, by: env.predecessor },
                        ]
                        &&& *final(self) == (TlaRegistry { pending_treasury: Some(new_treasury), ..*old(self) })
                    },
                }
            }),
    {
        assert_one_yocto(env)?;
        self.assert_council(env)?;
        if new_treasury == self.treasury {
            return Err(ContractError::TreasuryUnchanged);
        }
        if new_treasury == env.current {
            return Err(ContractError::TreasuryIsSelf);
        }
        self.pending_treasury = Some(new_treasury);
        Ok(logged((), Event::TreasuryRotationApproved { new_treasury, by: env.predecessor }))
    }

    pub fn cancel_treasury_rotation(&mut self, env: &Env) -> (r: Result<Reply<()>, ContractError>)
        ensures
            ({
                let refusal = if crate::registry::council_refusal(*env, old(self).council) is Some {
                    crate::registry::council_refusal(*env, old(self).council)
                } else if old(self).pending_treasury is None {
                    Some(ContractError::NoTreasuryRotationPending)
                } else {
                    None
                };
                match refusal {
                    Some(e) => r == Err::<Reply<()>, _>(e) && *final(self) == *old(self),
                    None => {
                        &&& r matches Ok(reply)
                        &&& reply.events@ == seq![Event::TreasuryRotationCancelled { by: env.predecessor }]
                        &&& *final(self) == (TlaRegistry { pending_treasury: None, ..*old(self) })
                    },
                }
            }),
    {
        assert_one_yocto(env)?;
        self.assert_council(env)?;
        if self.pending_treasury.is_none() {
            return Err(ContractError::NoTreasuryRotationPending);
        }
        self.pending_treasury = None;
        Ok(logged((), Event::TreasuryRotationCancelled { by: env.predecessor }))
    }

    /// The new treasury takes over itself.
    pub fn commit_treasury_rotation(&mut self, env: &Env) -> (r: Result<Reply<()>, ContractError>)
        ensures
            ({
                let refusal = if env.deposit != 1 {
                    Some(ContractError::RequiresOneYocto)
                } else if old(self).pending_treasury is None {
                    Some(ContractError::NoTreasuryRotationPending)
                } else if env.predecessor != old(self).pending_treasury->0 {
                    Some(ContractError::OnlyPendingTreasury)
                } else {
                    None
                };
                match refusal {
                    Some(e) => r == Err::<Reply<()>, _>(e) && *final(self) == *old(self),
                    None => {
                        &&& r matches Ok(reply)
                        &&& reply.events@ == seq![
                            Event::TreasuryRotated { new_treasury: env.predecessor, by: env.predecessor },
                        ]
                        &&& *final(self) == (TlaRegistry {
                            treasury: env.predecessor,
                            pending_treasury: None,
                            ..*old(self)
                        })
                    },
                }
            }),
    {
        assert_one_yocto(env)?;
        let pending = match self.pending_treasury {
            Some(pending) => pending,
            None => {
                return Err(ContractError::NoTreasuryRotationPending);
            },
        };
        if env.predecessor != pending {
            return Err(ContractError::OnlyPendingTreasury);
        }
        self.treasury = pending;
        self.pending_treasury = None;
        Ok(logged((), Event::TreasuryRotated { new_treasury: pending, by: env.predecessor }))
    }

    pub fn pending_treasury(&self) -> (r: Option<AccountId>)
        ensures
            r == self.pending_treasury,
    {
        self.pending_treasury
    }

    // ---- upgrades -----------------------------------------------------------------------------

    pub fn approve_upgrade(&mut self, env: &Env, code_hash: [u8; 32]) -> (r: Result<Reply<()>, ContractError>)
        ensures
            match crate::registry::council_refusal(*env, old(self).council) {
                Some(e) => r == Err::<Reply<()>, _>(e) && *final(self) == *old(self),
                None => {
                    &&& r matches Ok(reply)
                    &&& reply.events@ == seq![Event::UpgradeApproved { hash: code_hash, by: env.predecessor }]
                    &&& *final(self) == (TlaRegistry {
                        approved_code_hash: Some(code_hash),
                        approved_at: Some(env.now),
                        ..*old(self)
                    })
                },
            },
    {
        assert_one_yocto(env)?;
        self.assert_council(env)?;
        self.approved_code_hash = Some(code_hash);
        self.approved_at = Some(env.now);
        Ok(logged((), Event::UpgradeApproved { hash: code_hash, by: env.predecessor }))
    }

    /// Why `code`, whose digest is `digest`, may not be deployed now, if it may not.
    pub open spec fn upgrade_refusal(self, env: Env, code: Seq<u8>, digest: Seq<u8>) -> Option<ContractError> {
        if crate::registry::council_refusal(env, self.council) is Some {
            crate::registry::council_refusal(env, self.council)
        } else if code.len() == 0 {
            Some(ContractError::EmptyCode)
        } else if self.approved_code_hash is None {
            Some(ContractError::NoApprovedHash)
        } else if digest != self.approved_code_hash->0@ {
            Some(ContractError::HashMismatch)
        } else if self.approved_at is None {
            Some(ContractError::NoApprovedHash)
        } else if env.now < crate::common::capped_u64(self.approved_at->0 + self.upgrade_delay_ns) {
            Some(ContractError::ApprovalTooYoung)
        } else {
            None
        }
    }

    /// What an upgrade answers, given the digest of the code.
    pub open spec fn upgrade_answer(
        self,
        after: TlaRegistry,
        r: Result<Reply<Dispatch>, ContractError>,
        env: Env,
        code: Vec<u8>,
        digest: Seq<u8>,
    ) -> bool {
        match self.upgrade_refusal(env, code@, digest) {
            Some(e) => r == Err::<Reply<Dispatch>, _>(e) && after == self,
            None => {
                &&& r matches Ok(reply)
                &&& reply.events@ == Seq::<Event>::empty()
                &&& reply.value == (Dispatch {
                    call: Call::DeployAndMigrate {
                        account: env.current,
                        code,
                        reserved_tgas: crate::common::DEPLOY_AND_MIGRATE_TGAS,
                    },
                    tgas: 0,
                    deposit: 0,
                    callback: Callback::Nobody,
                    callback_tgas: 0,
                })
                &&& after == (TlaRegistry { approved_code_hash: None, approved_at: None, ..self })
            },
        }
    }

    /// Deploys the approved code, once its approval is old enough. The approval is spent.
    pub fn upgrade(&mut self, env: &Env, code: Vec<u8>) -> (r: Result<Reply<Dispatch>, ContractError>)
        ensures
            old(self).upgrade_answer(*final(self), r, *env, code, crate::common::sha256_of(code@)),
    {
        let digest = sha256(&code);
        self.upgrade_with_digest(env, code, digest)
    }

    /// [`TlaRegistry::upgrade`] for code whose digest is known.
    pub fn upgrade_with_digest(&mut self, env: &Env, code: Vec<u8>, digest: [u8; 32]) -> (r: Result<
        Reply<Dispatch>,
        ContractError,
    >)
        ensures
            old(self).upgrade_answer(*final(self), r, *env, code, digest@),
    {
        assert_one_yocto(env)?;
        self.assert_council(env)?;
        if code.len() == 0 {
            return Err(ContractError::EmptyCode);
        }
        let approved = match self.approved_code_hash {
            Some(hash) => hash,
            None => {
                return Err(ContractError::NoApprovedHash);
            },
        };
        proof {
            if digest@ == approved@ {
                assert(digest =~= approved);
            }
        }
        if !same_digest(&digest, &approved) {
            return Err(ContractError::HashMismatch);
        }
        let approved_at: u64 = match self.approved_at {
            Some(at) => at,
            None => {
                return Err(ContractError::NoApprovedHash);
            },
        };
        if env.now < approved_at.saturating_add(self.upgrade_delay_ns) {
            return Err(ContractError::ApprovalTooYoung);
        }
        self.approved_code_hash = None;
        self.approved_at = None;
        Ok(
            quiet(
                Dispatch {
                    call: Call::DeployAndMigrate {
                        account: env.current,
                        code,
                        reserved_tgas: crate::common::DEPLOY_AND_MIGRATE_TGAS,
                    },
                    tgas: 0,
                    deposit: 0,
                    callback: Callback::Nobody,
                    callback_tgas: 0,
                },
            ),
        )
    }

    /// Deletes the key that the contract was deployed with, once an upgrade has run without it.
    pub fn seal(&mut self, env: &Env, public_key: String) -> (r: Result<Reply<Dispatch>, ContractError>)
        ensures
            *final(self) == *old(self),
            ({
                let refusal = if crate::registry::council_refusal(*env, old(self).council) is Some {
                    crate::registry::council_refusal(*env, old(self).council)
                } else if !old(self).upgrade_proven {
                    Some(ContractError::UpgradeNotProven)
                } else {
                    None
                };
                match refusal {
                    Some(e) => r == Err::<Reply<Dispatch>, _>(e),
                    None => {
                        &&& r matches Ok(reply)
                        &&& reply.events@ == Seq::<Event>::empty()
                        &&& reply.value == (Dispatch {
                            call: Call::DeleteKey { account: env.current, public_key },
                            tgas: 0,
                            deposit: 0,
                            callback: Callback::AfterSeal { public_key, by: env.predecessor },
                            callback_tgas: SEAL_CB_TGAS,
                        })
                    },
                }
            }),
    {
        assert_one_yocto(env)?;
        self.assert_council(env)?;
        if !self.upgrade_proven {
            return Err(ContractError::UpgradeNotProven);
        }
        let key = public_key.clone();
        Ok(
            quiet(
                Dispatch {
                    call: Call::DeleteKey { account: env.current, public_key },
                    tgas: 0,
                    deposit: 0,
                    callback: Callback::AfterSeal { public_key: key, by: env.predecessor },
                    callback_tgas: SEAL_CB_TGAS,
                },
            ),
        )
    }

    pub fn after_seal(&mut self, public_key: String, by: AccountId, success: bool) -> (r: Reply<bool>)
        ensures
            *final(self) == *old(self),
            r.value == success,
            r.events@ == (if success {
                seq![Event::Sealed { public_key, by }]
            } else {
                seq![Event::SealFailed { public_key, by }]
            }),
    {
        if !success {
            return logged(false, Event::SealFailed { public_key, by });
        }
        logged(true, Event::Sealed { public_key, by })
    }

    pub fn approved_upgrade_hash(&self) -> (r: Option<[u8; 32]>)
        ensures
            r == self.approved_code_hash,
    {
        self.approved_code_hash
    }

    pub fn approved_upgrade_at(&self) -> (r: Option<u64>)
        ensures
            r == self.approved_at,
    {
        self.approved_at
    }

    pub fn upgrade_delay_ns(&self) -> (r: u64)
        ensures
            r == self.upgrade_delay_ns,
    {
        self.upgrade_delay_ns
    }
}

} // verus!
