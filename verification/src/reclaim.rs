//! Taking names back.
use vstd::prelude::*;

use crate::account::{named_account, AccountId, FullName};
use crate::asset_gate::{ft_balance_fanout, ft_balances_clear, BalanceGate, FT_BALANCE_TGAS};
use crate::callbacks::rotated;
use crate::common::{PromiseError, RotationCause};
use crate::error::ContractError;
use crate::events::{BlockReason, Event};
use crate::host::{logged, quiet, Call, Callback, Dispatch, Env, PromiseOrValue, Reply};
use crate::lifecycle::effective_sub_lifecycle;
use crate::registry::{assert_one_yocto, TlaRegistry};
use crate::rental::retract_wallet_lease;
use crate::types::{validate_name, LifecycleStatus, ParkedEntry, SubAccountEntry};

verus! {

pub const HOS_SWEEP_TGAS: u64 = 120;

pub const FORCE_TRANSFER_TGAS: u64 = 45;

pub const FINALIZE_CB_TGAS: u64 = 10;

pub const PARK_FRAME_TGAS: u64 = 25;

pub const PARK_CHAIN_TGAS: u64 = FORCE_TRANSFER_TGAS + FINALIZE_CB_TGAS;

pub const BALANCES_CB_TOTAL_TGAS: u64 = PARK_CHAIN_TGAS + PARK_FRAME_TGAS;

/// What a token sweep has to bring: the storage deposit, and one yocto.
pub const SWEEP_ATTACHED_REQUIRED: u128 = crate::common::FT_STORAGE_DEPOSIT_YOCTO + 1;

/// The balances callback parks out of its own budget, and the balance gate asks every allowlisted token
/// before that; one call funds it all.
pub proof fn reclaim_gate_fits_one_call()
    ensures
        BALANCES_CB_TOTAL_TGAS >= PARK_CHAIN_TGAS + PARK_FRAME_TGAS,
        crate::admin::MAX_ALLOWLIST_SIZE * FT_BALANCE_TGAS + BALANCES_CB_TOTAL_TGAS
            + crate::asset_gate::GATE_CALLER_FRAME_TGAS <= 300,
{
}

/// The rotation that leaves a wallet without an owner.
pub open spec fn park_rotation(hos_extension: AccountId, sub_account: AccountId, tla_id: AccountId, name: String, destination: AccountId) -> Dispatch {
    Dispatch {
        call: Call::ForceTransfer {
            extension: hos_extension,
            wallet: sub_account,
            new_owner: None,
            cause: RotationCause::Reclaim,
            expected: None,
        },
        tgas: FORCE_TRANSFER_TGAS,
        deposit: 0,
        callback: Callback::ReclaimFinalized { tla_id, name, destination },
        callback_tgas: FINALIZE_CB_TGAS,
    }
}

impl TlaRegistry {
    /// Where a name stands in its life now.
    pub open spec fn name_lifecycle(self, now: u64, tla_id: AccountId, key: AccountId) -> LifecycleStatus {
        crate::lifecycle::sub_lifecycle(
            self.sub_accounts@[key],
            self.tlas@[tla_id],
            self.fee_config.retraction_notice_ns,
            self.clock_at(now),
            self.suspension_of(tla_id),
            now,
        )
    }

    /// Why a name cannot be reclaimed now, if it cannot.
    pub open spec fn reclaimable_refusal(self, now: u64, tla_id: AccountId, key: Option<AccountId>) -> Option<ContractError> {
        if key is None {
            Some(ContractError::InvalidSubAccountId)
        } else if !self.sub_accounts@.has(key->0) {
            Some(ContractError::SubAccountNotFound)
        } else if self.sub_accounts@[key->0].tla_id != tla_id {
            Some(ContractError::SubAccountTlaMismatch)
        } else if !self.tlas@.has(tla_id) {
            Some(ContractError::TlaNotFound)
        } else if !(self.name_lifecycle(now, tla_id, key->0) is Reclaimable) {
            Some(ContractError::SubAccountNotReclaimable)
        } else {
            None
        }
    }

    /// Why an account cannot be swept now, if it cannot: parked accounts always can.
    pub open spec fn sweepable_refusal(self, now: u64, tla_id: AccountId, name: Seq<char>) -> Option<ContractError> {
        let key = crate::account::named_account_of(tla_id, name);
        if key is Some && self.parked(tla_id, name) {
            None
        } else {
            self.reclaimable_refusal(now, tla_id, key)
        }
    }

    /// The account of a reclaimable name, and where its balance goes.
    pub(crate) fn resolve_reclaimable(&self, env: &Env, tla_id: &AccountId, key: Option<AccountId>) -> (r: Result<
        (AccountId, AccountId),
        ContractError,
    >)
        ensures
            match self.reclaimable_refusal(env.now, *tla_id, key) {
                Some(e) => r == Err::<(AccountId, AccountId), _>(e),
                None => r == Ok::<_, ContractError>((key->0, self.sub_accounts@[key->0].payout_account)),
            },
    {
        let sub_account = match key {
            Some(key) => key,
            None => {
                return Err(ContractError::InvalidSubAccountId);
            },
        };
        let sub = match self.sub_accounts.get(&sub_account) {
            Some(sub) => *sub,
            None => {
                return Err(ContractError::SubAccountNotFound);
            },
        };
        if sub.tla_id != *tla_id {
            return Err(ContractError::SubAccountTlaMismatch);
        }
        let tla = match self.tlas.get(tla_id) {
            Some(tla) => *tla,
            None => {
                return Err(ContractError::TlaNotFound);
            },
        };
        let status = effective_sub_lifecycle(
            &sub,
            &tla,
            self.fee_config.retraction_notice_ns,
            &self.clock(env),
            self.suspension_expiry(tla_id),
            env.now,
        );
        if status != LifecycleStatus::Reclaimable {
            return Err(ContractError::SubAccountNotReclaimable);
        }
        Ok((sub_account, sub.payout_account))
    }

    /// The account that may be swept, and where its balance goes: a parked one pays the treasury.
    fn resolve_sweepable(&self, env: &Env, tla_id: &AccountId, name: &str) -> (r: Result<
        (AccountId, AccountId),
        ContractError,
    >)
        ensures
            match self.sweepable_refusal(env.now, *tla_id, name@) {
                Some(e) => r == Err::<(AccountId, AccountId), _>(e),
                None => {
                    let key = crate::account::sub_account_id(*tla_id, name@);
                    r == Ok::<_, ContractError>(
                        (
                            key,
                            if self.parked(*tla_id, name@) {
                                self.treasury
                            } else {
                                self.sub_accounts@[key].payout_account
                            },
                        ),
                    )
                },
            },
    {
        let key = named_account(tla_id, name);
        if let Some(parked) = key {
            if self.parked_names.contains_key(&parked.text()) {
                return Ok((parked, self.treasury));
            }
        }
        self.resolve_reclaimable(env, tla_id, key)
    }

    /// Anyone may have an expired or parked account's NEAR sent to its payout account.
    pub fn reclaim_sweep_near(&mut self, env: &Env, tla_id: AccountId, name: String) -> (r: Result<
        Reply<Dispatch>,
        ContractError,
    >)
        ensures
            *final(self) == *old(self),
            ({
                let key = crate::account::named_account_of(tla_id, name@);
                let refusal = if env.deposit != 1 {
                    Some(ContractError::RequiresOneYocto)
                } else if crate::types::name_refusal(name@) is Some {
                    crate::types::name_refusal(name@)
                } else {
                    old(self).sweepable_refusal(env.now, tla_id, name@)
                };
                match refusal {
                    Some(e) => r == Err::<Reply<Dispatch>, _>(e),
                    None => {
                        &&& r matches Ok(reply)
                        &&& reply.events@ == Seq::<Event>::empty()
                        &&& reply.value == (Dispatch {
                            call: Call::SweepNear { extension: old(self).hos_extension, wallet: key->0 },
                            tgas: HOS_SWEEP_TGAS,
                            deposit: 0,
                            callback: Callback::Nobody,
                            callback_tgas: 0,
                        })
                    },
                }
            }),
    {
        assert_one_yocto(env)?;
        validate_name(name.as_str())?;
        let (sub_account, _destination) = self.resolve_sweepable(env, &tla_id, name.as_str())?;
        Ok(
            quiet(
                Dispatch {
                    call: Call::SweepNear { extension: self.hos_extension, wallet: sub_account },
                    tgas: HOS_SWEEP_TGAS,
                    deposit: 0,
                    callback: Callback::Nobody,
                    callback_tgas: 0,
                },
            ),
        )
    }

    pub open spec fn sweep_ft_refusal(self, env: Env, tla_id: AccountId, name: Seq<char>, ft: AccountId) -> Option<ContractError> {
        if crate::types::name_refusal(name) is Some {
            crate::types::name_refusal(name)
        } else if env.deposit < SWEEP_ATTACHED_REQUIRED {
            Some(ContractError::InsufficientPayment)
        } else if !self.sweepable_tokens@.has(ft) {
            Some(ContractError::TokenNotInAllowlist)
        } else {
            self.sweepable_refusal(env.now, tla_id, name)
        }
    }

    /// Anyone may have an expired or parked account's tokens sent to its payout account, and brings
    /// what that takes; what they bring beyond is owed back.
    pub fn reclaim_sweep_ft(&mut self, env: &Env, tla_id: AccountId, name: String, ft: AccountId) -> (r: Result<
        Reply<Dispatch>,
        ContractError,
    >)
        ensures
            match old(self).sweep_ft_refusal(*env, tla_id, name@, ft) {
                Some(e) => r == Err::<Reply<Dispatch>, _>(e) && *final(self) == *old(self),
                None => {
                    &&& r matches Ok(reply)
                    &&& reply.events@ == Seq::<Event>::empty()
                    &&& reply.value == (Dispatch {
                        call: Call::SweepFt {
                            extension: old(self).hos_extension,
                            wallet: crate::account::sub_account_id(tla_id, name@),
                            token: ft,
                            caller: env.predecessor,
                        },
                        tgas: HOS_SWEEP_TGAS,
                        deposit: SWEEP_ATTACHED_REQUIRED,
                        callback: Callback::Nobody,
                        callback_tgas: 0,
                    })
                    &&& final(self).owes_excess(*old(self), env.predecessor, env.deposit, SWEEP_ATTACHED_REQUIRED)
                    &&& *final(self) == (TlaRegistry {
                        pending_refunds: final(self).pending_refunds,
                        total_pending_refunds: final(self).total_pending_refunds,
                        ..*old(self)
                    })
                },
            },
    {
        validate_name(name.as_str())?;
        if env.deposit < SWEEP_ATTACHED_REQUIRED {
            return Err(ContractError::InsufficientPayment);
        }
        if !self.sweepable_tokens.contains_key(&ft) {
            return Err(ContractError::TokenNotInAllowlist);
        }
        let (sub_account, _destination) = self.resolve_sweepable(env, &tla_id, name.as_str())?;
        let caller = env.predecessor;
        self.refund_excess(&caller, env.deposit, SWEEP_ATTACHED_REQUIRED);
        Ok(
            quiet(
                Dispatch {
                    call: Call::SweepFt { extension: self.hos_extension, wallet: sub_account, token: ft, caller },
                    tgas: HOS_SWEEP_TGAS,
                    deposit: SWEEP_ATTACHED_REQUIRED,
                    callback: Callback::Nobody,
                    callback_tgas: 0,
                },
            ),
        )
    }

    /// A reclaimable name whose own term is still live: notice has to be given first.
    pub open spec fn term_is_live(self, now: u64, key: AccountId) -> bool {
        let sub = self.sub_accounts@[key];
        &&& self.sub_accounts@.has(key)
        &&& now < sub.expires_at
        &&& sub.retraction_at is Some ==> now < crate::common::capped_u64(
            sub.retraction_at->0 + self.fee_config.retraction_notice_ns,
        )
    }

    pub open spec fn finalize_refusal(self, env: Env, tla_id: AccountId, name: Seq<char>) -> Option<ContractError> {
        let key = crate::account::named_account_of(tla_id, name);
        if self.paused_at(env.now) {
            Some(ContractError::Paused)
        } else if crate::types::name_refusal(name) is Some {
            crate::types::name_refusal(name)
        } else if key is Some && self.reclaim_pending@.has(key->0) {
            Some(ContractError::ReclaimInProgress)
        } else if self.reclaimable_refusal(env.now, tla_id, key) is Some {
            self.reclaimable_refusal(env.now, tla_id, key)
        } else if self.term_is_live(env.now, key->0) && self.sub_accounts@[key->0].retraction_at is Some {
            Some(ContractError::RetractionPending)
        } else {
            None
        }
    }

    /// Starts the notice where the name's own term is live, and says when it ends.
    fn start_notice_if_term_is_live(&mut self, env: &Env, key: &AccountId) -> (r: Result<Option<u64>, ContractError>)
        ensures
            if !old(self).term_is_live(env.now, *key) {
                r == Ok::<Option<u64>, ContractError>(None) && *final(self) == *old(self)
            } else if old(self).sub_accounts@[*key].retraction_at is Some {
                r == Err::<Option<u64>, _>(ContractError::RetractionPending) && *final(self) == *old(self)
            } else {
                &&& r == Ok::<_, ContractError>(
                    Some(crate::common::capped_u64(env.now + old(self).fee_config.retraction_notice_ns)),
                )
                &&& final(self).sub_accounts@ == old(self).sub_accounts@.insert(
                    *key,
                    (SubAccountEntry { retraction_at: Some(env.now), ..old(self).sub_accounts@[*key] }),
                )
                &&& *final(self) == (TlaRegistry { sub_accounts: final(self).sub_accounts, ..*old(self) })
            },
    {
        let notice: u64 = self.fee_config.retraction_notice_ns;
        let now: u64 = env.now;
        let sub = match self.sub_accounts.get(key) {
            Some(sub) => *sub,
            None => {
                return Ok(None);
            },
        };
        if now >= sub.expires_at {
            return Ok(None);
        }
        match sub.retraction_at {
            Some(started) => {
                if now >= started.saturating_add(notice) {
                    Ok(None)
                } else {
                    Err(ContractError::RetractionPending)
                }
            },
            None => {
                self.sub_accounts.insert(*key, SubAccountEntry { retraction_at: Some(now), ..sub });
                Ok(Some(now.saturating_add(notice)))
            },
        }
    }

    /// Takes a name back: notice first where its own term is live; else the account is parked, once
    /// it is found empty of gated tokens.
    pub fn reclaim_finalize(&mut self, env: &Env, tla_id: AccountId, name: String) -> (r: Result<
        Reply<Dispatch>,
        ContractError,
    >)
        ensures
            match old(self).finalize_refusal(*env, tla_id, name@) {
                Some(e) => r == Err::<Reply<Dispatch>, _>(e) && *final(self) == *old(self),
                None => {
                    let key = crate::account::sub_account_id(tla_id, name@);
                    let destination = old(self).sub_accounts@[key].payout_account;
                    let ends_at = crate::common::capped_u64(env.now + old(self).fee_config.retraction_notice_ns);
                    &&& r matches Ok(reply)
                    &&& if old(self).term_is_live(env.now, key) {
                        &&& reply.events@ == seq![
                            Event::SubAccountRetractionScheduled {
                                full_name: key,
                                retraction_at: ends_at,
                                by: env.predecessor,
                            },
                        ]
                        &&& reply.value == crate::rental::retract_dispatch(
                            old(self).hos_extension,
                            key,
                            ends_at,
                            Callback::LeaseSynced { full_name: key, intent: crate::events::LeaseIntent::Retract },
                        )
                        &&& final(self).sub_accounts@ == old(self).sub_accounts@.insert(
                            key,
                            (SubAccountEntry { retraction_at: Some(env.now), ..old(self).sub_accounts@[key] }),
                        )
                        &&& *final(self) == (TlaRegistry { sub_accounts: final(self).sub_accounts, ..*old(self) })
                    } else {
                        &&& reply.events@ == Seq::<Event>::empty()
                        &&& final(self).reclaim_pending@ == old(self).reclaim_pending@.insert(key, ())
                        &&& *final(self) == (TlaRegistry {
                            reclaim_pending: final(self).reclaim_pending,
                            ..*old(self)
                        })
                        &&& if old(self).ft_allowlist@.len() == 0 {
                            reply.value == park_rotation(old(self).hos_extension, key, tla_id, name, destination)
                        } else {
                            crate::rental::asks_balances(
                                reply.value,
                                old(self).ft_allowlist@.keys,
                                key,
                                Callback::BalancesChecked { tla_id, name, destination },
                                BALANCES_CB_TOTAL_TGAS,
                            )
                        }
                    }
                },
            },
    {
        self.assert_not_paused(env)?;
        validate_name(name.as_str())?;
        let key = named_account(&tla_id, name.as_str());
        if let Some(full_name) = key {
            if self.reclaim_pending.contains_key(&full_name) {
                return Err(ContractError::ReclaimInProgress);
            }
        }
        let (sub_account, destination) = self.resolve_reclaimable(env, &tla_id, key)?;
        if let Some(ends_at) = self.start_notice_if_term_is_live(env, &sub_account)? {
            return Ok(
                logged(
                    retract_wallet_lease(&self.hos_extension, sub_account, ends_at),
                    Event::SubAccountRetractionScheduled {
                        full_name: sub_account,
                        retraction_at: ends_at,
                        by: env.predecessor,
                    },
                ),
            );
        }
        self.reclaim_pending.insert(sub_account, ());
        match ft_balance_fanout(&self.ft_allowlist) {
            None => Ok(quiet(self.park_wallet(sub_account, tla_id, name, destination))),
            Some(tokens) => Ok(
                quiet(
                    Dispatch {
                        call: Call::FtBalances { tokens, account: sub_account },
                        tgas: FT_BALANCE_TGAS,
                        deposit: 0,
                        callback: Callback::BalancesChecked { tla_id, name, destination },
                        callback_tgas: BALANCES_CB_TOTAL_TGAS,
                    },
                ),
            ),
        }
    }

    /// Parks the account if it is empty of gated tokens and still reclaimable; else lets go of it.
    pub fn on_balances_checked(
        &mut self,
        env: &Env,
        tla_id: AccountId,
        name: String,
        destination: AccountId,
        allowlist: Vec<AccountId>,
        balances: Vec<Result<u128, PromiseError>>,
    ) -> (r: Reply<PromiseOrValue<()>>)
        ensures
            ({
                let key = crate::account::named_account_of(tla_id, name@);
                let gate = crate::asset_gate::gate_of(allowlist@, balances@);
                if gate is Clear && old(self).reclaimable_refusal(env.now, tla_id, key) is None {
                    &&& r.events@ == Seq::<Event>::empty()
                    &&& r.value == PromiseOrValue::<()>::Promise(
                        park_rotation(old(self).hos_extension, key->0, tla_id, name, destination),
                    )
                    &&& *final(self) == *old(self)
                } else {
                    let full_name = crate::account::full_name_of(tla_id, name);
                    &&& r.value == PromiseOrValue::<()>::Value(())
                    &&& r.events@ == seq![
                        match gate {
                            BalanceGate::Blocked { token, reason } => Event::ReclaimFinalizeBlocked {
                                full_name,
                                token,
                                reason,
                            },
                            BalanceGate::Clear => Event::ReclaimFinalizeBlocked {
                                full_name,
                                token: None,
                                reason: BlockReason::NoLongerReclaimable,
                            },
                        },
                    ]
                    &&& final(self).reclaim_dropped(*old(self), key)
                    &&& *final(self) == (TlaRegistry { reclaim_pending: final(self).reclaim_pending, ..*old(self) })
                }
            }),
    {
        let key = named_account(&tla_id, name.as_str());
        if let BalanceGate::Blocked { token, reason } = ft_balances_clear(&allowlist, &balances) {
            self.drop_reclaim(&key);
            let full_name = FullName::of(tla_id, name);
            return logged(
                PromiseOrValue::Value(()),
                Event::ReclaimFinalizeBlocked { full_name, token, reason },
            );
        }
        match self.resolve_reclaimable(env, &tla_id, key) {
            Ok((sub_account, _)) => quiet(
                PromiseOrValue::Promise(self.park_wallet(sub_account, tla_id, name, destination)),
            ),
            Err(_) => {
                self.drop_reclaim(&key);
                let full_name = FullName::of(tla_id, name);
                logged(
                    PromiseOrValue::Value(()),
                    Event::ReclaimFinalizeBlocked {
                        full_name,
                        token: None,
                        reason: BlockReason::NoLongerReclaimable,
                    },
                )
            },
        }
    }

    /// The name is no longer being reclaimed. What is no account never is.
    pub open spec fn reclaim_dropped(self, before: TlaRegistry, key: Option<AccountId>) -> bool {
        match key {
            Some(key) => self.reclaim_pending@ == before.reclaim_pending@.remove(key),
            None => self.reclaim_pending == before.reclaim_pending,
        }
    }

    pub(crate) fn drop_reclaim(&mut self, key: &Option<AccountId>)
        ensures
            final(self).reclaim_dropped(*old(self), *key),
            *final(self) == (TlaRegistry { reclaim_pending: final(self).reclaim_pending, ..*old(self) }),
    {
        if let Some(key) = key {
            self.reclaim_pending.remove(key);
        }
    }

    /// Moves a parked name from the ledger to the parked names.
    pub fn on_reclaim_finalized(
        &mut self,
        env: &Env,
        tla_id: AccountId,
        name: String,
        destination: AccountId,
        parked: Result<bool, PromiseError>,
    ) -> (r: Vec<Event>)
        ensures
            ({
                let key = crate::account::named_account_of(tla_id, name@);
                &&& final(self).reclaim_dropped(*old(self), key)
                &&& if parked != Ok::<bool, PromiseError>(true) {
                    &&& r@ == seq![
                        Event::ReclaimFinalizeBlocked {
                            full_name: crate::account::full_name_of(tla_id, name),
                            token: None,
                            reason: BlockReason::ParkFailed,
                        },
                    ]
                    &&& *final(self) == (TlaRegistry {
                        reclaim_pending: final(self).reclaim_pending,
                        ..*old(self)
                    })
                } else if key is None || !old(self).sub_accounts@.has(key->0) {
                    &&& r@ == Seq::<Event>::empty()
                    &&& *final(self) == (TlaRegistry {
                        reclaim_pending: final(self).reclaim_pending,
                        ..*old(self)
                    })
                } else {
                    let row = old(self).sub_accounts@[key->0];
                    let event = Event::SubAccountReclaimed { full_name: key->0, tla_id, swept_to: destination };
                    &&& r@ == seq![Event::NftBurn { owner_id: row.owner, token_id: key->0 }, event]
                    &&& final(self).sub_accounts@ == old(self).sub_accounts@.remove(key->0)
                    &&& final(self).sub_accounts_by_owner@ == crate::indexes::index_without(
                        old(self).sub_accounts_by_owner@,
                        row.owner,
                        key->0,
                    )
                    &&& final(self).sub_accounts_by_tla@ == crate::indexes::index_without(
                        old(self).sub_accounts_by_tla@,
                        row.tla_id,
                        key->0,
                    )
                    &&& final(self).business_sub_count@ == (if old(self).is_business(tla_id) {
                        crate::business::count_less(old(self).business_sub_count@, tla_id)
                    } else {
                        old(self).business_sub_count@
                    })
                    &&& final(self).parked_names@ == old(self).parked_names@.insert(
                        crate::account::sub_account_text(tla_id, name@),
                        ParkedEntry { tla_id, parked_at: env.now },
                    )
                    &&& final(self).recent_activity@ == crate::activity::feed_after(
                        old(self).recent_activity@,
                        event,
                        *env,
                    )
                    &&& *final(self) == (TlaRegistry {
                        reclaim_pending: final(self).reclaim_pending,
                        sub_accounts: final(self).sub_accounts,
                        sub_accounts_by_owner: final(self).sub_accounts_by_owner,
                        sub_accounts_by_tla: final(self).sub_accounts_by_tla,
                        sub_account_count: crate::common::floored(
                            old(self).sub_account_count as int,
                            1,
                        ) as u64,
                        business_sub_count: final(self).business_sub_count,
                        parked_names: final(self).parked_names,
                        recent_activity: final(self).recent_activity,
                        ..*old(self)
                    })
                    &&& old(self).indexed() ==> final(self).indexed()
                }
            }),
    {
        let named = named_account(&tla_id, name.as_str());
        self.drop_reclaim(&named);
        if !rotated(&parked) {
            let full_name = FullName::of(tla_id, name);
            return logged(
                (),
                Event::ReclaimFinalizeBlocked { full_name, token: None, reason: BlockReason::ParkFailed },
            ).events;
        }
        let key = match named {
            Some(key) => key,
            None => {
                return Vec::new();
            },
        };
        let removed = match self.sub_account_remove(&key) {
            Some(removed) => removed,
            None => {
                return Vec::new();
            },
        };
        let mut events: Vec<Event> = Vec::new();
        events.push(Event::NftBurn { owner_id: removed.owner, token_id: key });
        self.sub_account_count = self.sub_account_count.saturating_sub(1);
        self.business_count_decrement_if_business(&tla_id);
        self.parked_names.insert(key.text(), ParkedEntry { tla_id, parked_at: env.now });
        self.emit_activity(
            env,
            Event::SubAccountReclaimed { full_name: key, tla_id, swept_to: destination },
            &mut events,
        );
        assert(events@ =~= seq![
            Event::NftBurn { owner_id: removed.owner, token_id: key },
            Event::SubAccountReclaimed { full_name: key, tla_id, swept_to: destination },
        ]);
        events
    }

    pub(crate) fn park_wallet(&self, sub_account: AccountId, tla_id: AccountId, name: String, destination: AccountId) -> (r: Dispatch)
        ensures
            r == park_rotation(self.hos_extension, sub_account, tla_id, name, destination),
    {
        Dispatch {
            call: Call::ForceTransfer {
                extension: self.hos_extension,
                wallet: sub_account,
                new_owner: None,
                cause: RotationCause::Reclaim,
                expected: None,
            },
            tgas: FORCE_TRANSFER_TGAS,
            deposit: 0,
            callback: Callback::ReclaimFinalized { tla_id, name, destination },
            callback_tgas: FINALIZE_CB_TGAS,
        }
    }
}

} // verus!
