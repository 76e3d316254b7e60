//! Business accounts: their caps, their terms and the notice that they give.
use vstd::prelude::*;

use crate::account::{named_account, AccountId};
use crate::error::ContractError;
use crate::events::{Event, LeaseIntent};
use crate::fees::base_rent;
use crate::host::{logged, quiet, Dispatch, Env, Reply};
use crate::pricing::MAX_USD_MICRO;
use crate::registry::{assert_one_yocto, TlaRegistry};
use crate::rental::{restore_wallet_lease, retract_wallet_lease_pending};
use crate::types::{validate_name, BusinessRenewalCostView, SubAccountEntry, TlaTerms, TlaType};

verus! {

/// The counts once one name fewer is rented under `tla_id`; a count of zero is forgotten.
pub open spec fn count_less(counts: crate::ordered::OrderedView<AccountId, u32>, tla_id: AccountId) -> crate::ordered::OrderedView<
    AccountId,
    u32,
> {
    if !counts.has(tla_id) || counts[tla_id] == 0 {
        counts
    } else if counts[tla_id] == 1 {
        counts.remove(tla_id)
    } else {
        counts.insert(tla_id, (counts[tla_id] - 1) as u32)
    }
}

impl TlaRegistry {
    pub open spec fn business_count(self, tla_id: AccountId) -> u32 {
        if self.business_sub_count@.has(tla_id) {
            self.business_sub_count@[tla_id]
        } else {
            0
        }
    }

    pub open spec fn business_cap(self, tla_id: AccountId) -> u32 {
        if self.business_sub_cap_override@.has(tla_id) {
            self.business_sub_cap_override@[tla_id]
        } else {
            self.fee_config.business_max_subs
        }
    }

    pub open spec fn is_business(self, tla_id: AccountId) -> bool {
        self.tlas@.has(tla_id) && self.tlas@[tla_id].tla_type is Business
    }

    pub fn get_business_sub_count(&self, tla_id: AccountId) -> (r: u32)
        ensures
            r == self.business_count(tla_id),
    {
        match self.business_sub_count.get(&tla_id) {
            Some(count) => *count,
            None => 0,
        }
    }

    pub(crate) fn effective_business_cap(&self, tla_id: &AccountId) -> (r: u32)
        ensures
            r == self.business_cap(*tla_id),
    {
        match self.business_sub_cap_override.get(tla_id) {
            Some(cap) => *cap,
            None => self.fee_config.business_max_subs,
        }
    }

    pub(crate) fn business_count_check_and_bump(&mut self, tla_id: &AccountId) -> (r: Result<(), ContractError>)
        ensures
            if old(self).business_count(*tla_id) >= old(self).business_cap(*tla_id) {
                r == Err::<(), _>(ContractError::MaxBusinessSubsReached) && *final(self) == *old(self)
            } else {
                &&& r is Ok
                &&& final(self).business_sub_count@ == old(self).business_sub_count@.insert(
                    *tla_id,
                    (old(self).business_count(*tla_id) + 1) as u32,
                )
                &&& *final(self) == (TlaRegistry { business_sub_count: final(self).business_sub_count, ..*old(self) })
            },
    {
        let cap: u32 = self.effective_business_cap(tla_id);
        let count: u32 = self.get_business_sub_count(*tla_id);
        if count >= cap {
            return Err(ContractError::MaxBusinessSubsReached);
        }
        self.business_sub_count.insert(*tla_id, count + 1);
        Ok(())
    }

    pub(crate) fn business_count_decrement(&mut self, tla_id: &AccountId)
        ensures
            final(self).business_sub_count@ == count_less(old(self).business_sub_count@, *tla_id),
            *final(self) == (TlaRegistry { business_sub_count: final(self).business_sub_count, ..*old(self) }),
    {
        let count: u32 = self.get_business_sub_count(*tla_id);
        if count == 0 {
            return;
        }
        let next: u32 = count - 1;
        if next == 0 {
            self.business_sub_count.remove(tla_id);
        } else {
            self.business_sub_count.insert(*tla_id, next);
        }
    }

    pub(crate) fn business_count_decrement_if_business(&mut self, tla_id: &AccountId)
        ensures
            final(self).business_sub_count@ == (if old(self).is_business(*tla_id) {
                count_less(old(self).business_sub_count@, *tla_id)
            } else {
                old(self).business_sub_count@
            }),
            *final(self) == (TlaRegistry { business_sub_count: final(self).business_sub_count, ..*old(self) }),
    {
        let is_business = match self.tlas.get(tla_id) {
            Some(tla) => tla.tla_type == TlaType::Business,
            None => false,
        };
        if is_business {
            self.business_count_decrement(tla_id);
        }
    }

    pub fn get_business_sub_cap(&self, tla_id: AccountId) -> (r: u32)
        ensures
            r == self.business_cap(tla_id),
    {
        self.effective_business_cap(&tla_id)
    }

    // ---- retraction ---------------------------------------------------------------------------

    pub open spec fn schedule_refusal(self, env: Env, tla_id: AccountId, name: Seq<char>) -> Option<ContractError> {
        let key = crate::account::named_account_of(tla_id, name);
        if env.deposit != 1 {
            Some(ContractError::RequiresOneYocto)
        } else if self.paused_at(env.now) {
            Some(ContractError::Paused)
        } else if crate::types::name_refusal(name) is Some {
            crate::types::name_refusal(name)
        } else if !self.tlas@.has(tla_id) {
            Some(ContractError::TlaNotFound)
        } else if !(self.tlas@[tla_id].tla_type is Business) {
            Some(ContractError::NotBusinessTla)
        } else if self.tlas@[tla_id].licensee != Some(env.predecessor) {
            Some(ContractError::OnlyLicensee)
        } else if key is None || !self.sub_accounts@.has(key->0) {
            Some(ContractError::SubAccountNotFound)
        } else if self.sub_accounts@[key->0].retraction_at is Some {
            Some(ContractError::RetractionAlreadyScheduled)
        } else {
            None
        }
    }

    /// A licensee gives notice that a name ends early. The wallet is told when.
    pub fn schedule_retraction(&mut self, env: &Env, tla_id: AccountId, name: String) -> (r: Result<
        Reply<Dispatch>,
        ContractError,
    >)
        ensures
            match old(self).schedule_refusal(*env, tla_id, name@) {
                Some(e) => r == Err::<Reply<Dispatch>, _>(e) && *final(self) == *old(self),
                None => {
                    let key = crate::account::sub_account_id(tla_id, name@);
                    &&& r matches Ok(reply)
                    &&& reply.events@ == Seq::<Event>::empty()
                    &&& reply.value == crate::rental::retract_dispatch(
                        old(self).hos_extension,
                        key,
                        crate::common::capped_u64(env.now + old(self).fee_config.retraction_notice_ns),
                        crate::host::Callback::RetractionScheduled { full_name: key, by: env.predecessor },
                    )
                    &&& final(self).sub_accounts@ == old(self).sub_accounts@.insert(
                        key,
                        (SubAccountEntry { retraction_at: Some(env.now), ..old(self).sub_accounts@[key] }),
                    )
                    &&& *final(self) == (TlaRegistry { sub_accounts: final(self).sub_accounts, ..*old(self) })
                },
            },
    {
        assert_one_yocto(env)?;
        self.assert_not_paused(env)?;
        validate_name(name.as_str())?;
        let caller = env.predecessor;
        let now: u64 = env.now;
        let tla = match self.tlas.get(&tla_id) {
            Some(tla) => *tla,
            None => {
                return Err(ContractError::TlaNotFound);
            },
        };
        if tla.tla_type != TlaType::Business {
            return Err(ContractError::NotBusinessTla);
        }
        if tla.licensee != Some(caller) {
            return Err(ContractError::OnlyLicensee);
        }
        let key = match named_account(&tla_id, name.as_str()) {
            Some(key) => key,
            None => {
                return Err(ContractError::SubAccountNotFound);
            },
        };
        let sub = match self.sub_accounts.get(&key) {
            Some(sub) => *sub,
            None => {
                return Err(ContractError::SubAccountNotFound);
            },
        };
        if sub.retraction_at.is_some() {
            return Err(ContractError::RetractionAlreadyScheduled);
        }
        self.sub_accounts.insert(key, SubAccountEntry { retraction_at: Some(now), ..sub });
        let ends_at: u64 = now.saturating_add(self.fee_config.retraction_notice_ns);
        Ok(quiet(retract_wallet_lease_pending(&self.hos_extension, key, ends_at, caller)))
    }

    pub open spec fn cancel_refusal(self, env: Env, tla_id: AccountId, name: Seq<char>) -> Option<ContractError> {
        let key = crate::account::named_account_of(tla_id, name);
        let sub = self.sub_accounts@[key->0];
        if env.deposit != 1 {
            Some(ContractError::RequiresOneYocto)
        } else if self.paused_at(env.now) {
            Some(ContractError::Paused)
        } else if crate::types::name_refusal(name) is Some {
            crate::types::name_refusal(name)
        } else if !self.tlas@.has(tla_id) {
            Some(ContractError::TlaNotFound)
        } else if key is None || !self.sub_accounts@.has(key->0) {
            Some(ContractError::SubAccountNotFound)
        } else if self.tlas@[tla_id].licensee != Some(env.predecessor) {
            Some(ContractError::OnlyLicensee)
        } else if sub.retraction_at is None {
            Some(ContractError::NoRetractionScheduled)
        } else if env.now >= crate::common::capped_u64(sub.retraction_at->0 + self.fee_config.retraction_notice_ns) {
            Some(ContractError::RetractionAlreadyElapsed)
        } else {
            None
        }
    }

    /// A licensee takes a notice back while it runs. The row follows once the wallet has.
    pub fn cancel_retraction(&mut self, env: &Env, tla_id: AccountId, name: String) -> (r: Result<
        Reply<Dispatch>,
        ContractError,
    >)
        ensures
            *final(self) == *old(self),
            match old(self).cancel_refusal(*env, tla_id, name@) {
                Some(e) => r == Err::<Reply<Dispatch>, _>(e),
                None => {
                    let key = crate::account::sub_account_id(tla_id, name@);
                    &&& r matches Ok(reply)
                    &&& reply.events@ == Seq::<Event>::empty()
                    &&& reply.value == crate::rental::restore_dispatch(
                        old(self).hos_extension,
                        key,
                        old(self).sub_accounts@[key].expires_at,
                        crate::host::Callback::RetractionCanceled { full_name: key, by: env.predecessor },
                    )
                },
            },
    {
        assert_one_yocto(env)?;
        self.assert_not_paused(env)?;
        validate_name(name.as_str())?;
        let caller = env.predecessor;
        let notice: u64 = self.fee_config.retraction_notice_ns;
        let tla = match self.tlas.get(&tla_id) {
            Some(tla) => *tla,
            None => {
                return Err(ContractError::TlaNotFound);
            },
        };
        let key = match named_account(&tla_id, name.as_str()) {
            Some(key) => key,
            None => {
                return Err(ContractError::SubAccountNotFound);
            },
        };
        let sub = match self.sub_accounts.get(&key) {
            Some(sub) => *sub,
            None => {
                return Err(ContractError::SubAccountNotFound);
            },
        };
        if tla.licensee != Some(caller) {
            return Err(ContractError::OnlyLicensee);
        }
        let retraction_at: u64 = match sub.retraction_at {
            Some(at) => at,
            None => {
                return Err(ContractError::NoRetractionScheduled);
            },
        };
        if env.now >= retraction_at.saturating_add(notice) {
            return Err(ContractError::RetractionAlreadyElapsed);
        }
        Ok(quiet(restore_wallet_lease(&self.hos_extension, key, sub.expires_at, caller)))
    }

    /// The row without its notice.
    pub open spec fn notice_dropped(self, before: TlaRegistry, key: AccountId) -> bool {
        &&& self.sub_accounts@ == (if before.sub_accounts@.has(key) {
            before.sub_accounts@.insert(
                key,
                (SubAccountEntry { retraction_at: None, ..before.sub_accounts@[key] }),
            )
        } else {
            before.sub_accounts@
        })
        &&& self == (TlaRegistry { sub_accounts: self.sub_accounts, ..before })
    }

    fn drop_notice(&mut self, key: &AccountId)
        ensures
            final(self).notice_dropped(*old(self), *key),
    {
        if let Some(sub) = self.sub_accounts.get(key) {
            let row = SubAccountEntry { retraction_at: None, ..*sub };
            self.sub_accounts.insert(*key, row);
        }
    }

    /// A notice that the wallet did not take is dropped again.
    pub fn on_retraction_scheduled(&mut self, key: AccountId, by: AccountId, success: bool) -> (r: Vec<Event>)
        ensures
            if success {
                &&& *final(self) == *old(self)
                &&& r@ == (if old(self).sub_accounts@.has(key) && old(self).sub_accounts@[key].retraction_at is Some {
                    seq![
                        Event::SubAccountRetractionScheduled {
                            full_name: key,
                            retraction_at: old(self).sub_accounts@[key].retraction_at->0,
                            by,
                        },
                    ]
                } else {
                    Seq::<Event>::empty()
                })
            } else {
                &&& final(self).notice_dropped(*old(self), key)
                &&& r@ == seq![Event::LeaseSyncFailed { full_name: key, intent: LeaseIntent::Retract }]
            },
    {
        if success {
            let scheduled_at: Option<u64> = match self.sub_accounts.get(&key) {
                Some(sub) => sub.retraction_at,
                None => None,
            };
            return match scheduled_at {
                Some(at) => logged(
                    (),
                    Event::SubAccountRetractionScheduled { full_name: key, retraction_at: at, by },
                ).events,
                None => Vec::new(),
            };
        }
        self.drop_notice(&key);
        logged((), Event::LeaseSyncFailed { full_name: key, intent: LeaseIntent::Retract }).events
    }

    /// The notice is dropped once the wallet has its lease back.
    pub fn on_retraction_canceled(&mut self, key: AccountId, by: AccountId, success: bool) -> (r: Vec<Event>)
        ensures
            if success {
                &&& final(self).notice_dropped(*old(self), key)
                &&& r@ == seq![Event::SubAccountRetractionCanceled { full_name: key, by }]
            } else {
                &&& *final(self) == *old(self)
                &&& r@ == seq![Event::LeaseSyncFailed { full_name: key, intent: LeaseIntent::Restore }]
            },
    {
        if !success {
            return logged((), Event::LeaseSyncFailed { full_name: key, intent: LeaseIntent::Restore }).events;
        }
        self.drop_notice(&key);
        logged((), Event::SubAccountRetractionCanceled { full_name: key, by }).events
    }

    pub fn get_retraction_at(&self, tla_id: AccountId, name: String) -> (r: Option<u64>)
        ensures
            r == (match crate::account::named_account_of(tla_id, name@) {
                Some(key) => if self.sub_accounts@.has(key) {
                    self.sub_accounts@[key].retraction_at
                } else {
                    None
                },
                None => None,
            }),
    {
        match named_account(&tla_id, name.as_str()) {
            Some(key) => match self.sub_accounts.get(&key) {
                Some(sub) => sub.retraction_at,
                None => None,
            },
            None => None,
        }
    }

    // ---- terms and caps -----------------------------------------------------------------------

    pub open spec fn terms_refusal(self, env: Env, tla_id: AccountId, terms: TlaTerms) -> Option<ContractError> {
        if crate::registry::council_refusal(env, self.council) is Some {
            crate::registry::council_refusal(env, self.council)
        } else if !self.tlas@.has(tla_id) {
            Some(ContractError::TlaNotFound)
        } else if terms.sub_fee_usd_micro is Some && !(self.tlas@[tla_id].tla_type is Business) {
            Some(ContractError::NotBusinessTla)
        } else if over_cap(terms.allocation_fee_usd_micro) || over_cap(terms.tla_rent_usd_micro) || over_cap(
            terms.sub_fee_usd_micro,
        ) {
            Some(ContractError::FeeExceedsCap)
        } else {
            None
        }
    }

    /// Records what was agreed for an account; terms that are the standard ones are forgotten.
    pub fn set_tla_terms(&mut self, env: &Env, tla_id: AccountId, terms: TlaTerms) -> (r: Result<
        Reply<()>,
        ContractError,
    >)
        ensures
            match old(self).terms_refusal(*env, tla_id, terms) {
                Some(e) => r == Err::<Reply<()>, _>(e) && *final(self) == *old(self),
                None => {
                    &&& r matches Ok(reply)
                    &&& reply.events@ == seq![
                        Event::TlaTermsSet {
                            tla_id,
                            allocation_fee_usd_micro: terms.allocation_fee_usd_micro,
                            tla_rent_usd_micro: terms.tla_rent_usd_micro,
                            sub_fee_usd_micro: terms.sub_fee_usd_micro,
                            by: env.predecessor,
                        },
                    ]
                    &&& final(self).tla_terms@ == (if terms == TlaTerms::standard() {
                        old(self).tla_terms@.remove(tla_id)
                    } else {
                        old(self).tla_terms@.insert(tla_id, terms)
                    })
                    &&& *final(self) == (TlaRegistry { tla_terms: final(self).tla_terms, ..*old(self) })
                },
            },
    {
        assert_one_yocto(env)?;
        self.assert_council(env)?;
        let tla = match self.tlas.get(&tla_id) {
            Some(tla) => *tla,
            None => {
                return Err(ContractError::TlaNotFound);
            },
        };
        if terms.sub_fee_usd_micro.is_some() && tla.tla_type != TlaType::Business {
            return Err(ContractError::NotBusinessTla);
        }
        if exceeds_cap(terms.allocation_fee_usd_micro) || exceeds_cap(terms.tla_rent_usd_micro) || exceeds_cap(
            terms.sub_fee_usd_micro,
        ) {
            return Err(ContractError::FeeExceedsCap);
        }
        if terms.is_standard() {
            self.tla_terms.remove(&tla_id);
        } else {
            self.tla_terms.insert(tla_id, terms);
        }
        Ok(
            logged(
                (),
                Event::TlaTermsSet {
                    tla_id,
                    allocation_fee_usd_micro: terms.allocation_fee_usd_micro,
                    tla_rent_usd_micro: terms.tla_rent_usd_micro,
                    sub_fee_usd_micro: terms.sub_fee_usd_micro,
                    by: env.predecessor,
                },
            ),
        )
    }

    pub fn get_tla_terms(&self, tla_id: AccountId) -> (r: TlaTerms)
        ensures
            r == self.terms_of(tla_id),
    {
        self.terms_for(&tla_id)
    }

    pub fn set_business_sub_cap(&mut self, env: &Env, tla_id: AccountId, cap: Option<u32>) -> (r: Result<
        Reply<()>,
        ContractError,
    >)
        ensures
            ({
                let refusal = if crate::registry::council_refusal(*env, old(self).council) is Some {
                    crate::registry::council_refusal(*env, old(self).council)
                } else if !old(self).tlas@.has(tla_id) {
                    Some(ContractError::TlaNotFound)
                } else if !old(self).is_business(tla_id) {
                    Some(ContractError::NotBusinessTla)
                } else {
                    None
                };
                match refusal {
                    Some(e) => r == Err::<Reply<()>, _>(e) && *final(self) == *old(self),
                    None => {
                        &&& r matches Ok(reply)
                        &&& reply.events@ == seq![Event::BusinessSubCapSet { tla_id, cap, by: env.predecessor }]
                        &&& final(self).business_sub_cap_override@ == (match cap {
                            Some(value) => old(self).business_sub_cap_override@.insert(tla_id, value),
                            None => old(self).business_sub_cap_override@.remove(tla_id),
                        })
                        &&& *final(self) == (TlaRegistry {
                            business_sub_cap_override: final(self).business_sub_cap_override,
                            ..*old(self)
                        })
                    },
                }
            }),
    {
        assert_one_yocto(env)?;
        self.assert_council(env)?;
        match self.tlas.get(&tla_id) {
            Some(tla) => {
                if tla.tla_type != TlaType::Business {
                    return Err(ContractError::NotBusinessTla);
                }
            },
            None => {
                return Err(ContractError::TlaNotFound);
            },
        }
        match cap {
            Some(value) => {
                self.business_sub_cap_override.insert(tla_id, value);
            },
            None => {
                self.business_sub_cap_override.remove(&tla_id);
            },
        }
        Ok(logged((), Event::BusinessSubCapSet { tla_id, cap, by: env.predecessor }))
    }

    /// What renewing a business account is quoted at.
    pub fn get_business_renewal_cost(&self, env: &Env, tla_id: AccountId) -> (r: Result<
        BusinessRenewalCostView,
        ContractError,
    >)
        requires
            self.wf(),
        ensures
            ({
                let usd = crate::fees::tier_rent(tla_id@.len() as int, self.fee_config);
                let refusal = if !self.tlas@.has(tla_id) {
                    Some(ContractError::TlaNotFound)
                } else if !self.is_business(tla_id) {
                    Some(ContractError::NotBusinessTla)
                } else {
                    self.price_refusal(env.now, usd)
                };
                match refusal {
                    Some(e) => r == Err::<BusinessRenewalCostView, _>(e),
                    None => r == Ok::<_, ContractError>(
                        BusinessRenewalCostView { tla_id, tla_rent_yocto: self.quote_of(usd) },
                    ),
                }
            }),
    {
        match self.tlas.get(&tla_id) {
            Some(tla) => {
                if tla.tla_type != TlaType::Business {
                    return Err(ContractError::NotBusinessTla);
                }
            },
            None => {
                return Err(ContractError::TlaNotFound);
            },
        }
        let tla_len: u8 = tla_id.text_len() as u8;
        let tla_rent_yocto: u128 = self.quote_usd_to_near(env, base_rent(tla_len, &self.fee_config))?;
        Ok(BusinessRenewalCostView { tla_id, tla_rent_yocto })
    }
}

pub open spec fn over_cap(fee: Option<u128>) -> bool {
    fee is Some && fee->0 > MAX_USD_MICRO
}

fn exceeds_cap(fee: Option<u128>) -> (r: bool)
    ensures
        r == over_cap(fee),
{
    match fee {
        Some(fee) => fee > MAX_USD_MICRO,
        None => false,
    }
}

} // verus!
