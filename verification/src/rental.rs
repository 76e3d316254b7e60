//! Renting and renewing.
use vstd::prelude::*;

use crate::account::{named_account, AccountId, FullName};
use crate::asset_gate::{ft_balance_fanout, ft_balances_clear, BalanceGate, FT_BALANCE_TGAS};
use crate::common::{later, OperatingState, PromiseError, RotationCause};
use crate::error::ContractError;
use crate::events::{Event, LeaseIntent, RefundReason};
use crate::fees::{base_rent, calculate_rent};
use crate::host::{logged, quiet, Call, Callback, Dispatch, Env, MintSettlement, PendingReRent, PromiseOrValue, Reply};
use crate::registry::{assert_one_yocto, TlaRegistry};
use crate::types::{
    validate_mintable_name, validate_name, LifecycleStatus, PaidOrderState, SubAccountEntry,
    TlaEntry, TlaStatus, TlaTerms, TlaType, ONE_YEAR_NS,
};

verus! {

pub const CREATE_TGAS: u64 = 90;

pub const SET_PAYOUT_TGAS: u64 = 30;

pub const SET_PAYOUT_CB_TGAS: u64 = 10;

pub const CALLBACK_TGAS: u64 = 15;

pub const RERENT_FORCE_TGAS: u64 = 45;

pub const PUSH_LEASE_TGAS: u64 = 20;

pub const LEASE_CB_TGAS: u64 = 10;

pub const RERENT_BALANCES_CB_TGAS: u64 = 85;

/// The longest order id, in bytes.
pub const MAX_ORDER_ID_LEN: usize = 64;

/// An authority with this many mints left or fewer is reported.
pub const LOW_ALLOWANCE: u64 = 10;

/// The balance gate asks every allowlisted token before a re-rent goes on, and one call funds that.
pub proof fn re_rent_gate_fits_one_call()
    ensures
        crate::admin::MAX_ALLOWLIST_SIZE * FT_BALANCE_TGAS + RERENT_BALANCES_CB_TGAS + 20 <= 300,
{
}

/// The mints used once `payer` gets one back under `tla_id`.
pub open spec fn mint_returned(
    mints: crate::ordered::OrderedView<(AccountId, AccountId), u64>,
    payer: AccountId,
    tla_id: AccountId,
) -> crate::ordered::OrderedView<(AccountId, AccountId), u64> {
    if !mints.has((payer, tla_id)) {
        mints
    } else if mints[(payer, tla_id)] <= 1 {
        mints.remove((payer, tla_id))
    } else {
        mints.insert((payer, tla_id), (mints[(payer, tla_id)] - 1) as u64)
    }
}

/// The yearly price of a top level account: as agreed, else by the length of its name.
pub open spec fn tla_rent_of(tla_id: AccountId, config: crate::types::FeeConfig, terms: TlaTerms) -> u128 {
    match terms.tla_rent_usd_micro {
        Some(rent) => rent,
        None => crate::fees::tier_rent(tla_id@.len() as int, config),
    }
}

/// What activating a business account costs: the allocation fee and the first year.
pub open spec fn activation_price(tla_id: AccountId, config: crate::types::FeeConfig, terms: TlaTerms) -> u128 {
    let fee = match terms.allocation_fee_usd_micro {
        Some(fee) => fee,
        None => config.tla_allocation_fee_usd_micro,
    };
    crate::common::capped_u128(fee + tla_rent_of(tla_id, config, terms))
}

/// The rotation that hands a parked wallet to its new renter.
pub open spec fn re_rent_rotation(hos_extension: AccountId, pending: PendingReRent) -> Dispatch {
    Dispatch {
        call: Call::ForceTransfer {
            extension: hos_extension,
            wallet: pending.sub_account,
            new_owner: Some(pending.owner),
            cause: RotationCause::ReRent,
            expected: None,
        },
        tgas: RERENT_FORCE_TGAS,
        deposit: 0,
        callback: Callback::SubAccountReRented(
            MintSettlement {
                tla_id: pending.tla_id,
                name: pending.name,
                owner: pending.owner,
                payer: pending.payer,
                rent_yocto: pending.rent,
                attached_yocto: pending.attached,
                order_id: pending.order_id,
            },
        ),
        callback_tgas: CALLBACK_TGAS,
    }
}

/// The balance queries that a gated step starts with.
pub open spec fn asks_balances(d: Dispatch, tokens: Seq<AccountId>, account: AccountId, callback: Callback, callback_tgas: u64) -> bool {
    &&& d.call matches Call::FtBalances { tokens: asked, account: of }
    &&& asked@ == tokens
    &&& of == account
    &&& d.tgas == FT_BALANCE_TGAS
    &&& d.deposit == 0
    &&& d.callback == callback
    &&& d.callback_tgas == callback_tgas
}

/// How a re-rent starts: with the balance queries, or at once where no token is gated.
pub open spec fn starts_re_rent(d: Dispatch, registry: TlaRegistry, pending: PendingReRent) -> bool {
    if registry.ft_allowlist@.len() == 0 {
        d == re_rent_rotation(registry.hos_extension, pending)
    } else {
        asks_balances(
            d,
            registry.ft_allowlist@.keys,
            pending.sub_account,
            Callback::ReRentBalancesChecked(pending),
            RERENT_BALANCES_CB_TGAS,
        )
    }
}

pub open spec fn retract_dispatch(hos_extension: AccountId, wallet: AccountId, ends_at: u64, callback: Callback) -> Dispatch {
    Dispatch {
        call: Call::RetractLease { extension: hos_extension, wallet, ends_at },
        tgas: PUSH_LEASE_TGAS,
        deposit: 0,
        callback,
        callback_tgas: LEASE_CB_TGAS,
    }
}

pub open spec fn restore_dispatch(hos_extension: AccountId, wallet: AccountId, lease_until_ns: u64, callback: Callback) -> Dispatch {
    Dispatch {
        call: Call::RestoreLease { extension: hos_extension, wallet, lease_until_ns },
        tgas: PUSH_LEASE_TGAS,
        deposit: 0,
        callback,
        callback_tgas: LEASE_CB_TGAS,
    }
}

pub(crate) fn retract_wallet_lease(hos_extension: &AccountId, wallet: AccountId, ends_at: u64) -> (r: Dispatch)
    ensures
        r == retract_dispatch(
            *hos_extension,
            wallet,
            ends_at,
            Callback::LeaseSynced { full_name: wallet, intent: LeaseIntent::Retract },
        ),
{
    Dispatch {
        call: Call::RetractLease { extension: *hos_extension, wallet, ends_at },
        tgas: PUSH_LEASE_TGAS,
        deposit: 0,
        callback: Callback::LeaseSynced { full_name: wallet, intent: LeaseIntent::Retract },
        callback_tgas: LEASE_CB_TGAS,
    }
}

pub(crate) fn retract_wallet_lease_pending(hos_extension: &AccountId, wallet: AccountId, ends_at: u64, by: AccountId) -> (r: Dispatch)
    ensures
        r == retract_dispatch(
            *hos_extension,
            wallet,
            ends_at,
            Callback::RetractionScheduled { full_name: wallet, by },
        ),
{
    Dispatch {
        call: Call::RetractLease { extension: *hos_extension, wallet, ends_at },
        tgas: PUSH_LEASE_TGAS,
        deposit: 0,
        callback: Callback::RetractionScheduled { full_name: wallet, by },
        callback_tgas: LEASE_CB_TGAS,
    }
}

pub(crate) fn restore_wallet_lease(hos_extension: &AccountId, wallet: AccountId, lease_until_ns: u64, by: AccountId) -> (r: Dispatch)
    ensures
        r == restore_dispatch(
            *hos_extension,
            wallet,
            lease_until_ns,
            Callback::RetractionCanceled { full_name: wallet, by },
        ),
{
    Dispatch {
        call: Call::RestoreLease { extension: *hos_extension, wallet, lease_until_ns },
        tgas: PUSH_LEASE_TGAS,
        deposit: 0,
        callback: Callback::RetractionCanceled { full_name: wallet, by },
        callback_tgas: LEASE_CB_TGAS,
    }
}

fn re_rent_transfer(hos_extension: &AccountId, pending: PendingReRent) -> (r: Dispatch)
    ensures
        r == re_rent_rotation(*hos_extension, pending),
{
    let PendingReRent { tla_id, name, owner, payer, payout_account, rent, attached, sub_account, order_id } = pending;
    Dispatch {
        call: Call::ForceTransfer {
            extension: *hos_extension,
            wallet: sub_account,
            new_owner: Some(owner),
            cause: RotationCause::ReRent,
            expected: None,
        },
        tgas: RERENT_FORCE_TGAS,
        deposit: 0,
        callback: Callback::SubAccountReRented(
            MintSettlement { tla_id, name, owner, payer, rent_yocto: rent, attached_yocto: attached, order_id },
        ),
        callback_tgas: CALLBACK_TGAS,
    }
}

impl TlaRegistry {
    /// What was agreed for a top level account; the standard terms where nothing was.
    pub open spec fn terms_of(self, tla_id: AccountId) -> TlaTerms {
        if self.tla_terms@.has(tla_id) {
            self.tla_terms@[tla_id]
        } else {
            TlaTerms::standard()
        }
    }

    pub(crate) fn terms_for(&self, tla_id: &AccountId) -> (r: TlaTerms)
        ensures
            r == self.terms_of(*tla_id),
    {
        match self.tla_terms.get(tla_id) {
            Some(terms) => *terms,
            None => TlaTerms { allocation_fee_usd_micro: None, tla_rent_usd_micro: None, sub_fee_usd_micro: None },
        }
    }

    fn tla_rent_usd(&self, tla_id: &AccountId) -> (r: u128)
        ensures
            r == tla_rent_of(*tla_id, self.fee_config, self.terms_of(*tla_id)),
    {
        let terms = self.terms_for(tla_id);
        match terms.tla_rent_usd_micro {
            Some(rent) => rent,
            None => base_rent(tla_id.text_len() as u8, &self.fee_config),
        }
    }

    // ---- top level accounts -------------------------------------------------------------------

    pub open spec fn activate_tla_refusal(self, env: Env, tla_id: AccountId) -> Option<ContractError> {
        let usd = activation_price(tla_id, self.fee_config, self.terms_of(tla_id));
        if self.paused_at(env.now) {
            Some(ContractError::Paused)
        } else if self.price_refusal(env.now, usd) is Some {
            self.price_refusal(env.now, usd)
        } else if env.deposit < self.price_of(usd) {
            Some(ContractError::InsufficientPayment)
        } else if !self.tlas@.has(tla_id) {
            Some(ContractError::TlaNotFound)
        } else if !(self.tlas@[tla_id].status is Registered) {
            Some(ContractError::TlaNotInRegisteredState)
        } else if !(self.tlas@[tla_id].tla_type is Business) {
            Some(ContractError::WrongActivationEndpoint)
        } else if self.tlas@[tla_id].licensee is None {
            Some(ContractError::BusinessTlaMissingLicensee)
        } else if self.tlas@[tla_id].licensee != Some(env.predecessor) {
            Some(ContractError::OnlyLicensee)
        } else {
            None
        }
    }

    /// The licensee pays the allocation fee and the first year; what is beyond that is owed back.
    pub fn activate_tla(&mut self, env: &Env, tla_id: AccountId) -> (r: Result<Reply<()>, ContractError>)
        ensures
            match old(self).activate_tla_refusal(*env, tla_id) {
                Some(e) => r == Err::<Reply<()>, _>(e) && *final(self) == *old(self),
                None => {
                    let paid = old(self).price_of(
                        activation_price(tla_id, old(self).fee_config, old(self).terms_of(tla_id)),
                    );
                    let entry = crate::admin::activated(old(self).tlas@[tla_id], env.now);
                    &&& r matches Ok(reply)
                    &&& reply.events@ == seq![
                        Event::TlaActivated { tla_id, expires_at: entry.expires_at, paid_yocto: paid },
                    ]
                    &&& final(self).tlas@ == old(self).tlas@.insert(tla_id, entry)
                    &&& final(self).owes_excess(*old(self), env.predecessor, env.deposit, paid)
                    &&& *final(self) == (TlaRegistry {
                        tlas: final(self).tlas,
                        total_revenue: crate::common::capped_u128(old(self).total_revenue + paid),
                        pending_refunds: final(self).pending_refunds,
                        total_pending_refunds: final(self).total_pending_refunds,
                        ..*old(self)
                    })
                },
            },
    {
        self.assert_not_paused(env)?;
        let caller = env.predecessor;
        let terms = self.terms_for(&tla_id);
        let fee: u128 = match terms.allocation_fee_usd_micro {
            Some(fee) => fee,
            None => self.fee_config.tla_allocation_fee_usd_micro,
        };
        let rent_usd: u128 = self.tla_rent_usd(&tla_id);
        let required_usd: u128 = fee.saturating_add(rent_usd);
        let required_near: u128 = self.convert_usd_to_near(env, required_usd)?;
        if env.deposit < required_near {
            return Err(ContractError::InsufficientPayment);
        }
        let entry = match self.tlas.get(&tla_id) {
            Some(entry) => *entry,
            None => {
                return Err(ContractError::TlaNotFound);
            },
        };
        if entry.status != TlaStatus::Registered {
            return Err(ContractError::TlaNotInRegisteredState);
        }
        if entry.tla_type != TlaType::Business {
            return Err(ContractError::WrongActivationEndpoint);
        }
        let licensee = match entry.licensee {
            Some(licensee) => licensee,
            None => {
                return Err(ContractError::BusinessTlaMissingLicensee);
            },
        };
        if caller != licensee {
            return Err(ContractError::OnlyLicensee);
        }
        let expires_at: u64 = env.now.saturating_add(ONE_YEAR_NS);
        self.tlas.insert(
            tla_id,
            TlaEntry { status: TlaStatus::Active, activated_at: env.now, expires_at, ..entry },
        );
        self.total_revenue = self.total_revenue.saturating_add(required_near);
        self.refund_excess(&caller, env.deposit, required_near);
        Ok(logged((), Event::TlaActivated { tla_id, expires_at, paid_yocto: required_near }))
    }

    pub open spec fn renew_tla_refusal(self, env: Env, tla_id: AccountId) -> Option<ContractError> {
        let usd = tla_rent_of(tla_id, self.fee_config, self.terms_of(tla_id));
        let tla = self.tlas@[tla_id];
        if self.paused_at(env.now) {
            Some(ContractError::Paused)
        } else if self.price_refusal(env.now, usd) is Some {
            self.price_refusal(env.now, usd)
        } else if !self.tlas@.has(tla_id) {
            Some(ContractError::TlaNotFound)
        } else if !(tla.status is Active) {
            Some(ContractError::TlaNotActive)
        } else if env.now >= crate::common::capped_u64(tla.expires_at + self.grace_period_ns) {
            Some(ContractError::TlaPastGracePeriod)
        } else if tla.tla_type is Business && tla.licensee is None {
            Some(ContractError::BusinessTlaMissingLicensee)
        } else if tla.tla_type is Business && tla.licensee != Some(env.predecessor) {
            Some(ContractError::OnlyLicensee)
        } else if tla.tla_type is Open && !self.is_admin(env.predecessor) {
            Some(ContractError::OnlyAdmin)
        } else if env.deposit < self.price_of(usd) {
            Some(ContractError::InsufficientPayment)
        } else {
            None
        }
    }

    /// A year is added to the term, or to now where the term has run out.
    pub fn renew_tla(&mut self, env: &Env, tla_id: AccountId) -> (r: Result<Reply<()>, ContractError>)
        ensures
            match old(self).renew_tla_refusal(*env, tla_id) {
                Some(e) => r == Err::<Reply<()>, _>(e) && *final(self) == *old(self),
                None => {
                    let paid = old(self).price_of(
                        tla_rent_of(tla_id, old(self).fee_config, old(self).terms_of(tla_id)),
                    );
                    let tla = old(self).tlas@[tla_id];
                    let new_expires_at = crate::common::capped_u64(
                        crate::common::max_u64(env.now, tla.expires_at) + ONE_YEAR_NS,
                    );
                    &&& r matches Ok(reply)
                    &&& reply.events@ == seq![Event::TlaRenewed { tla_id, new_expires_at, paid_yocto: paid }]
                    &&& final(self).tlas@ == old(self).tlas@.insert(
                        tla_id,
                        (TlaEntry { expires_at: new_expires_at, ..tla }),
                    )
                    &&& final(self).owes_excess(*old(self), env.predecessor, env.deposit, paid)
                    &&& *final(self) == (TlaRegistry {
                        tlas: final(self).tlas,
                        total_revenue: crate::common::capped_u128(old(self).total_revenue + paid),
                        pending_refunds: final(self).pending_refunds,
                        total_pending_refunds: final(self).total_pending_refunds,
                        ..*old(self)
                    })
                },
            },
    {
        self.assert_not_paused(env)?;
        let caller = env.predecessor;
        let rent_near: u128 = self.convert_usd_to_near(env, self.tla_rent_usd(&tla_id))?;
        let now: u64 = env.now;
        let entry = match self.tlas.get(&tla_id) {
            Some(entry) => *entry,
            None => {
                return Err(ContractError::TlaNotFound);
            },
        };
        if entry.status != TlaStatus::Active {
            return Err(ContractError::TlaNotActive);
        }
        if now >= entry.expires_at.saturating_add(self.grace_period_ns) {
            return Err(ContractError::TlaPastGracePeriod);
        }
        if entry.tla_type == TlaType::Business {
            let licensee = match entry.licensee {
                Some(licensee) => licensee,
                None => {
                    return Err(ContractError::BusinessTlaMissingLicensee);
                },
            };
            if caller != licensee {
                return Err(ContractError::OnlyLicensee);
            }
        } else {
            self.assert_admin(env)?;
        }
        if env.deposit < rent_near {
            return Err(ContractError::InsufficientPayment);
        }
        let new_expires_at: u64 = later(now, entry.expires_at).saturating_add(ONE_YEAR_NS);
        self.tlas.insert(tla_id, TlaEntry { expires_at: new_expires_at, ..entry });
        self.total_revenue = self.total_revenue.saturating_add(rent_near);
        self.refund_excess(&caller, env.deposit, rent_near);
        Ok(logged((), Event::TlaRenewed { tla_id, new_expires_at, paid_yocto: rent_near }))
    }

    // ---- renting ------------------------------------------------------------------------------

    /// Who a rental is for: the payer, unless a payment authority names someone else.
    pub open spec fn rent_owner(self, env: Env, owner_account: Option<AccountId>) -> Result<AccountId, ContractError> {
        match owner_account {
            None => Ok(env.predecessor),
            Some(owner) => if owner == env.predecessor || self.payment_authorities@.has(env.predecessor) {
                Ok(owner)
            } else {
                Err(ContractError::OnlyPaymentAuthority)
            },
        }
    }

    fn resolve_rent_owner(&self, env: &Env, owner_account: Option<AccountId>) -> (r: Result<AccountId, ContractError>)
        ensures
            r == self.rent_owner(*env, owner_account),
    {
        match owner_account {
            None => Ok(env.predecessor),
            Some(owner) => {
                if owner == env.predecessor {
                    return Ok(owner);
                }
                self.assert_payment_authority(env)?;
                Ok(owner)
            },
        }
    }

    /// Why nothing can be rented under a top level account for `beneficiary`, if nothing can.
    pub open spec fn rental_refusal(self, now: u64, tla_id: AccountId, beneficiary: AccountId) -> Option<ContractError> {
        let tla = self.tlas@[tla_id];
        if !self.tlas@.has(tla_id) {
            Some(ContractError::TlaNotFound)
        } else if !tla.takes_rentals(self.suspension_of(tla_id), now) {
            Some(ContractError::TlaNotAcceptingRentals)
        } else if tla.tla_type is Business && tla.licensee is None {
            Some(ContractError::BusinessTlaMissingLicensee)
        } else if tla.tla_type is Business && tla.licensee != Some(beneficiary) {
            Some(ContractError::OnlyLicensee)
        } else {
            None
        }
    }

    /// The entry under which a rental may go ahead.
    fn rentable_tla(&self, env: &Env, tla_id: &AccountId, beneficiary: &AccountId) -> (r: Result<TlaEntry, ContractError>)
        ensures
            match self.rental_refusal(env.now, *tla_id, *beneficiary) {
                Some(e) => r == Err::<TlaEntry, _>(e),
                None => r == Ok::<_, ContractError>(self.tlas@[*tla_id]),
            },
    {
        let suspended_until: u64 = self.suspension_expiry(tla_id);
        let entry = match self.tlas.get(tla_id) {
            Some(entry) => *entry,
            None => {
                return Err(ContractError::TlaNotFound);
            },
        };
        if !entry.accepting_rentals(suspended_until, env.now) {
            return Err(ContractError::TlaNotAcceptingRentals);
        }
        if entry.tla_type == TlaType::Business {
            let licensee = match entry.licensee {
                Some(licensee) => licensee,
                None => {
                    return Err(ContractError::BusinessTlaMissingLicensee);
                },
            };
            if *beneficiary != licensee {
                return Err(ContractError::OnlyLicensee);
            }
        }
        Ok(entry)
    }

    /// What a name costs under an account, and whether that is a business account.
    fn quote_rent(&self, env: &Env, tla_id: &AccountId, name: &str, owner: &AccountId) -> (r: Result<
        (u128, bool),
        ContractError,
    >)
        ensures
            match self.rental_refusal(env.now, *tla_id, *owner) {
                Some(e) => r == Err::<(u128, bool), _>(e),
                None => r == Ok::<_, ContractError>(
                    (self.rent_usd(*tla_id, name@), self.tlas@[*tla_id].tla_type is Business),
                ),
            },
    {
        let entry = self.rentable_tla(env, tla_id, owner)?;
        let terms = self.terms_for(tla_id);
        Ok((calculate_rent(&entry, tla_id, name, &self.fee_config, &terms), entry.tla_type == TlaType::Business))
    }

    pub open spec fn rent_usd(self, tla_id: AccountId, name: Seq<char>) -> u128 {
        crate::fees::rent_of(self.tlas@[tla_id], name, self.fee_config, self.terms_of(tla_id))
    }

    /// Whether the name is parked.
    pub open spec fn parked(self, tla_id: AccountId, name: Seq<char>) -> bool {
        self.parked_names@.has(crate::account::sub_account_text(tla_id, name))
    }

    /// Whether the account of that name owns other names.
    pub open spec fn holds_names(self, key: AccountId) -> bool {
        self.sub_accounts_by_owner@.contains_key(key)
    }

    /// What a rental has to bring: the rent, and for a new account what its creation takes.
    pub open spec fn rent_due(self, tla_id: AccountId, name: Seq<char>, re_rent: bool) -> u128 {
        let price = self.price_of(self.rent_usd(tla_id, name));
        if re_rent {
            price
        } else {
            crate::common::capped_u128(price + self.fee_config.account_creation_deposit_yocto)
        }
    }

    pub open spec fn rent_refusal(self, env: Env, tla_id: AccountId, name: Seq<char>, owner_account: Option<AccountId>) -> Option<ContractError> {
        let key = crate::account::sub_account_id(tla_id, name);
        let owner = self.rent_owner(env, owner_account);
        if self.paused_at(env.now) {
            Some(ContractError::Paused)
        } else if crate::types::mint_name_refusal(tla_id, name) is Some {
            crate::types::mint_name_refusal(tla_id, name)
        } else if self.sub_accounts@.has(key) {
            Some(ContractError::SubAccountNameTaken)
        } else if self.parked(tla_id, name) && self.holds_names(key) {
            Some(ContractError::NameStillHoldsNames)
        } else if owner is Err {
            Some(owner->Err_0)
        } else if self.rental_refusal(env.now, tla_id, owner->Ok_0) is Some {
            self.rental_refusal(env.now, tla_id, owner->Ok_0)
        } else if self.price_refusal(env.now, self.rent_usd(tla_id, name)) is Some {
            self.price_refusal(env.now, self.rent_usd(tla_id, name))
        } else if env.deposit < self.rent_due(tla_id, name, self.parked(tla_id, name)) {
            Some(ContractError::InsufficientPayment)
        } else if self.is_business(tla_id) && self.business_count(tla_id) >= self.business_cap(tla_id) {
            Some(ContractError::MaxBusinessSubsReached)
        } else {
            None
        }
    }

    /// The row that a rental writes.
    pub open spec fn rental_row(self, now: u64, tla_id: AccountId, owner: AccountId, payout: AccountId) -> SubAccountEntry {
        SubAccountEntry {
            owner,
            tla_id,
            payout_account: payout,
            rented_at: now,
            expires_at: crate::common::capped_u64(now + self.lease_term_ns),
            retraction_at: None,
        }
    }

    /// The name has its row, stands in both indexes, and counts under a business account.
    pub open spec fn row_written(self, before: TlaRegistry, key: AccountId, row: SubAccountEntry) -> bool {
        &&& self.sub_accounts@ == before.sub_accounts@.insert(key, row)
        &&& self.sub_accounts_by_owner@ == crate::indexes::index_with(before.sub_accounts_by_owner@, row.owner, key)
        &&& self.sub_accounts_by_tla@ == crate::indexes::index_with(before.sub_accounts_by_tla@, row.tla_id, key)
        &&& self.business_sub_count@ == (if before.is_business(row.tla_id) {
            before.business_sub_count@.insert(row.tla_id, (before.business_count(row.tla_id) + 1) as u32)
        } else {
            before.business_sub_count@
        })
        &&& before.indexed() ==> self.indexed()
    }

    /// Rents a name for a term. The account is created, or rotated to its renter where the name is
    /// parked; the charge is settled when that has succeeded.
    pub fn rent_sub_account(
        &mut self,
        env: &Env,
        tla_id: AccountId,
        name: String,
        owner_account: Option<AccountId>,
    ) -> (r: Result<Reply<Dispatch>, ContractError>)
        ensures
            match old(self).rent_refusal(*env, tla_id, name@, owner_account) {
                Some(e) => r == Err::<Reply<Dispatch>, _>(e) && *final(self) == *old(self),
                None => {
                    let key = crate::account::sub_account_id(tla_id, name@);
                    let owner = old(self).rent_owner(*env, owner_account)->Ok_0;
                    let rent = old(self).price_of(old(self).rent_usd(tla_id, name@));
                    let row = old(self).rental_row(env.now, tla_id, owner, owner);
                    &&& r matches Ok(reply)
                    &&& reply.events@ == Seq::<Event>::empty()
                    &&& final(self).row_written(*old(self), key, row)
                    &&& *final(self) == (TlaRegistry {
                        sub_accounts: final(self).sub_accounts,
                        sub_accounts_by_owner: final(self).sub_accounts_by_owner,
                        sub_accounts_by_tla: final(self).sub_accounts_by_tla,
                        business_sub_count: final(self).business_sub_count,
                        ..*old(self)
                    })
                    &&& if old(self).parked(tla_id, name@) {
                        starts_re_rent(
                            reply.value,
                            *old(self),
                            PendingReRent {
                                tla_id,
                                name,
                                owner,
                                payer: env.predecessor,
                                payout_account: owner,
                                rent,
                                attached: env.deposit,
                                sub_account: key,
                                order_id: None,
                            },
                        )
                    } else {
                        reply.value == (Dispatch {
                            call: Call::CreateSubAccount {
                                registrar: tla_id,
                                name,
                                owner,
                                payout_account: owner,
                                lease_until_ns: row.expires_at,
                            },
                            tgas: CREATE_TGAS,
                            deposit: old(self).fee_config.account_creation_deposit_yocto,
                            callback: Callback::SubAccountCreated(
                                MintSettlement {
                                    tla_id,
                                    name,
                                    owner,
                                    payer: env.predecessor,
                                    rent_yocto: rent,
                                    attached_yocto: env.deposit,
                                    order_id: None,
                                },
                            ),
                            callback_tgas: CALLBACK_TGAS,
                        })
                    }
                },
            },
    {
        self.assert_not_paused(env)?;
        validate_mintable_name(&tla_id, name.as_str())?;
        let key = match named_account(&tla_id, name.as_str()) {
            Some(key) => key,
            None => {
                proof {
                    use_type_invariant(&tla_id);
                    crate::types::mintable_names_are_accounts(tla_id, name@);
                }
                return Err(ContractError::InvalidSubAccountId);
            },
        };
        if self.sub_accounts.contains_key(&key) {
            return Err(ContractError::SubAccountNameTaken);
        }
        let is_re_rent = self.parked_names.contains_key(&key.text());
        if is_re_rent && self.sub_accounts_by_owner.get(&key).is_some() {
            return Err(ContractError::NameStillHoldsNames);
        }
        let payer = env.predecessor;
        let owner = self.resolve_rent_owner(env, owner_account)?;
        let (rent_usd, is_business) = self.quote_rent(env, &tla_id, name.as_str(), &owner)?;
        let rent: u128 = self.convert_usd_to_near(env, rent_usd)?;
        let total: u128 = if is_re_rent {
            rent
        } else {
            rent.saturating_add(self.fee_config.account_creation_deposit_yocto)
        };
        if env.deposit < total {
            return Err(ContractError::InsufficientPayment);
        }
        if is_business {
            self.business_count_check_and_bump(&tla_id)?;
        }
        let lease_until_ns: u64 = env.now.saturating_add(self.lease_term_ns);
        self.sub_account_insert(
            key,
            SubAccountEntry {
                owner,
                tla_id,
                payout_account: owner,
                rented_at: env.now,
                expires_at: lease_until_ns,
                retraction_at: None,
            },
        );
        if is_re_rent {
            return Ok(
                quiet(
                    self.start_re_rent(
                        PendingReRent {
                            tla_id,
                            name,
                            owner,
                            payer,
                            payout_account: owner,
                            rent,
                            attached: env.deposit,
                            sub_account: key,
                            order_id: None,
                        },
                    ),
                ),
            );
        }
        let settled_name = name.clone();
        Ok(
            quiet(
                Dispatch {
                    call: Call::CreateSubAccount { registrar: tla_id, name, owner, payout_account: owner, lease_until_ns },
                    tgas: CREATE_TGAS,
                    deposit: self.fee_config.account_creation_deposit_yocto,
                    callback: Callback::SubAccountCreated(
                        MintSettlement {
                            tla_id,
                            name: settled_name,
                            owner,
                            payer,
                            rent_yocto: rent,
                            attached_yocto: env.deposit,
                            order_id: None,
                        },
                    ),
                    callback_tgas: CALLBACK_TGAS,
                },
            ),
        )
    }

    fn start_re_rent(&self, pending: PendingReRent) -> (r: Dispatch)
        ensures
            starts_re_rent(r, *self, pending),
    {
        match ft_balance_fanout(&self.ft_allowlist) {
            None => re_rent_transfer(&self.hos_extension, pending),
            Some(tokens) => Dispatch {
                call: Call::FtBalances { tokens, account: pending.sub_account },
                tgas: FT_BALANCE_TGAS,
                deposit: 0,
                callback: Callback::ReRentBalancesChecked(pending),
                callback_tgas: RERENT_BALANCES_CB_TGAS,
            },
        }
    }

    // ---- prepaid rentals ----------------------------------------------------------------------

    pub open spec fn paid_rent_refusal(
        self,
        env: Env,
        tla_id: AccountId,
        name: Seq<char>,
        payout_account: AccountId,
        order_id: Seq<char>,
    ) -> Option<ContractError> {
        let key = crate::account::sub_account_id(tla_id, name);
        let payer = env.predecessor;
        if self.paused_at(env.now) {
            Some(ContractError::Paused)
        } else if !self.payment_authorities@.has(payer) {
            Some(ContractError::OnlyPaymentAuthority)
        } else if crate::types::mint_name_refusal(tla_id, name) is Some {
            crate::types::mint_name_refusal(tla_id, name)
        } else if crate::types::byte_len(order_id) == 0 || crate::types::byte_len(order_id) > MAX_ORDER_ID_LEN {
            Some(ContractError::InvalidOrderId)
        } else if self.paid_order_ids@.has(order_id) {
            Some(ContractError::PaidOrderAlreadySettled)
        } else if self.sub_accounts@.has(key) {
            Some(ContractError::SubAccountNameTaken)
        } else if self.parked(tla_id, name) && self.holds_names(key) {
            Some(ContractError::NameStillHoldsNames)
        } else if payout_account == key {
            Some(ContractError::PayoutAccountEqualsSubAccount)
        } else if self.rental_refusal(env.now, tla_id, payout_account) is Some {
            self.rental_refusal(env.now, tla_id, payout_account)
        } else if !self.authority_allowances@.has((payer, tla_id)) {
            Some(ContractError::AuthorityNotBoundToTla)
        } else if self.mints_used(payer, tla_id) >= self.authority_allowances@[(payer, tla_id)] {
            Some(ContractError::AuthorityMintAllowanceSpent)
        } else if !self.parked(tla_id, name) && env.deposit < self.fee_config.account_creation_deposit_yocto {
            Some(ContractError::InsufficientPayment)
        } else if self.is_business(tla_id) && self.business_count(tla_id) >= self.business_cap(tla_id) {
            Some(ContractError::MaxBusinessSubsReached)
        } else {
            None
        }
    }

    /// Rents a name that was paid for elsewhere. The order is reserved until the mint answers, and
    /// each mint counts against what the authority was allowed under this account.
    pub fn rent_sub_account_paid(
        &mut self,
        env: &Env,
        tla_id: AccountId,
        name: String,
        owner_account: AccountId,
        payout_account: AccountId,
        order_id: String,
    ) -> (r: Result<Reply<Dispatch>, ContractError>)
        ensures
            match old(self).paid_rent_refusal(*env, tla_id, name@, payout_account, order_id@) {
                Some(e) => r == Err::<Reply<Dispatch>, _>(e) && *final(self) == *old(self),
                None => {
                    let key = crate::account::sub_account_id(tla_id, name@);
                    let payer = env.predecessor;
                    let row = old(self).rental_row(env.now, tla_id, owner_account, payout_account);
                    let used = (old(self).mints_used(payer, tla_id) + 1) as u64;
                    let remaining = (old(self).authority_allowances@[(payer, tla_id)] - used) as u64;
                    &&& r matches Ok(reply)
                    &&& reply.events@ == (if remaining <= LOW_ALLOWANCE {
                        seq![Event::PaymentAuthorityAllowanceLow { account: payer, tla_id, remaining }]
                    } else {
                        Seq::<Event>::empty()
                    })
                    &&& final(self).row_written(*old(self), key, row)
                    &&& final(self).authority_mints@ == old(self).authority_mints@.insert((payer, tla_id), used)
                    &&& final(self).paid_order_ids@ == old(self).paid_order_ids@.insert(
                        order_id@,
                        PaidOrderState::InFlight { full_name: key, tla_id, payer, started_at: env.now },
                    )
                    &&& *final(self) == (TlaRegistry {
                        sub_accounts: final(self).sub_accounts,
                        sub_accounts_by_owner: final(self).sub_accounts_by_owner,
                        sub_accounts_by_tla: final(self).sub_accounts_by_tla,
                        business_sub_count: final(self).business_sub_count,
                        authority_mints: final(self).authority_mints,
                        paid_order_ids: final(self).paid_order_ids,
                        ..*old(self)
                    })
                    &&& if old(self).parked(tla_id, name@) {
                        starts_re_rent(
                            reply.value,
                            *old(self),
                            PendingReRent {
                                tla_id,
                                name,
                                owner: owner_account,
                                payer,
                                payout_account,
                                rent: 0,
                                attached: env.deposit,
                                sub_account: key,
                                order_id: Some(order_id),
                            },
                        )
                    } else {
                        reply.value == (Dispatch {
                            call: Call::CreateSubAccount {
                                registrar: tla_id,
                                name,
                                owner: owner_account,
                                payout_account,
                                lease_until_ns: row.expires_at,
                            },
                            tgas: CREATE_TGAS,
                            deposit: old(self).fee_config.account_creation_deposit_yocto,
                            callback: Callback::SubAccountCreatedPaid(
                                MintSettlement {
                                    tla_id,
                                    name,
                                    owner: owner_account,
                                    payer,
                                    rent_yocto: 0,
                                    attached_yocto: env.deposit,
                                    order_id: Some(order_id),
                                },
                            ),
                            callback_tgas: CALLBACK_TGAS,
                        })
                    }
                },
            },
    {
        self.assert_not_paused(env)?;
        let payer = self.assert_payment_authority(env)?;
        validate_mintable_name(&tla_id, name.as_str())?;
        let order_len: usize = order_id.as_str().as_bytes().len();
        if order_len == 0 || order_len > MAX_ORDER_ID_LEN {
            return Err(ContractError::InvalidOrderId);
        }
        if self.paid_order_ids.contains_key(&order_id) {
            return Err(ContractError::PaidOrderAlreadySettled);
        }
        let key = match named_account(&tla_id, name.as_str()) {
            Some(key) => key,
            None => {
                proof {
                    use_type_invariant(&tla_id);
                    crate::types::mintable_names_are_accounts(tla_id, name@);
                }
                return Err(ContractError::InvalidSubAccountId);
            },
        };
        if self.sub_accounts.contains_key(&key) {
            return Err(ContractError::SubAccountNameTaken);
        }
        let is_re_rent = self.parked_names.contains_key(&key.text());
        if is_re_rent && self.sub_accounts_by_owner.get(&key).is_some() {
            return Err(ContractError::NameStillHoldsNames);
        }
        if payout_account == key {
            return Err(ContractError::PayoutAccountEqualsSubAccount);
        }
        let entry = self.rentable_tla(env, &tla_id, &payout_account)?;
        let allowance: u64 = match self.authority_allowances.get(&(payer, tla_id)) {
            Some(max) => *max,
            None => {
                return Err(ContractError::AuthorityNotBoundToTla);
            },
        };
        let used: u64 = self.payment_authority_used(payer, tla_id);
        if used >= allowance {
            return Err(ContractError::AuthorityMintAllowanceSpent);
        }
        let creation_deposit: u128 = self.fee_config.account_creation_deposit_yocto;
        if !is_re_rent && env.deposit < creation_deposit {
            return Err(ContractError::InsufficientPayment);
        }
        if entry.tla_type == TlaType::Business {
            self.business_count_check_and_bump(&tla_id)?;
        }
        let lease_until_ns: u64 = env.now.saturating_add(self.lease_term_ns);
        self.sub_account_insert(
            key,
            SubAccountEntry {
                owner: owner_account,
                tla_id,
                payout_account,
                rented_at: env.now,
                expires_at: lease_until_ns,
                retraction_at: None,
            },
        );
        self.authority_mints.insert((payer, tla_id), used + 1);
        self.paid_order_ids.insert(
            order_id.clone(),
            PaidOrderState::InFlight { full_name: key, tla_id, payer, started_at: env.now },
        );
        let mut events: Vec<Event> = Vec::new();
        let remaining: u64 = allowance - (used + 1);
        if remaining <= LOW_ALLOWANCE {
            events.push(Event::PaymentAuthorityAllowanceLow { account: payer, tla_id, remaining });
            assert(events@ =~= seq![Event::PaymentAuthorityAllowanceLow { account: payer, tla_id, remaining }]);
        }
        let value = if is_re_rent {
            self.start_re_rent(
                PendingReRent {
                    tla_id,
                    name,
                    owner: owner_account,
                    payer,
                    payout_account,
                    rent: 0,
                    attached: env.deposit,
                    sub_account: key,
                    order_id: Some(order_id),
                },
            )
        } else {
            let settled_name = name.clone();
            Dispatch {
                call: Call::CreateSubAccount {
                    registrar: tla_id,
                    name,
                    owner: owner_account,
                    payout_account,
                    lease_until_ns,
                },
                tgas: CREATE_TGAS,
                deposit: creation_deposit,
                callback: Callback::SubAccountCreatedPaid(
                    MintSettlement {
                        tla_id,
                        name: settled_name,
                        owner: owner_account,
                        payer,
                        rent_yocto: 0,
                        attached_yocto: env.deposit,
                        order_id: Some(order_id),
                    },
                ),
                callback_tgas: CALLBACK_TGAS,
            }
        };
        Ok(Reply { value, events })
    }

    /// Gives an authority back the mint of an order that came to nothing.
    pub(crate) fn release_authority_mint(&mut self, payer: &AccountId, tla_id: &AccountId)
        ensures
            final(self).authority_mints@ == mint_returned(old(self).authority_mints@, *payer, *tla_id),
            *final(self) == (TlaRegistry { authority_mints: final(self).authority_mints, ..*old(self) }),
    {
        let used: u64 = match self.authority_mints.get(&(*payer, *tla_id)) {
            Some(used) => *used,
            None => {
                return;
            },
        };
        if used <= 1 {
            self.authority_mints.remove(&(*payer, *tla_id));
        } else {
            self.authority_mints.insert((*payer, *tla_id), used - 1);
        }
    }

    // ---- the payout account -------------------------------------------------------------------

    pub open spec fn set_payout_refusal(self, env: Env, tla_id: AccountId, name: Seq<char>, new_payout_account: AccountId) -> Option<ContractError> {
        let key = crate::account::named_account_of(tla_id, name);
        if env.deposit != 1 {
            Some(ContractError::RequiresOneYocto)
        } else if self.paused_at(env.now) {
            Some(ContractError::Paused)
        } else if crate::types::name_refusal(name) is Some {
            crate::types::name_refusal(name)
        } else if key == Some(new_payout_account) {
            Some(ContractError::PayoutAccountEqualsSubAccount)
        } else if key is None || !self.sub_accounts@.has(key->0) {
            Some(ContractError::SubAccountNotFound)
        } else if !self.tlas@.has(tla_id) {
            Some(ContractError::TlaNotFound)
        } else if self.is_business(tla_id) && self.tlas@[tla_id].licensee != Some(env.predecessor) {
            Some(ContractError::OnlyLicensee)
        } else if !self.is_business(tla_id) && env.predecessor != self.sub_accounts@[key->0].owner {
            Some(ContractError::OnlyOwner)
        } else {
            None
        }
    }

    /// The owner, or the licensee of a business account, has the wallet pay out elsewhere.
    pub fn set_payout_account(&mut self, env: &Env, tla_id: AccountId, name: String, new_payout_account: AccountId) -> (r: Result<
        Reply<Dispatch>,
        ContractError,
    >)
        ensures
            *final(self) == *old(self),
            match old(self).set_payout_refusal(*env, tla_id, name@, new_payout_account) {
                Some(e) => r == Err::<Reply<Dispatch>, _>(e),
                None => {
                    let key = crate::account::sub_account_id(tla_id, name@);
                    let owner = old(self).sub_accounts@[key].owner;
                    &&& r matches Ok(reply)
                    &&& reply.events@ == Seq::<Event>::empty()
                    &&& reply.value == (Dispatch {
                        call: Call::SetPayout {
                            extension: old(self).hos_extension,
                            wallet: key,
                            payout_account: new_payout_account,
                            owner,
                        },
                        tgas: SET_PAYOUT_TGAS,
                        deposit: 0,
                        callback: Callback::PayoutSet { tla_id, name, new_payout_account, expected_owner: owner },
                        callback_tgas: SET_PAYOUT_CB_TGAS,
                    })
                },
            },
    {
        assert_one_yocto(env)?;
        self.assert_not_paused(env)?;
        validate_name(name.as_str())?;
        let key = match named_account(&tla_id, name.as_str()) {
            Some(key) => key,
            None => {
                return Err(ContractError::SubAccountNotFound);
            },
        };
        if new_payout_account == key {
            return Err(ContractError::PayoutAccountEqualsSubAccount);
        }
        let caller = env.predecessor;
        let sub = match self.sub_accounts.get(&key) {
            Some(sub) => *sub,
            None => {
                return Err(ContractError::SubAccountNotFound);
            },
        };
        let tla = match self.tlas.get(&tla_id) {
            Some(tla) => *tla,
            None => {
                return Err(ContractError::TlaNotFound);
            },
        };
        if tla.tla_type == TlaType::Business {
            if tla.licensee != Some(caller) {
                return Err(ContractError::OnlyLicensee);
            }
        } else if caller != sub.owner {
            return Err(ContractError::OnlyOwner);
        }
        Ok(
            quiet(
                Dispatch {
                    call: Call::SetPayout {
                        extension: self.hos_extension,
                        wallet: key,
                        payout_account: new_payout_account,
                        owner: sub.owner,
                    },
                    tgas: SET_PAYOUT_TGAS,
                    deposit: 0,
                    callback: Callback::PayoutSet { tla_id, name, new_payout_account, expected_owner: sub.owner },
                    callback_tgas: SET_PAYOUT_CB_TGAS,
                },
            ),
        )
    }

    /// Whether `owner` holds the name.
    pub open spec fn owned_by(self, key: AccountId, owner: AccountId) -> bool {
        self.sub_accounts@.has(key) && self.sub_accounts@[key].owner == owner
    }

    pub(crate) fn still_owned_by(&self, key: &AccountId, owner: &AccountId) -> (r: bool)
        ensures
            r == self.owned_by(*key, *owner),
    {
        match self.sub_accounts.get(key) {
            Some(sub) => sub.owner == *owner,
            None => false,
        }
    }

    /// The ledger follows the wallet, unless the name has moved on meanwhile.
    pub fn on_payout_set(
        &mut self,
        tla_id: AccountId,
        name: String,
        new_payout_account: AccountId,
        expected_owner: AccountId,
        success: bool,
    ) -> (r: Vec<Event>)
        ensures
            ({
                let key = crate::account::named_account_of(tla_id, name@);
                if success && key is Some && old(self).owned_by(key->0, expected_owner) {
                    &&& r@ == seq![Event::PayoutAccountUpdated { full_name: key->0, new_payout_account }]
                    &&& final(self).sub_accounts@ == old(self).sub_accounts@.insert(
                        key->0,
                        (SubAccountEntry {
                            payout_account: new_payout_account,
                            ..old(self).sub_accounts@[key->0]
                        }),
                    )
                    &&& *final(self) == (TlaRegistry { sub_accounts: final(self).sub_accounts, ..*old(self) })
                } else {
                    &&& r@ == seq![
                        Event::PayoutAccountUpdateFailed {
                            full_name: crate::account::full_name_of(tla_id, name),
                            attempted: new_payout_account,
                        },
                    ]
                    &&& *final(self) == *old(self)
                }
            }),
    {
        if success {
            if let Some(key) = named_account(&tla_id, name.as_str()) {
                if let Some(sub) = self.sub_accounts.get(&key) {
                    if sub.owner == expected_owner {
                        let row = SubAccountEntry { payout_account: new_payout_account, ..*sub };
                        self.sub_accounts.insert(key, row);
                        return logged((), Event::PayoutAccountUpdated { full_name: key, new_payout_account }).events;
                    }
                }
            }
        }
        let full_name = FullName::of(tla_id, name);
        logged((), Event::PayoutAccountUpdateFailed { full_name, attempted: new_payout_account }).events
    }

    // ---- renewing -----------------------------------------------------------------------------

    pub open spec fn renew_refusal(self, env: Env, tla_id: AccountId, name: Seq<char>) -> Option<ContractError> {
        let key = crate::account::named_account_of(tla_id, name);
        let sub = self.sub_accounts@[key->0];
        let usd = self.rent_usd(tla_id, name);
        if crate::types::name_refusal(name) is Some {
            crate::types::name_refusal(name)
        } else if key is None || !self.sub_accounts@.has(key->0) {
            Some(ContractError::SubAccountNotFound)
        } else if env.now >= crate::common::capped_u64(sub.expires_at + self.grace_period_ns) {
            Some(ContractError::SubAccountPastGracePeriod)
        } else if sub.retraction_at is Some {
            Some(ContractError::RetractionPending)
        } else if !self.tlas@.has(tla_id) {
            Some(ContractError::TlaNotFound)
        } else if self.tlas@[tla_id].lifecycle_of(self.clock_at(env.now), self.suspension_of(tla_id), env.now) is Reclaimable {
            Some(ContractError::TlaPastGracePeriod)
        } else if self.price_refusal(env.now, usd) is Some {
            self.price_refusal(env.now, usd)
        } else if env.deposit < self.price_of(usd) {
            Some(ContractError::InsufficientPayment)
        } else {
            None
        }
    }

    /// Asks the wallet for another term. What was paid beyond the rent is owed back at once; the rest
    /// is settled when the wallet has answered.
    pub fn renew_sub_account(&mut self, env: &Env, tla_id: AccountId, name: String) -> (r: Result<
        Reply<Dispatch>,
        ContractError,
    >)
        ensures
            match old(self).renew_refusal(*env, tla_id, name@) {
                Some(e) => r == Err::<Reply<Dispatch>, _>(e) && *final(self) == *old(self),
                None => {
                    let key = crate::account::sub_account_id(tla_id, name@);
                    let rent = old(self).price_of(old(self).rent_usd(tla_id, name@));
                    let new_expires_at = crate::common::capped_u64(
                        crate::common::max_u64(env.now, old(self).sub_accounts@[key].expires_at) + old(self).lease_term_ns,
                    );
                    &&& r matches Ok(reply)
                    &&& reply.events@ == Seq::<Event>::empty()
                    &&& reply.value == (Dispatch {
                        call: Call::PushLease {
                            extension: old(self).hos_extension,
                            wallet: key,
                            lease_until_ns: new_expires_at,
                            state: OperatingState::Active,
                        },
                        tgas: PUSH_LEASE_TGAS,
                        deposit: 0,
                        callback: Callback::SubAccountRenewed { tla_id, name, new_expires_at, payer: env.predecessor, rent },
                        callback_tgas: LEASE_CB_TGAS,
                    })
                    &&& final(self).owes_excess(*old(self), env.predecessor, env.deposit, rent)
                    &&& *final(self) == (TlaRegistry {
                        pending_refunds: final(self).pending_refunds,
                        total_pending_refunds: final(self).total_pending_refunds,
                        ..*old(self)
                    })
                },
            },
    {
        validate_name(name.as_str())?;
        let key = match named_account(&tla_id, name.as_str()) {
            Some(key) => key,
            None => {
                return Err(ContractError::SubAccountNotFound);
            },
        };
        let caller = env.predecessor;
        let now: u64 = env.now;
        let sub = match self.sub_accounts.get(&key) {
            Some(sub) => *sub,
            None => {
                return Err(ContractError::SubAccountNotFound);
            },
        };
        if now >= sub.expires_at.saturating_add(self.grace_period_ns) {
            return Err(ContractError::SubAccountPastGracePeriod);
        }
        if sub.retraction_at.is_some() {
            return Err(ContractError::RetractionPending);
        }
        let tla = match self.tlas.get(&tla_id) {
            Some(tla) => *tla,
            None => {
                return Err(ContractError::TlaNotFound);
            },
        };
        if tla.lifecycle(&self.clock(env), self.suspension_expiry(&tla_id), now) == LifecycleStatus::Reclaimable {
            return Err(ContractError::TlaPastGracePeriod);
        }
        let terms = self.terms_for(&tla_id);
        let rent_usd: u128 = calculate_rent(&tla, &tla_id, name.as_str(), &self.fee_config, &terms);
        let rent: u128 = self.convert_usd_to_near(env, rent_usd)?;
        if env.deposit < rent {
            return Err(ContractError::InsufficientPayment);
        }
        let new_expires_at: u64 = later(now, sub.expires_at).saturating_add(self.lease_term_ns);
        self.refund_excess(&caller, env.deposit, rent);
        Ok(
            quiet(
                Dispatch {
                    call: Call::PushLease {
                        extension: self.hos_extension,
                        wallet: key,
                        lease_until_ns: new_expires_at,
                        state: OperatingState::Active,
                    },
                    tgas: PUSH_LEASE_TGAS,
                    deposit: 0,
                    callback: Callback::SubAccountRenewed { tla_id, name, new_expires_at, payer: caller, rent },
                    callback_tgas: LEASE_CB_TGAS,
                },
            ),
        )
    }

    /// The term moves, never back, and the rent is earned, if the wallet took the new lease; if not,
    /// or if the name is gone, the rent is owed back.
    pub fn on_sub_account_renewed(
        &mut self,
        env: &Env,
        tla_id: AccountId,
        name: String,
        new_expires_at: u64,
        payer: AccountId,
        rent: u128,
        success: bool,
    ) -> (r: Vec<Event>)
        ensures
            ({
                let key = crate::account::named_account_of(tla_id, name@);
                if success && key is Some && old(self).sub_accounts@.has(key->0) {
                    let sub = old(self).sub_accounts@[key->0];
                    let until = crate::common::max_u64(sub.expires_at, new_expires_at);
                    let event = Event::SubAccountRenewed { full_name: key->0, new_expires_at: until, paid_yocto: rent };
                    &&& r@ == seq![event]
                    &&& final(self).sub_accounts@ == old(self).sub_accounts@.insert(
                        key->0,
                        (SubAccountEntry { expires_at: until, ..sub }),
                    )
                    &&& final(self).recent_activity@ == crate::activity::feed_after(
                        old(self).recent_activity@,
                        event,
                        *env,
                    )
                    &&& *final(self) == (TlaRegistry {
                        sub_accounts: final(self).sub_accounts,
                        total_revenue: crate::common::capped_u128(old(self).total_revenue + rent),
                        recent_activity: final(self).recent_activity,
                        ..*old(self)
                    })
                } else {
                    &&& r@ == seq![
                        Event::RefundPending { account: payer, amount_yocto: rent, reason: RefundReason::RenewalFailed },
                    ]
                    &&& final(self).owes_more(*old(self), payer, rent)
                    &&& *final(self) == (TlaRegistry {
                        pending_refunds: final(self).pending_refunds,
                        total_pending_refunds: final(self).total_pending_refunds,
                        ..*old(self)
                    })
                }
            }),
    {
        let mut events: Vec<Event> = Vec::new();
        if success {
            if let Some(key) = named_account(&tla_id, name.as_str()) {
                if let Some(sub) = self.sub_accounts.get(&key) {
                    let until: u64 = later(sub.expires_at, new_expires_at);
                    let row = SubAccountEntry { expires_at: until, ..*sub };
                    self.sub_accounts.insert(key, row);
                    self.total_revenue = self.total_revenue.saturating_add(rent);
                    self.emit_activity(
                        env,
                        Event::SubAccountRenewed { full_name: key, new_expires_at: until, paid_yocto: rent },
                        &mut events,
                    );
                    assert(events@ =~= seq![
                        Event::SubAccountRenewed { full_name: key, new_expires_at: until, paid_yocto: rent },
                    ]);
                    return events;
                }
            }
        }
        self.add_pending_refund(&payer, rent);
        events.push(Event::RefundPending { account: payer, amount_yocto: rent, reason: RefundReason::RenewalFailed });
        assert(events@ =~= seq![
            Event::RefundPending { account: payer, amount_yocto: rent, reason: RefundReason::RenewalFailed },
        ]);
        events
    }

    /// Reports a lease update that the wallet did not take.
    pub fn on_lease_synced(&mut self, full_name: AccountId, intent: LeaseIntent, success: bool) -> (r: Vec<Event>)
        ensures
            *final(self) == *old(self),
            r@ == (if success {
                Seq::<Event>::empty()
            } else {
                seq![Event::LeaseSyncFailed { full_name, intent }]
            }),
    {
        if success {
            return Vec::new();
        }
        logged((), Event::LeaseSyncFailed { full_name, intent }).events
    }

    /// A re-rent goes on once the parked account is found empty; otherwise it is undone.
    pub fn on_re_rent_balances_checked(
        &mut self,
        env: &Env,
        pending: PendingReRent,
        allowlist: Vec<AccountId>,
        balances: Vec<Result<u128, PromiseError>>,
    ) -> (r: Reply<PromiseOrValue<()>>)
        ensures
            match crate::asset_gate::gate_of(allowlist@, balances@) {
                BalanceGate::Clear => {
                    &&& r.events@ == Seq::<Event>::empty()
                    &&& r.value == PromiseOrValue::<()>::Promise(re_rent_rotation(old(self).hos_extension, pending))
                    &&& *final(self) == *old(self)
                },
                BalanceGate::Blocked { token, reason } => {
                    &&& r.value == PromiseOrValue::<()>::Value(())
                    &&& r.events@ == crate::callbacks::failed_events(
                        *old(self),
                        pending.tla_id,
                        pending.name,
                        pending.order_id,
                        pending.payer,
                        pending.attached,
                        RefundReason::ReRentBlocked,
                    ) + seq![
                        Event::SubAccountSaleBlocked {
                            full_name: crate::account::full_name_of(pending.tla_id, pending.name),
                            token,
                            reason,
                        },
                    ]
                    &&& final(self).mint_failed(
                        *old(self),
                        pending.tla_id,
                        pending.name@,
                        pending.order_id,
                        pending.payer,
                        pending.attached,
                    )
                },
            },
    {
        if let BalanceGate::Blocked { token, reason } = ft_balances_clear(&allowlist, &balances) {
            let mut events = self.undo_mint(
                &pending.tla_id,
                &pending.name,
                &pending.order_id,
                &pending.payer,
                pending.attached,
                RefundReason::ReRentBlocked,
            );
            let ghost before = events@;
            let full_name = FullName::of(pending.tla_id, pending.name);
            events.push(Event::SubAccountSaleBlocked { full_name, token, reason });
            assert(events@ =~= before + seq![events@.last()]);
            return Reply { value: PromiseOrValue::Value(()), events };
        }
        quiet(PromiseOrValue::Promise(re_rent_transfer(&self.hos_extension, pending)))
    }
}

} // verus!
