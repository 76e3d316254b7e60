//! What happens once a mint or a re-rent has answered.
use vstd::prelude::*;

use crate::account::{named_account, AccountId, FullName};
use crate::common::{MintOutcome, PromiseError};
use crate::error::ContractError;
use crate::events::{Event, RefundReason};
use crate::host::{logged, Env, MintSettlement, PromiseOrValue, Reply};
use crate::registry::TlaRegistry;
use crate::types::{PaidOrderState, ParkedEntry};

verus! {

/// Whether the order is the one reserved for this name by this payer.
pub open spec fn order_is_ours(registry: TlaRegistry, order_id: String, full_name: AccountId, payer: AccountId) -> bool {
    registry.paid_order_ids@.has(order_id@) && registry.paid_order_ids@[order_id@].reserves(full_name, payer)
}

/// What giving an order back logs.
pub open spec fn release_events(registry: TlaRegistry, order_id: Option<String>, full_name: AccountId, payer: AccountId) -> Seq<Event> {
    match order_id {
        None => Seq::empty(),
        Some(order_id) => if order_is_ours(registry, order_id, full_name, payer) {
            seq![Event::PaidRentalOrderReleased { order_id }]
        } else {
            seq![Event::PaidRentalOrderStale { order_id, full_name: FullName::Account(full_name) }]
        },
    }
}

/// What settling an order logs.
pub open spec fn confirm_events(registry: TlaRegistry, order_id: Option<String>, full_name: AccountId, payer: AccountId) -> Seq<Event> {
    match order_id {
        None => Seq::empty(),
        Some(order_id) => if order_is_ours(registry, order_id, full_name, payer) {
            seq![Event::PaidRentalOrderSettled { full_name, order_id }]
        } else {
            seq![Event::PaidRentalOrderStale { order_id, full_name: FullName::Account(full_name) }]
        },
    }
}

/// What an order logs for a name that no order can be for.
pub open spec fn stale_events(order_id: Option<String>, full_name: FullName) -> Seq<Event> {
    match order_id {
        None => Seq::empty(),
        Some(order_id) => seq![Event::PaidRentalOrderStale { order_id, full_name }],
    }
}

fn stale_order(order_id: &Option<String>, full_name: FullName) -> (r: Vec<Event>)
    ensures
        r@ == stale_events(*order_id, full_name),
{
    match order_id {
        None => Vec::new(),
        Some(order_id) => logged((), Event::PaidRentalOrderStale { order_id: order_id.clone(), full_name }).events,
    }
}

/// What a failed mint logs: the order given back, and the refund where there was a row to undo.
pub open spec fn failed_events(
    registry: TlaRegistry,
    tla_id: AccountId,
    name: String,
    order_id: Option<String>,
    payer: AccountId,
    attached: u128,
    reason: RefundReason,
) -> Seq<Event> {
    match crate::account::named_account_of(tla_id, name@) {
        Some(key) => release_events(registry, order_id, key, payer) + refund_events(
            registry,
            key,
            payer,
            attached,
            reason,
        ),
        None => stale_events(order_id, FullName::Text { tla_id, name }),
    }
}

/// What undoing a mint logs: the refund, where there was a row to undo.
pub open spec fn refund_events(registry: TlaRegistry, key: AccountId, payer: AccountId, attached: u128, reason: RefundReason) -> Seq<Event> {
    if registry.sub_accounts@.has(key) {
        seq![Event::RefundPending { account: payer, amount_yocto: attached, reason }]
    } else {
        Seq::empty()
    }
}

/// What a mint that left no trace logs.
pub open spec fn stranded_events(
    registry: TlaRegistry,
    key: AccountId,
    tla_id: AccountId,
    payer: AccountId,
    attached: u128,
    reason: RefundReason,
) -> Seq<Event> {
    if registry.sub_accounts@.has(key) {
        seq![
            Event::RefundPending { account: payer, amount_yocto: attached, reason },
            Event::MintFundingStranded {
                full_name: key,
                tla_id,
                payer,
                account_creation_deposit_yocto: registry.fee_config.account_creation_deposit_yocto,
                reason,
            },
        ]
    } else {
        Seq::empty()
    }
}

impl TlaRegistry {
    /// The order is free again and the authority has its mint back, if the order was this one.
    pub open spec fn order_released(self, before: TlaRegistry, order_id: Option<String>, full_name: AccountId, payer: AccountId, tla_id: AccountId) -> bool {
        if order_id is Some && order_is_ours(before, order_id->0, full_name, payer) {
            &&& self.paid_order_ids@ == before.paid_order_ids@.remove(order_id->0@)
            &&& self.authority_mints@ == crate::rental::mint_returned(before.authority_mints@, payer, tla_id)
        } else {
            self.paid_order_ids == before.paid_order_ids && self.authority_mints == before.authority_mints
        }
    }

    /// The order is settled, if it was this one.
    pub open spec fn order_confirmed(self, before: TlaRegistry, order_id: Option<String>, full_name: AccountId, payer: AccountId) -> bool {
        if order_id is Some && order_is_ours(before, order_id->0, full_name, payer) {
            self.paid_order_ids@ == before.paid_order_ids@.insert(order_id->0@, PaidOrderState::Settled)
        } else {
            self.paid_order_ids == before.paid_order_ids
        }
    }

    /// The row is gone, a business account counts one fewer, and the payer is owed what they attached.
    pub open spec fn row_undone(self, before: TlaRegistry, key: AccountId, tla_id: AccountId, payer: AccountId, attached: u128) -> bool {
        if before.sub_accounts@.has(key) {
            let row = before.sub_accounts@[key];
            &&& self.sub_accounts@ == before.sub_accounts@.remove(key)
            &&& self.sub_accounts_by_owner@ == crate::indexes::index_without(before.sub_accounts_by_owner@, row.owner, key)
            &&& self.sub_accounts_by_tla@ == crate::indexes::index_without(before.sub_accounts_by_tla@, row.tla_id, key)
            &&& self.business_sub_count@ == (if before.is_business(tla_id) {
                crate::business::count_less(before.business_sub_count@, tla_id)
            } else {
                before.business_sub_count@
            })
            &&& self.owes_more(before, payer, attached)
            &&& before.indexed() ==> self.indexed()
        } else {
            &&& self.sub_accounts == before.sub_accounts
            &&& self.sub_accounts_by_owner == before.sub_accounts_by_owner
            &&& self.sub_accounts_by_tla == before.sub_accounts_by_tla
            &&& self.business_sub_count == before.business_sub_count
            &&& self.pending_refunds == before.pending_refunds
            &&& self.total_pending_refunds == before.total_pending_refunds
        }
    }

    /// A mint that failed: its order is released, its row undone, and nothing but those and the
    /// parked names may differ.
    pub open spec fn mint_undone(
        self,
        before: TlaRegistry,
        order_id: Option<String>,
        key: AccountId,
        tla_id: AccountId,
        payer: AccountId,
        attached: u128,
    ) -> bool {
        &&& self.order_released(before, order_id, key, payer, tla_id)
        &&& self.row_undone(before, key, tla_id, payer, attached)
        &&& self == (TlaRegistry {
            sub_accounts: self.sub_accounts,
            sub_accounts_by_owner: self.sub_accounts_by_owner,
            sub_accounts_by_tla: self.sub_accounts_by_tla,
            business_sub_count: self.business_sub_count,
            pending_refunds: self.pending_refunds,
            total_pending_refunds: self.total_pending_refunds,
            paid_order_ids: self.paid_order_ids,
            authority_mints: self.authority_mints,
            parked_names: self.parked_names,
            ..before
        })
    }

    /// A mint that failed for good: its row is undone, and nothing is parked. A name that is no account
    /// has no row.
    pub open spec fn mint_failed(
        self,
        before: TlaRegistry,
        tla_id: AccountId,
        name: Seq<char>,
        order_id: Option<String>,
        payer: AccountId,
        attached: u128,
    ) -> bool {
        match crate::account::named_account_of(tla_id, name) {
            Some(key) => {
                &&& self.mint_undone(before, order_id, key, tla_id, payer, attached)
                &&& self.parked_names == before.parked_names
            },
            None => self == before,
        }
    }

    /// Gives the order back and undoes the row.
    pub(crate) fn undo_mint(
        &mut self,
        tla_id: &AccountId,
        name: &String,
        order_id: &Option<String>,
        payer: &AccountId,
        attached: u128,
        reason: RefundReason,
    ) -> (events: Vec<Event>)
        ensures
            events@ == failed_events(*old(self), *tla_id, *name, *order_id, *payer, attached, reason),
            final(self).mint_failed(*old(self), *tla_id, name@, *order_id, *payer, attached),
    {
        let key = match named_account(tla_id, name.as_str()) {
            Some(key) => key,
            None => {
                return stale_order(order_id, FullName::Text { tla_id: *tla_id, name: name.clone() });
            },
        };
        let mut events: Vec<Event> = Vec::new();
        self.release_order(order_id, &key, payer, tla_id, &mut events);
        assert(events@ =~= release_events(*old(self), *order_id, key, *payer));
        self.settle_failed_mint(&key, tla_id, payer, attached, reason, &mut events);
        events
    }

    pub(crate) fn release_order(
        &mut self,
        order_id: &Option<String>,
        full_name: &AccountId,
        payer: &AccountId,
        tla_id: &AccountId,
        events: &mut Vec<Event>,
    )
        ensures
            final(events)@ == old(events)@ + release_events(*old(self), *order_id, *full_name, *payer),
            final(self).order_released(*old(self), *order_id, *full_name, *payer, *tla_id),
            *final(self) == (TlaRegistry {
                paid_order_ids: final(self).paid_order_ids,
                authority_mints: final(self).authority_mints,
                ..*old(self)
            }),
    {
        let order_id = match order_id {
            Some(order_id) => order_id.clone(),
            None => {
                assert(events@ =~= old(events)@ + release_events(*old(self), *order_id, *full_name, *payer));
                return;
            },
        };
        let still_ours = match self.paid_order_ids.get(&order_id) {
            Some(reserved) => reserved.in_flight_for(full_name, payer),
            None => false,
        };
        if !still_ours {
            events.push(Event::PaidRentalOrderStale { order_id, full_name: FullName::Account(*full_name) });
            assert(events@ =~= old(events)@ + release_events(*old(self), Some(order_id), *full_name, *payer));
            return;
        }
        self.paid_order_ids.remove(&order_id);
        self.release_authority_mint(payer, tla_id);
        events.push(Event::PaidRentalOrderReleased { order_id });
        assert(events@ =~= old(events)@ + release_events(*old(self), Some(order_id), *full_name, *payer));
    }

    pub(crate) fn confirm_order(
        &mut self,
        order_id: &Option<String>,
        full_name: &AccountId,
        payer: &AccountId,
        events: &mut Vec<Event>,
    )
        ensures
            final(events)@ == old(events)@ + confirm_events(*old(self), *order_id, *full_name, *payer),
            final(self).order_confirmed(*old(self), *order_id, *full_name, *payer),
            *final(self) == (TlaRegistry { paid_order_ids: final(self).paid_order_ids, ..*old(self) }),
    {
        let order_id = match order_id {
            Some(order_id) => order_id.clone(),
            None => {
                assert(events@ =~= old(events)@ + confirm_events(*old(self), *order_id, *full_name, *payer));
                return;
            },
        };
        let still_ours = match self.paid_order_ids.get(&order_id) {
            Some(reserved) => reserved.in_flight_for(full_name, payer),
            None => false,
        };
        if !still_ours {
            events.push(Event::PaidRentalOrderStale { order_id, full_name: FullName::Account(*full_name) });
            assert(events@ =~= old(events)@ + confirm_events(*old(self), Some(order_id), *full_name, *payer));
            return;
        }
        self.paid_order_ids.insert(order_id.clone(), PaidOrderState::Settled);
        events.push(Event::PaidRentalOrderSettled { full_name: *full_name, order_id });
        assert(events@ =~= old(events)@ + confirm_events(*old(self), Some(order_id), *full_name, *payer));
    }

    pub(crate) fn settle_failed_mint(
        &mut self,
        key: &AccountId,
        tla_id: &AccountId,
        payer: &AccountId,
        attached: u128,
        reason: RefundReason,
        events: &mut Vec<Event>,
    )
        ensures
            final(events)@ == old(events)@ + refund_events(*old(self), *key, *payer, attached, reason),
            final(self).row_undone(*old(self), *key, *tla_id, *payer, attached),
            *final(self) == (TlaRegistry {
                sub_accounts: final(self).sub_accounts,
                sub_accounts_by_owner: final(self).sub_accounts_by_owner,
                sub_accounts_by_tla: final(self).sub_accounts_by_tla,
                business_sub_count: final(self).business_sub_count,
                pending_refunds: final(self).pending_refunds,
                total_pending_refunds: final(self).total_pending_refunds,
                ..*old(self)
            }),
    {
        if self.sub_account_remove(key).is_none() {
            assert(events@ =~= old(events)@ + refund_events(*old(self), *key, *payer, attached, reason));
            return;
        }
        self.business_count_decrement_if_business(tla_id);
        self.add_pending_refund(payer, attached);
        events.push(Event::RefundPending { account: *payer, amount_yocto: attached, reason });
        assert(events@ =~= old(events)@ + refund_events(*old(self), *key, *payer, attached, reason));
    }

    /// The parked names once a mint is stranded: its account may exist, so the name is parked.
    pub open spec fn stranded_park(self, now: u64, key: AccountId, text: Seq<char>, tla_id: AccountId) -> crate::ordered::OrderedView<
        Seq<char>,
        ParkedEntry,
    > {
        if self.sub_accounts@.has(key) {
            self.parked_names@.insert(text, ParkedEntry { tla_id, parked_at: now })
        } else {
            self.parked_names@
        }
    }

    pub(crate) fn settle_stranded_mint(
        &mut self,
        env: &Env,
        key: &AccountId,
        tla_id: &AccountId,
        payer: &AccountId,
        attached: u128,
        reason: RefundReason,
        events: &mut Vec<Event>,
    )
        ensures
            final(events)@ == old(events)@ + stranded_events(*old(self), *key, *tla_id, *payer, attached, reason),
            final(self).row_undone(*old(self), *key, *tla_id, *payer, attached),
            final(self).parked_names@ == old(self).stranded_park(env.now, *key, key@, *tla_id),
            *final(self) == (TlaRegistry {
                sub_accounts: final(self).sub_accounts,
                sub_accounts_by_owner: final(self).sub_accounts_by_owner,
                sub_accounts_by_tla: final(self).sub_accounts_by_tla,
                business_sub_count: final(self).business_sub_count,
                pending_refunds: final(self).pending_refunds,
                total_pending_refunds: final(self).total_pending_refunds,
                parked_names: final(self).parked_names,
                ..*old(self)
            }),
    {
        if self.sub_account_remove(key).is_none() {
            assert(events@ =~= old(events)@ + stranded_events(*old(self), *key, *tla_id, *payer, attached, reason));
            return;
        }
        self.business_count_decrement_if_business(tla_id);
        self.add_pending_refund(payer, attached);
        self.parked_names.insert(key.text(), ParkedEntry { tla_id: *tla_id, parked_at: env.now });
        events.push(Event::RefundPending { account: *payer, amount_yocto: attached, reason });
        events.push(
            Event::MintFundingStranded {
                full_name: *key,
                tla_id: *tla_id,
                payer: *payer,
                account_creation_deposit_yocto: self.fee_config.account_creation_deposit_yocto,
                reason,
            },
        );
        assert(events@ =~= old(events)@ + stranded_events(*old(self), *key, *tla_id, *payer, attached, reason));
    }

    /// What a mint's answer does to the ledger. Of a success `booked` is earned, the payer gets back
    /// what they attached beyond `charged`, and the order is settled. Of a failure everything is undone,
    /// and where there was no answer at all the name is parked, because its account may exist.
    pub open spec fn mint_settled(
        self,
        before: TlaRegistry,
        r: Result<Vec<Event>, ContractError>,
        env: Env,
        settlement: MintSettlement,
        outcome: Result<MintOutcome, PromiseError>,
        booked: u128,
        charged: u128,
        failed: RefundReason,
        stranded: RefundReason,
    ) -> bool {
        let key = crate::account::named_account_of(settlement.tla_id, settlement.name@);
        let payer = settlement.payer;
        let order = settlement.order_id;
        match outcome {
            Ok(MintOutcome::Active) => if key is None || !before.sub_accounts@.has(key->0) {
                r == Err::<Vec<Event>, _>(ContractError::SubAccountNotFound) && self == before
            } else {
                let event = Event::SubAccountRented {
                    full_name: key->0,
                    tla_id: settlement.tla_id,
                    owner: settlement.owner,
                    rent_yocto: settlement.rent_yocto,
                    expires_at: before.sub_accounts@[key->0].expires_at,
                };
                &&& r matches Ok(events)
                &&& events@ == confirm_events(before, order, key->0, payer) + seq![
                    Event::NftMint { owner_id: settlement.owner, token_id: key->0 },
                    event,
                ]
                &&& self.order_confirmed(before, order, key->0, payer)
                &&& self.owes_excess(before, payer, settlement.attached_yocto, charged)
                &&& self.recent_activity@ == crate::activity::feed_after(before.recent_activity@, event, env)
                &&& self == (TlaRegistry {
                    paid_order_ids: self.paid_order_ids,
                    sub_account_count: crate::common::capped_u64(before.sub_account_count + 1),
                    total_revenue: crate::common::capped_u128(before.total_revenue + booked),
                    pending_refunds: self.pending_refunds,
                    total_pending_refunds: self.total_pending_refunds,
                    recent_activity: self.recent_activity,
                    ..before
                })
            },
            Ok(MintOutcome::CreationFailed) => {
                &&& r matches Ok(events)
                &&& events@ == failed_events(
                    before,
                    settlement.tla_id,
                    settlement.name,
                    order,
                    payer,
                    settlement.attached_yocto,
                    failed,
                )
                &&& self.mint_failed(
                    before,
                    settlement.tla_id,
                    settlement.name@,
                    order,
                    payer,
                    settlement.attached_yocto,
                )
            },
            Err(_) => if key is None {
                &&& r matches Ok(events)
                &&& events@ == stale_events(
                    order,
                    FullName::Text { tla_id: settlement.tla_id, name: settlement.name },
                )
                &&& self == before
            } else {
                &&& r matches Ok(events)
                &&& events@ == release_events(before, order, key->0, payer) + stranded_events(
                    before,
                    key->0,
                    settlement.tla_id,
                    payer,
                    settlement.attached_yocto,
                    stranded,
                )
                &&& self.mint_undone(before, order, key->0, settlement.tla_id, payer, settlement.attached_yocto)
                &&& self.parked_names@ == before.stranded_park(
                    env.now,
                    key->0,
                    crate::account::sub_account_text(settlement.tla_id, settlement.name@),
                    settlement.tla_id,
                )
            },
        }
    }

    fn settle_mint(
        &mut self,
        env: &Env,
        settlement: MintSettlement,
        outcome: Result<MintOutcome, PromiseError>,
        booked: u128,
        charged: u128,
        failed: RefundReason,
        stranded: RefundReason,
    ) -> (r: Result<Vec<Event>, ContractError>)
        ensures
            final(self).mint_settled(*old(self), r, *env, settlement, outcome, booked, charged, failed, stranded),
    {
        let mut events: Vec<Event> = Vec::new();
        match outcome {
            Ok(MintOutcome::Active) => {
                let key = match named_account(&settlement.tla_id, settlement.name.as_str()) {
                    Some(key) => key,
                    None => {
                        return Err(ContractError::SubAccountNotFound);
                    },
                };
                let expires_at: u64 = match self.sub_accounts.get(&key) {
                    Some(sub) => sub.expires_at,
                    None => {
                        return Err(ContractError::SubAccountNotFound);
                    },
                };
                self.confirm_order(&settlement.order_id, &key, &settlement.payer, &mut events);
                self.record_rental(&settlement.payer, booked, settlement.attached_yocto, charged);
                let ghost confirmed = events@;
                events.push(Event::NftMint { owner_id: settlement.owner, token_id: key });
                self.emit_activity(
                    env,
                    Event::SubAccountRented {
                        full_name: key,
                        tla_id: settlement.tla_id,
                        owner: settlement.owner,
                        rent_yocto: settlement.rent_yocto,
                        expires_at,
                    },
                    &mut events,
                );
                proof {
                    assert(confirmed =~= confirm_events(*old(self), settlement.order_id, key, settlement.payer));
                    assert(events@ =~= confirmed + seq![
                        Event::NftMint { owner_id: settlement.owner, token_id: key },
                        Event::SubAccountRented {
                            full_name: key,
                            tla_id: settlement.tla_id,
                            owner: settlement.owner,
                            rent_yocto: settlement.rent_yocto,
                            expires_at,
                        },
                    ]);
                }
            },
            Ok(MintOutcome::CreationFailed) => {
                events = self.undo_mint(
                    &settlement.tla_id,
                    &settlement.name,
                    &settlement.order_id,
                    &settlement.payer,
                    settlement.attached_yocto,
                    failed,
                );
            },
            Err(_) => {
                let key = match named_account(&settlement.tla_id, settlement.name.as_str()) {
                    Some(key) => key,
                    None => {
                        let MintSettlement { tla_id, name, order_id, .. } = settlement;
                        return Ok(stale_order(&order_id, FullName::Text { tla_id, name }));
                    },
                };
                self.release_order(&settlement.order_id, &key, &settlement.payer, &settlement.tla_id, &mut events);
                assert(events@ =~= release_events(*old(self), settlement.order_id, key, settlement.payer));
                self.settle_stranded_mint(
                    env,
                    &key,
                    &settlement.tla_id,
                    &settlement.payer,
                    settlement.attached_yocto,
                    stranded,
                    &mut events,
                );
            },
        }
        Ok(events)
    }

    /// Counts a name, books what it earned and owes back what was attached beyond the charge.
    fn record_rental(&mut self, payer: &AccountId, booked: u128, attached: u128, charged: u128)
        ensures
            final(self).owes_excess(*old(self), *payer, attached, charged),
            *final(self) == (TlaRegistry {
                sub_account_count: crate::common::capped_u64(old(self).sub_account_count + 1),
                total_revenue: crate::common::capped_u128(old(self).total_revenue + booked),
                pending_refunds: final(self).pending_refunds,
                total_pending_refunds: final(self).total_pending_refunds,
                ..*old(self)
            }),
    {
        self.sub_account_count = self.sub_account_count.saturating_add(1);
        self.total_revenue = self.total_revenue.saturating_add(booked);
        self.refund_excess(payer, attached, charged);
    }

    /// Settles a mint that the payer pays for here: the rent is earned, and the charge is the rent and
    /// the creation deposit.
    pub fn on_sub_account_created(
        &mut self,
        env: &Env,
        settlement: MintSettlement,
        outcome: Result<MintOutcome, PromiseError>,
    ) -> (r: Result<Vec<Event>, ContractError>)
        ensures
            final(self).mint_settled(
                *old(self),
                r,
                *env,
                settlement,
                outcome,
                settlement.rent_yocto,
                crate::common::capped_u128(
                    settlement.rent_yocto + old(self).fee_config.account_creation_deposit_yocto,
                ),
                RefundReason::CreationFailed,
                RefundReason::MintChainFailed,
            ),
    {
        let booked: u128 = settlement.rent_yocto;
        let charged: u128 = booked.saturating_add(self.fee_config.account_creation_deposit_yocto);
        self.settle_mint(
            env,
            settlement,
            outcome,
            booked,
            charged,
            RefundReason::CreationFailed,
            RefundReason::MintChainFailed,
        )
    }

    /// Settles a mint that was paid for elsewhere: nothing is earned, and the charge is the creation
    /// deposit.
    pub fn on_sub_account_created_paid(
        &mut self,
        env: &Env,
        settlement: MintSettlement,
        outcome: Result<MintOutcome, PromiseError>,
    ) -> (r: Result<Vec<Event>, ContractError>)
        ensures
            final(self).mint_settled(
                *old(self),
                r,
                *env,
                settlement,
                outcome,
                0,
                old(self).fee_config.account_creation_deposit_yocto,
                RefundReason::PaidCreationFailed,
                RefundReason::PaidMintChainFailed,
            ),
    {
        let charged: u128 = self.fee_config.account_creation_deposit_yocto;
        self.settle_mint(
            env,
            settlement,
            outcome,
            0,
            charged,
            RefundReason::PaidCreationFailed,
            RefundReason::PaidMintChainFailed,
        )
    }

    /// Settles a re-rent: the name leaves the parked names and the rent is earned, or everything is
    /// undone and the name stays parked.
    pub fn on_sub_account_re_rented(
        &mut self,
        env: &Env,
        settlement: MintSettlement,
        swapped: Result<bool, PromiseError>,
    ) -> (r: Result<Reply<PromiseOrValue<()>>, ContractError>)
        ensures
            ({
                let key = crate::account::named_account_of(settlement.tla_id, settlement.name@);
                let payer = settlement.payer;
                let order = settlement.order_id;
                if swapped != Ok::<bool, PromiseError>(true) {
                    &&& r matches Ok(reply)
                    &&& reply.value == PromiseOrValue::<()>::Value(())
                    &&& reply.events@ == failed_events(
                        *old(self),
                        settlement.tla_id,
                        settlement.name,
                        order,
                        payer,
                        settlement.attached_yocto,
                        RefundReason::ReRentFailed,
                    )
                    &&& final(self).mint_failed(
                        *old(self),
                        settlement.tla_id,
                        settlement.name@,
                        order,
                        payer,
                        settlement.attached_yocto,
                    )
                } else if key is None || !old(self).sub_accounts@.has(key->0) {
                    r == Err::<Reply<PromiseOrValue<()>>, _>(ContractError::SubAccountNotFound) && *final(self) == *old(self)
                } else {
                    let event = Event::SubAccountReRented {
                        full_name: key->0,
                        tla_id: settlement.tla_id,
                        owner: settlement.owner,
                        rent_yocto: settlement.rent_yocto,
                        expires_at: old(self).sub_accounts@[key->0].expires_at,
                    };
                    &&& r matches Ok(reply)
                    &&& reply.value == PromiseOrValue::<()>::Value(())
                    &&& reply.events@ == confirm_events(*old(self), order, key->0, payer) + seq![
                        Event::NftMint { owner_id: settlement.owner, token_id: key->0 },
                        event,
                    ]
                    &&& final(self).order_confirmed(*old(self), order, key->0, payer)
                    &&& final(self).parked_names@ == old(self).parked_names@.remove(
                        crate::account::sub_account_text(settlement.tla_id, settlement.name@),
                    )
                    &&& final(self).owes_excess(*old(self), payer, settlement.attached_yocto, settlement.rent_yocto)
                    &&& final(self).recent_activity@ == crate::activity::feed_after(
                        old(self).recent_activity@,
                        event,
                        *env,
                    )
                    &&& *final(self) == (TlaRegistry {
                        paid_order_ids: final(self).paid_order_ids,
                        parked_names: final(self).parked_names,
                        sub_account_count: crate::common::capped_u64(old(self).sub_account_count + 1),
                        total_revenue: crate::common::capped_u128(
                            old(self).total_revenue + settlement.rent_yocto,
                        ),
                        pending_refunds: final(self).pending_refunds,
                        total_pending_refunds: final(self).total_pending_refunds,
                        recent_activity: final(self).recent_activity,
                        ..*old(self)
                    })
                }
            }),
    {
        if !rotated(&swapped) {
            let events = self.undo_mint(
                &settlement.tla_id,
                &settlement.name,
                &settlement.order_id,
                &settlement.payer,
                settlement.attached_yocto,
                RefundReason::ReRentFailed,
            );
            return Ok(Reply { value: PromiseOrValue::Value(()), events });
        }
        let key = match named_account(&settlement.tla_id, settlement.name.as_str()) {
            Some(key) => key,
            None => {
                return Err(ContractError::SubAccountNotFound);
            },
        };
        let mut events: Vec<Event> = Vec::new();
        let expires_at: u64 = match self.sub_accounts.get(&key) {
            Some(sub) => sub.expires_at,
            None => {
                return Err(ContractError::SubAccountNotFound);
            },
        };
        self.confirm_order(&settlement.order_id, &key, &settlement.payer, &mut events);
        let ghost confirmed = events@;
        self.parked_names.remove(&key.text());
        events.push(Event::NftMint { owner_id: settlement.owner, token_id: key });
        self.record_rental(
            &settlement.payer,
            settlement.rent_yocto,
            settlement.attached_yocto,
            settlement.rent_yocto,
        );
        self.emit_activity(
            env,
            Event::SubAccountReRented {
                full_name: key,
                tla_id: settlement.tla_id,
                owner: settlement.owner,
                rent_yocto: settlement.rent_yocto,
                expires_at,
            },
            &mut events,
        );
        proof {
            assert(confirmed =~= confirm_events(*old(self), settlement.order_id, key, settlement.payer));
            assert(events@ =~= confirmed + seq![
                Event::NftMint { owner_id: settlement.owner, token_id: key },
                Event::SubAccountReRented {
                    full_name: key,
                    tla_id: settlement.tla_id,
                    owner: settlement.owner,
                    rent_yocto: settlement.rent_yocto,
                    expires_at,
                },
            ]);
        }
        Ok(Reply { value: PromiseOrValue::Value(()), events })
    }
}

/// Whether a rotation answered that it took place.
pub(crate) fn rotated(swapped: &Result<bool, PromiseError>) -> (r: bool)
    ensures
        r == (*swapped == Ok::<bool, PromiseError>(true)),
{
    match swapped {
        Ok(done) => *done,
        Err(_) => false,
    }
}

} // verus!
