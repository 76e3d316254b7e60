//! Handing names on.
use vstd::prelude::*;

use crate::account::{named_account, AccountId, FullName};
use crate::asset_gate::{ft_balance_fanout, ft_balances_clear, BalanceGate, FT_BALANCE_TGAS};
use crate::callbacks::rotated;
use crate::common::{PromiseError, RotationCause};
use crate::error::ContractError;
use crate::events::Event;
use crate::host::{logged, quiet, Call, Callback, Dispatch, Env, Reply};
use crate::lifecycle::effective_sub_lifecycle;
use crate::registry::{assert_one_yocto, TlaRegistry};
use crate::types::{validate_name, LifecycleStatus, SubAccountEntry, TlaType};

verus! {

pub const TRANSFER_FORCE_TGAS: u64 = 45;

pub const TRANSFER_CB_TGAS: u64 = 20;

pub const TRANSFER_GATE_CB_TGAS: u64 = 180;

/// The balance gate asks every allowlisted token before a transfer goes on, and one call funds that.
pub proof fn transfer_gate_fits_one_call()
    ensures
        crate::admin::MAX_ALLOWLIST_SIZE * FT_BALANCE_TGAS + TRANSFER_GATE_CB_TGAS + 20 <= 300,
{
}

/// The rotation that hands a wallet from one owner to the next.
pub open spec fn hand_over(
    hos_extension: AccountId,
    sub_account: AccountId,
    from: AccountId,
    new_owner: AccountId,
    cause: RotationCause,
    callback: Callback,
    callback_tgas: u64,
) -> Dispatch {
    Dispatch {
        call: Call::ForceTransfer {
            extension: hos_extension,
            wallet: sub_account,
            new_owner: Some(new_owner),
            cause,
            expected: Some(from),
        },
        tgas: TRANSFER_FORCE_TGAS,
        deposit: 0,
        callback,
        callback_tgas,
    }
}

pub open spec fn transfer_rotation(
    hos_extension: AccountId,
    sub_account: AccountId,
    tla_id: AccountId,
    name: String,
    from: AccountId,
    new_owner: AccountId,
    cause: RotationCause,
) -> Dispatch {
    hand_over(
        hos_extension,
        sub_account,
        from,
        new_owner,
        cause,
        Callback::SubAccountTransferred { tla_id, name, from, to: new_owner, cause },
        TRANSFER_CB_TGAS,
    )
}

impl TlaRegistry {
    /// A venue takes a deposit; anyone else takes the name over.
    pub open spec fn cause_for(self, receiver: AccountId) -> RotationCause {
        if self.venues@.has(receiver) {
            RotationCause::Deposit
        } else {
            RotationCause::Transfer
        }
    }

    pub(crate) fn rotation_for_receiver(&self, receiver: &AccountId) -> (r: RotationCause)
        ensures
            r == self.cause_for(*receiver),
    {
        if self.venues.contains_key(receiver) {
            RotationCause::Deposit
        } else {
            RotationCause::Transfer
        }
    }

    /// Whether a name has to be found empty of gated tokens before `from` may hand it on: never on
    /// its way out of a venue.
    pub open spec fn gated(self, from: AccountId) -> bool {
        !self.venues@.has(from) && self.ft_allowlist@.len() > 0
    }

    /// Why a name is not for its owner to hand on, if it is not.
    pub open spec fn sellable_refusal(self, now: u64, key: AccountId, tla_id: AccountId) -> Option<ContractError> {
        let sub = self.sub_accounts@[key];
        if self.reclaim_pending@.has(key) {
            Some(ContractError::ReclaimInProgress)
        } else if !self.sub_accounts@.has(key) {
            Some(ContractError::SubAccountNotFound)
        } else if sub.tla_id != tla_id {
            Some(ContractError::SubAccountTlaMismatch)
        } else if sub.retraction_at is Some {
            Some(ContractError::RetractionPending)
        } else if !self.tlas@.has(tla_id) {
            Some(ContractError::TlaNotFound)
        } else if self.tlas@[tla_id].tla_type is Business {
            Some(ContractError::BusinessSubNotResellable)
        } else if !(self.name_lifecycle(now, tla_id, key) is Active) {
            Some(ContractError::SubAccountNotSellable)
        } else {
            None
        }
    }

    pub(crate) fn assert_sellable(&self, env: &Env, key: &AccountId, tla_id: &AccountId) -> (r: Result<
        AccountId,
        ContractError,
    >)
        ensures
            match self.sellable_refusal(env.now, *key, *tla_id) {
                Some(e) => r == Err::<AccountId, _>(e),
                None => r == Ok::<_, ContractError>(self.sub_accounts@[*key].owner),
            },
    {
        if self.reclaim_pending.contains_key(key) {
            return Err(ContractError::ReclaimInProgress);
        }
        let sub = match self.sub_accounts.get(key) {
            Some(sub) => *sub,
            None => {
                return Err(ContractError::SubAccountNotFound);
            },
        };
        if sub.tla_id != *tla_id {
            return Err(ContractError::SubAccountTlaMismatch);
        }
        if sub.retraction_at.is_some() {
            return Err(ContractError::RetractionPending);
        }
        let tla = match self.tlas.get(tla_id) {
            Some(tla) => *tla,
            None => {
                return Err(ContractError::TlaNotFound);
            },
        };
        if tla.tla_type == TlaType::Business {
            return Err(ContractError::BusinessSubNotResellable);
        }
        let status = effective_sub_lifecycle(
            &sub,
            &tla,
            self.fee_config.retraction_notice_ns,
            &self.clock(env),
            self.suspension_expiry(tla_id),
            env.now,
        );
        if status != LifecycleStatus::Active {
            return Err(ContractError::SubAccountNotSellable);
        }
        Ok(sub.owner)
    }

    /// Why the caller may not hand the name to `new_owner` now, if they may not. A venue may always
    /// hand out what it holds.
    pub open spec fn transfer_refusal(self, env: Env, tla_id: AccountId, name: Seq<char>, new_owner: AccountId) -> Option<ContractError> {
        let key = crate::account::named_account_of(tla_id, name);
        let sub = self.sub_accounts@[key->0];
        if env.deposit != 1 {
            Some(ContractError::RequiresOneYocto)
        } else if crate::types::name_refusal(name) is Some {
            crate::types::name_refusal(name)
        } else if key is Some && self.reclaim_pending@.has(key->0) {
            Some(ContractError::ReclaimInProgress)
        } else if key is None || !self.sub_accounts@.has(key->0) {
            Some(ContractError::SubAccountNotFound)
        } else if sub.tla_id != tla_id {
            Some(ContractError::SubAccountTlaMismatch)
        } else if env.predecessor != sub.owner {
            Some(ContractError::OnlyOwner)
        } else if new_owner == sub.owner {
            Some(ContractError::SameOwner)
        } else if new_owner == key->0 {
            Some(ContractError::TransferToSubAccount)
        } else if self.venues@.has(sub.owner) {
            None
        } else if self.paused_at(env.now) {
            Some(ContractError::Paused)
        } else if self.sellable_refusal(env.now, key->0, tla_id) is Some {
            self.sellable_refusal(env.now, key->0, tla_id)
        } else if !self.venues@.has(new_owner) && self.sub_accounts@.has(new_owner) {
            Some(ContractError::TransferToRegisteredName)
        } else {
            None
        }
    }

    /// The account and the owner of a name that the caller may hand to `new_owner`.
    pub(crate) fn assert_transferable(&self, env: &Env, tla_id: &AccountId, name: &str, new_owner: &AccountId) -> (r: Result<
        (AccountId, AccountId),
        ContractError,
    >)
        ensures
            match self.transfer_refusal(*env, *tla_id, name@, *new_owner) {
                Some(e) => r == Err::<(AccountId, AccountId), _>(e),
                None => r == Ok::<_, ContractError>(
                    (crate::account::sub_account_id(*tla_id, name@), env.predecessor),
                ) && self.owned_by(crate::account::sub_account_id(*tla_id, name@), env.predecessor),
            },
    {
        assert_one_yocto(env)?;
        validate_name(name)?;
        let key = match named_account(tla_id, name) {
            Some(key) => key,
            None => {
                return Err(ContractError::SubAccountNotFound);
            },
        };
        if self.reclaim_pending.contains_key(&key) {
            return Err(ContractError::ReclaimInProgress);
        }
        let sub = match self.sub_accounts.get(&key) {
            Some(sub) => *sub,
            None => {
                return Err(ContractError::SubAccountNotFound);
            },
        };
        if sub.tla_id != *tla_id {
            return Err(ContractError::SubAccountTlaMismatch);
        }
        let owner = sub.owner;
        if env.predecessor != owner {
            return Err(ContractError::OnlyOwner);
        }
        if *new_owner == owner {
            return Err(ContractError::SameOwner);
        }
        if *new_owner == key {
            return Err(ContractError::TransferToSubAccount);
        }
        if !self.venues.contains_key(&owner) {
            self.assert_not_paused(env)?;
            self.assert_sellable(env, &key, tla_id)?;
            if !self.venues.contains_key(new_owner) && self.sub_accounts.contains_key(new_owner) {
                return Err(ContractError::TransferToRegisteredName);
            }
        }
        Ok((key, owner))
    }

    /// The owner hands a name on; it is gated on the way, except out of a venue.
    pub fn transfer_sub_account(&mut self, env: &Env, tla_id: AccountId, name: String, new_owner: AccountId) -> (r: Result<
        Reply<Dispatch>,
        ContractError,
    >)
        ensures
            *final(self) == *old(self),
            match old(self).transfer_refusal(*env, tla_id, name@, new_owner) {
                Some(e) => r == Err::<Reply<Dispatch>, _>(e),
                None => {
                    let key = crate::account::sub_account_id(tla_id, name@);
                    let from = env.predecessor;
                    let cause = old(self).cause_for(new_owner);
                    &&& r matches Ok(reply)
                    &&& reply.events@ == Seq::<Event>::empty()
                    &&& if old(self).gated(from) {
                        crate::rental::asks_balances(
                            reply.value,
                            old(self).ft_allowlist@.keys,
                            key,
                            Callback::TransferBalancesChecked { sub_account: key, tla_id, name, from, new_owner, cause },
                            TRANSFER_GATE_CB_TGAS,
                        )
                    } else {
                        reply.value == transfer_rotation(
                            old(self).hos_extension,
                            key,
                            tla_id,
                            name,
                            from,
                            new_owner,
                            cause,
                        )
                    }
                },
            },
    {
        let (sub_account, from) = self.assert_transferable(env, &tla_id, name.as_str(), &new_owner)?;
        let cause = self.rotation_for_receiver(&new_owner);
        if self.venues.contains_key(&from) {
            return Ok(quiet(self.dispatch_sub_account_transfer(sub_account, tla_id, name, from, new_owner, cause)));
        }
        match ft_balance_fanout(&self.ft_allowlist) {
            None => Ok(quiet(self.dispatch_sub_account_transfer(sub_account, tla_id, name, from, new_owner, cause))),
            Some(tokens) => Ok(
                quiet(
                    Dispatch {
                        call: Call::FtBalances { tokens, account: sub_account },
                        tgas: FT_BALANCE_TGAS,
                        deposit: 0,
                        callback: Callback::TransferBalancesChecked {
                            sub_account,
                            tla_id,
                            name,
                            from,
                            new_owner,
                            cause,
                        },
                        callback_tgas: TRANSFER_GATE_CB_TGAS,
                    },
                ),
            ),
        }
    }

    /// Goes on with a transfer whose account is empty of gated tokens. One that is not is refused,
    /// and logged.
    pub fn on_transfer_balances_checked(
        &mut self,
        sub_account: AccountId,
        tla_id: AccountId,
        name: String,
        from: AccountId,
        new_owner: AccountId,
        cause: RotationCause,
        allowlist: Vec<AccountId>,
        balances: Vec<Result<u128, PromiseError>>,
    ) -> (r: Reply<Result<Dispatch, ContractError>>)
        ensures
            *final(self) == *old(self),
            match crate::asset_gate::gate_of(allowlist@, balances@) {
                BalanceGate::Blocked { token, reason } => {
                    &&& r.value == Err::<Dispatch, _>(ContractError::SubAccountHoldsTokens)
                    &&& r.events@ == seq![Event::TransferBlockedByBalance { full_name: sub_account, token, reason }]
                },
                BalanceGate::Clear => {
                    &&& r.value == Ok::<_, ContractError>(
                        transfer_rotation(old(self).hos_extension, sub_account, tla_id, name, from, new_owner, cause),
                    )
                    &&& r.events@ == Seq::<Event>::empty()
                },
            },
    {
        if let BalanceGate::Blocked { token, reason } = ft_balances_clear(&allowlist, &balances) {
            return logged(
                Err(ContractError::SubAccountHoldsTokens),
                Event::TransferBlockedByBalance { full_name: sub_account, token, reason },
            );
        }
        quiet(Ok(self.dispatch_sub_account_transfer(sub_account, tla_id, name, from, new_owner, cause)))
    }

    fn dispatch_sub_account_transfer(
        &self,
        sub_account: AccountId,
        tla_id: AccountId,
        name: String,
        from: AccountId,
        new_owner: AccountId,
        cause: RotationCause,
    ) -> (r: Dispatch)
        ensures
            r == transfer_rotation(self.hos_extension, sub_account, tla_id, name, from, new_owner, cause),
    {
        Dispatch {
            call: Call::ForceTransfer {
                extension: self.hos_extension,
                wallet: sub_account,
                new_owner: Some(new_owner),
                cause,
                expected: Some(from),
            },
            tgas: TRANSFER_FORCE_TGAS,
            deposit: 0,
            callback: Callback::SubAccountTransferred { tla_id, name, from, to: new_owner, cause },
            callback_tgas: TRANSFER_CB_TGAS,
        }
    }

    // ---- recovery -----------------------------------------------------------------------------

    pub open spec fn recover_refusal(self, env: Env, tla_id: AccountId, name: Seq<char>, new_owner: AccountId, expected_owner: AccountId) -> Option<ContractError> {
        let key = crate::account::named_account_of(tla_id, name);
        let sub = self.sub_accounts@[key->0];
        if env.deposit != 1 {
            Some(ContractError::RequiresOneYocto)
        } else if !self.recovery_authorities@.has(env.predecessor) {
            Some(ContractError::OnlyRecoveryAuthority)
        } else if self.paused_at(env.now) {
            Some(ContractError::Paused)
        } else if crate::types::name_refusal(name) is Some {
            crate::types::name_refusal(name)
        } else if key is Some && self.reclaim_pending@.has(key->0) {
            Some(ContractError::ReclaimInProgress)
        } else if key is None || !self.sub_accounts@.has(key->0) {
            Some(ContractError::SubAccountNotFound)
        } else if sub.owner != expected_owner {
            Some(ContractError::OwnerMoved)
        } else if new_owner == sub.owner {
            Some(ContractError::SameOwner)
        } else if new_owner == key->0 {
            Some(ContractError::TransferToSubAccount)
        } else if self.sub_accounts@.has(new_owner) {
            Some(ContractError::TransferToRegisteredName)
        } else {
            None
        }
    }

    /// A recovery authority has a name rotated to a new owner, if the owner is the one it expects.
    pub fn recover_sub_account(
        &mut self,
        env: &Env,
        tla_id: AccountId,
        name: String,
        new_owner: AccountId,
        expected_owner: AccountId,
    ) -> (r: Result<Reply<Dispatch>, ContractError>)
        ensures
            *final(self) == *old(self),
            match old(self).recover_refusal(*env, tla_id, name@, new_owner, expected_owner) {
                Some(e) => r == Err::<Reply<Dispatch>, _>(e),
                None => {
                    &&& r matches Ok(reply)
                    &&& reply.events@ == Seq::<Event>::empty()
                    &&& reply.value == (Dispatch {
                        call: Call::ForceTransfer {
                            extension: old(self).hos_extension,
                            wallet: crate::account::sub_account_id(tla_id, name@),
                            new_owner: Some(new_owner),
                            cause: RotationCause::Recovery,
                            expected: None,
                        },
                        tgas: TRANSFER_FORCE_TGAS,
                        deposit: 0,
                        callback: Callback::SubAccountRecovered { tla_id, name, from: expected_owner, to: new_owner },
                        callback_tgas: TRANSFER_CB_TGAS,
                    })
                },
            },
    {
        assert_one_yocto(env)?;
        self.assert_recovery_authority(env)?;
        self.assert_not_paused(env)?;
        validate_name(name.as_str())?;
        let key = match named_account(&tla_id, name.as_str()) {
            Some(key) => key,
            None => {
                return Err(ContractError::SubAccountNotFound);
            },
        };
        if self.reclaim_pending.contains_key(&key) {
            return Err(ContractError::ReclaimInProgress);
        }
        let from = match self.sub_accounts.get(&key) {
            Some(sub) => sub.owner,
            None => {
                return Err(ContractError::SubAccountNotFound);
            },
        };
        if from != expected_owner {
            return Err(ContractError::OwnerMoved);
        }
        if new_owner == from {
            return Err(ContractError::SameOwner);
        }
        if new_owner == key {
            return Err(ContractError::TransferToSubAccount);
        }
        if self.sub_accounts.contains_key(&new_owner) {
            return Err(ContractError::TransferToRegisteredName);
        }
        Ok(
            quiet(
                Dispatch {
                    call: Call::ForceTransfer {
                        extension: self.hos_extension,
                        wallet: key,
                        new_owner: Some(new_owner),
                        cause: RotationCause::Recovery,
                        expected: None,
                    },
                    tgas: TRANSFER_FORCE_TGAS,
                    deposit: 0,
                    callback: Callback::SubAccountRecovered { tla_id, name, from, to: new_owner },
                    callback_tgas: TRANSFER_CB_TGAS,
                },
            ),
        )
    }

    /// The name has its new owner and payout account, and moved in the index of owners.
    pub open spec fn reassigned(self, before: TlaRegistry, key: AccountId, owner: AccountId, payout: AccountId) -> bool {
        let row = before.sub_accounts@[key];
        &&& before.sub_accounts@.has(key)
        &&& self.sub_accounts@ == before.sub_accounts@.insert(
            key,
            (SubAccountEntry { owner, payout_account: payout, ..row }),
        )
        &&& self.sub_accounts_by_owner@ == (if row.owner == owner {
            before.sub_accounts_by_owner@
        } else {
            crate::indexes::index_with(
                crate::indexes::index_without(before.sub_accounts_by_owner@, row.owner, key),
                owner,
                key,
            )
        })
        &&& before.indexed() ==> self.indexed()
    }

    /// A rotation that landed: the ledger follows, and the token's move is logged.
    pub open spec fn rotation_landed(
        self,
        before: TlaRegistry,
        events: Seq<Event>,
        env: Env,
        key: AccountId,
        from: AccountId,
        to: AccountId,
        payout: AccountId,
        memo: Option<String>,
        event: Event,
    ) -> bool {
        &&& events == seq![
            Event::NftTransfer { old_owner_id: from, new_owner_id: to, token_id: key, memo },
            event,
        ]
        &&& self.reassigned(before, key, to, payout)
        &&& self.recent_activity@ == crate::activity::feed_after(before.recent_activity@, event, env)
        &&& self == (TlaRegistry {
            sub_accounts: self.sub_accounts,
            sub_accounts_by_owner: self.sub_accounts_by_owner,
            recent_activity: self.recent_activity,
            ..before
        })
    }

    /// Where the payout account points after a rotation: at the new owner, except on deposit.
    pub open spec fn payout_after(self, key: AccountId, to: AccountId, cause: RotationCause) -> AccountId {
        if cause.moves_payout() {
            to
        } else {
            self.sub_accounts@[key].payout_account
        }
    }

    pub(crate) fn land_rotation(
        &mut self,
        env: &Env,
        key: &AccountId,
        from: AccountId,
        to: AccountId,
        payout: AccountId,
        memo: Option<String>,
        event: Event,
    ) -> (events: Vec<Event>)
        requires
            old(self).sub_accounts@.has(*key),
        ensures
            final(self).rotation_landed(*old(self), events@, *env, *key, from, to, payout, memo, event),
    {
        let mut events: Vec<Event> = Vec::new();
        self.sub_account_reassign(key, &to, &payout);
        events.push(Event::NftTransfer { old_owner_id: from, new_owner_id: to, token_id: *key, memo });
        self.emit_activity(env, event, &mut events);
        assert(events@ =~= seq![
            Event::NftTransfer { old_owner_id: from, new_owner_id: to, token_id: *key, memo },
            event,
        ]);
        events
    }

    /// The ledger follows a recovery, unless the name has moved on meanwhile.
    pub fn on_sub_account_recovered(
        &mut self,
        env: &Env,
        tla_id: AccountId,
        name: String,
        from: AccountId,
        to: AccountId,
        swapped: Result<bool, PromiseError>,
    ) -> (r: Vec<Event>)
        ensures
            ({
                let key = crate::account::named_account_of(tla_id, name@);
                if swapped == Ok::<bool, PromiseError>(true) && key is Some && old(self).owned_by(key->0, from) {
                    final(self).rotation_landed(
                        *old(self),
                        r@,
                        *env,
                        key->0,
                        from,
                        to,
                        to,
                        None,
                        Event::SubAccountRecovered { full_name: key->0, tla_id, from, to },
                    )
                } else {
                    &&& r@ == seq![
                        Event::TransferFailed { full_name: crate::account::full_name_of(tla_id, name), from, to },
                    ]
                    &&& *final(self) == *old(self)
                }
            }),
    {
        if rotated(&swapped) {
            if let Some(key) = named_account(&tla_id, name.as_str()) {
                if self.still_owned_by(&key, &from) {
                    return self.land_rotation(
                        env,
                        &key,
                        from,
                        to,
                        to,
                        None,
                        Event::SubAccountRecovered { full_name: key, tla_id, from, to },
                    );
                }
            }
        }
        logged((), Event::TransferFailed { full_name: FullName::of(tla_id, name), from, to }).events
    }

    /// The ledger follows a transfer, unless the name has moved on meanwhile.
    pub fn on_sub_account_transferred(
        &mut self,
        env: &Env,
        tla_id: AccountId,
        name: String,
        from: AccountId,
        to: AccountId,
        cause: RotationCause,
        swapped: Result<bool, PromiseError>,
    ) -> (r: Vec<Event>)
        ensures
            ({
                let key = crate::account::named_account_of(tla_id, name@);
                if swapped == Ok::<bool, PromiseError>(true) && key is Some && old(self).owned_by(key->0, from) {
                    final(self).rotation_landed(
                        *old(self),
                        r@,
                        *env,
                        key->0,
                        from,
                        to,
                        old(self).payout_after(key->0, to, cause),
                        None,
                        Event::SubAccountTransferred { full_name: key->0, tla_id, from, to },
                    )
                } else {
                    &&& r@ == seq![
                        Event::TransferFailed { full_name: crate::account::full_name_of(tla_id, name), from, to },
                    ]
                    &&& *final(self) == *old(self)
                }
            }),
    {
        if rotated(&swapped) {
            if let Some(key) = named_account(&tla_id, name.as_str()) {
                if let Some(sub) = self.sub_accounts.get(&key) {
                    if sub.owner == from {
                        let payout = if cause.repoints_payout() {
                            to
                        } else {
                            sub.payout_account
                        };
                        return self.land_rotation(
                            env,
                            &key,
                            from,
                            to,
                            payout,
                            None,
                            Event::SubAccountTransferred { full_name: key, tla_id, from, to },
                        );
                    }
                }
            }
        }
        logged((), Event::TransferFailed { full_name: FullName::of(tla_id, name), from, to }).events
    }
}

} // verus!
