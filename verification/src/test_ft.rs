//! A fungible token for trying the registry out against.
use vstd::prelude::*;

use crate::account::AccountId;
use crate::common::{PromiseError, FT_STORAGE_DEPOSIT_YOCTO};
use crate::host::Env;
use crate::ordered::OrderedMap;

verus! {

pub const ON_TRANSFER_TGAS: u64 = 40;

pub const RESOLVE_TGAS: u64 = 15;

/// Why a call on the token is refused.
#[derive(PartialEq, Eq, Structural, Clone, Copy, Debug)]
pub enum FtError {
    RequiresOneYocto,
    ReceiverNotRegistered,
    NotEnoughBalance,
    StorageDepositRefused,
}

impl FtError {
    pub fn message(&self) -> (r: &'static str)
        ensures
            r@ == (match *self {
                FtError::RequiresOneYocto => "requires_one_yocto"@,
                FtError::ReceiverNotRegistered => "receiver_not_registered"@,
                FtError::NotEnoughBalance => "not_enough_balance"@,
                FtError::StorageDepositRefused => "storage_deposit_refused"@,
            }),
    {
        match self {
            FtError::RequiresOneYocto => "requires_one_yocto",
            FtError::ReceiverNotRegistered => "receiver_not_registered",
            FtError::NotEnoughBalance => "not_enough_balance",
            FtError::StorageDepositRefused => "storage_deposit_refused",
        }
    }
}

/// The call that a transfer goes on to make: `ft_on_transfer` on the receiver, with
/// `ft_resolve_transfer` to follow.
#[derive(Debug)]
pub struct OnTransfer {
    pub receiver_id: AccountId,
    pub sender_id: AccountId,
    pub amount: u128,
    pub msg: String,
    pub tgas: u64,
    pub resolve_tgas: u64,
}

pub struct TestFt {
    pub balances: OrderedMap<AccountId, u128>,
    pub registered: OrderedMap<AccountId, bool>,
    pub total_supply: u128,
    pub refuse_storage_deposit: bool,
}

/// The balances once `amount` has gone from one account to another.
pub open spec fn moved(
    balances: crate::ordered::OrderedView<AccountId, u128>,
    from: AccountId,
    to: AccountId,
    amount: u128,
) -> crate::ordered::OrderedView<AccountId, u128> {
    let paid = balances.insert(
        from,
        crate::common::floored(crate::totals::amount_of(balances, from) as int, amount as int) as u128,
    );
    paid.insert(to, crate::common::capped_u128(crate::totals::amount_of(paid, to) + amount))
}

/// A transfer moves the token and makes none of it: what all accounts hold together stays the same.
pub proof fn a_transfer_keeps_the_total(
    balances: crate::ordered::OrderedView<AccountId, u128>,
    from: AccountId,
    to: AccountId,
    amount: u128,
)
    requires
        balances.consistent(),
        amount <= crate::totals::amount_of(balances, from),
        crate::totals::total_of(balances) <= u128::MAX,
    ensures
        crate::totals::total_of(moved(balances, from, to, amount)) == crate::totals::total_of(balances),
{
    let left = (crate::totals::amount_of(balances, from) - amount) as u128;
    let paid = balances.insert(from, left);
    crate::totals::writing_moves_the_total(balances, from, left);
    crate::totals::no_amount_is_over_the_total(paid, to);
    let got = (crate::totals::amount_of(paid, to) + amount) as u128;
    crate::totals::writing_moves_the_total(paid, to, got);
}

impl TestFt {
    pub fn new(owner: AccountId, total_supply: u128) -> (r: TestFt)
        ensures
            r.balances@ == crate::ordered::OrderedView::<AccountId, u128>::empty().insert(owner, total_supply),
            r.registered@ == crate::ordered::OrderedView::<AccountId, bool>::empty().insert(owner, true),
            r.total_supply == total_supply,
            !r.refuse_storage_deposit,
    {
        let mut balances: OrderedMap<AccountId, u128> = OrderedMap::new();
        balances.insert(owner, total_supply);
        let mut registered: OrderedMap<AccountId, bool> = OrderedMap::new();
        registered.insert(owner, true);
        TestFt { balances, registered, total_supply, refuse_storage_deposit: false }
    }

    fn balance(&self, account_id: &AccountId) -> (r: u128)
        ensures
            r == crate::totals::amount_of(self.balances@, *account_id),
    {
        match self.balances.get(account_id) {
            Some(amount) => *amount,
            None => 0,
        }
    }

    pub fn ft_balance_of(&self, account_id: AccountId) -> (r: u128)
        ensures
            r == crate::totals::amount_of(self.balances@, account_id),
    {
        self.balance(&account_id)
    }

    pub fn ft_total_supply(&self) -> (r: u128)
        ensures
            r == self.total_supply,
    {
        self.total_supply
    }

    /// Why a transfer is refused, if it is.
    pub open spec fn transfer_refusal(self, env: Env, receiver_id: AccountId, amount: u128) -> Option<FtError> {
        if env.deposit != 1 {
            Some(FtError::RequiresOneYocto)
        } else if !self.registered@.has(receiver_id) {
            Some(FtError::ReceiverNotRegistered)
        } else if crate::totals::amount_of(self.balances@, env.predecessor) < amount {
            Some(FtError::NotEnoughBalance)
        } else {
            None
        }
    }

    pub fn ft_transfer(&mut self, env: &Env, receiver_id: AccountId, amount: u128, memo: Option<String>) -> (r:
        Result<(), FtError>)
        ensures
            match old(self).transfer_refusal(*env, receiver_id, amount) {
                Some(e) => r == Err::<(), _>(e) && *final(self) == *old(self),
                None => {
                    &&& r is Ok
                    &&& *final(self) == (TestFt { balances: final(self).balances, ..*old(self) })
                    &&& final(self).balances@ == moved(
                        old(self).balances@,
                        env.predecessor,
                        receiver_id,
                        amount,
                    )
                },
            },
    {
        if env.deposit != 1 {
            return Err(FtError::RequiresOneYocto);
        }
        let sender = env.predecessor;
        if !self.registered.contains_key(&receiver_id) {
            return Err(FtError::ReceiverNotRegistered);
        }
        let sender_balance: u128 = self.balance(&sender);
        if sender_balance < amount {
            return Err(FtError::NotEnoughBalance);
        }
        self.balances.insert(sender, sender_balance.saturating_sub(amount));
        let receiver_balance: u128 = self.balance(&receiver_id);
        self.balances.insert(receiver_id, receiver_balance.saturating_add(amount));
        Ok(())
    }

    /// Transfers, then tells the receiver.
    pub fn ft_transfer_call(
        &mut self,
        env: &Env,
        receiver_id: AccountId,
        amount: u128,
        memo: Option<String>,
        msg: String,
    ) -> (r: Result<OnTransfer, FtError>)
        ensures
            match old(self).transfer_refusal(*env, receiver_id, amount) {
                Some(e) => r == Err::<OnTransfer, _>(e) && *final(self) == *old(self),
                None => {
                    &&& r == Ok::<_, FtError>(
                        OnTransfer {
                            receiver_id,
                            sender_id: env.predecessor,
                            amount,
                            msg,
                            tgas: ON_TRANSFER_TGAS,
                            resolve_tgas: RESOLVE_TGAS,
                        },
                    )
                    &&& *final(self) == (TestFt { balances: final(self).balances, ..*old(self) })
                    &&& final(self).balances@ == moved(
                        old(self).balances@,
                        env.predecessor,
                        receiver_id,
                        amount,
                    )
                },
            },
    {
        self.ft_transfer(env, receiver_id, amount, memo)?;
        Ok(
            OnTransfer {
                receiver_id,
                sender_id: env.predecessor,
                amount,
                msg,
                tgas: ON_TRANSFER_TGAS,
                resolve_tgas: RESOLVE_TGAS,
            },
        )
    }

    /// What a receiver gives back: what it says it left unused, all of it if it failed, and never
    /// more than it was sent or than it still holds.
    pub open spec fn given_back(self, receiver_id: AccountId, amount: u128, result: Result<u128, PromiseError>) -> u128 {
        let unused = match result {
            Ok(value) => if value < amount {
                value
            } else {
                amount
            },
            Err(_) => amount,
        };
        let held = crate::totals::amount_of(self.balances@, receiver_id);
        if unused < held {
            unused
        } else {
            held
        }
    }

    /// Takes back what the receiver did not use, and answers what it used.
    pub fn ft_resolve_transfer(
        &mut self,
        sender_id: AccountId,
        receiver_id: AccountId,
        amount: u128,
        result: Result<u128, PromiseError>,
    ) -> (r: u128)
        ensures
            *final(self) == (TestFt { balances: final(self).balances, ..*old(self) }),
            ({
                let refund = old(self).given_back(receiver_id, amount, result);
                &&& r == amount - refund
                &&& if amount == 0 || result == Ok::<u128, PromiseError>(0) {
                    final(self).balances == old(self).balances
                } else {
                    final(self).balances@ == moved(old(self).balances@, receiver_id, sender_id, refund)
                }
            }),
    {
        let unused: u128 = match result {
            Ok(value) => {
                if value < amount {
                    value
                } else {
                    amount
                }
            },
            Err(_) => amount,
        };
        if unused == 0 {
            return amount;
        }
        let receiver_balance: u128 = self.balance(&receiver_id);
        let refund: u128 = if unused < receiver_balance {
            unused
        } else {
            receiver_balance
        };
        self.balances.insert(receiver_id, receiver_balance.saturating_sub(refund));
        let sender_balance: u128 = self.balance(&sender_id);
        self.balances.insert(sender_id, sender_balance.saturating_add(refund));
        amount.saturating_sub(refund)
    }

    pub fn storage_deposit(&mut self, env: &Env, account_id: Option<AccountId>, registration_only: Option<bool>) -> (r:
        Result<(), FtError>)
        ensures
            if old(self).refuse_storage_deposit {
                r == Err::<(), _>(FtError::StorageDepositRefused) && *final(self) == *old(self)
            } else {
                &&& r is Ok
                &&& *final(self) == (TestFt { registered: final(self).registered, ..*old(self) })
                &&& final(self).registered@ == old(self).registered@.insert(
                    match account_id {
                        Some(id) => id,
                        None => env.predecessor,
                    },
                    true,
                )
            },
    {
        if self.refuse_storage_deposit {
            return Err(FtError::StorageDepositRefused);
        }
        let target = match account_id {
            Some(id) => id,
            None => env.predecessor,
        };
        self.registered.insert(target, true);
        Ok(())
    }

    pub fn storage_balance_of(&self, account_id: AccountId) -> (r: Option<u128>)
        ensures
            r == (if self.registered@.has(account_id) {
                Some(FT_STORAGE_DEPOSIT_YOCTO)
            } else {
                None
            }),
    {
        if self.registered.contains_key(&account_id) {
            Some(FT_STORAGE_DEPOSIT_YOCTO)
        } else {
            None
        }
    }

    pub fn is_registered(&self, account_id: AccountId) -> (r: bool)
        ensures
            r == self.registered@.has(account_id),
    {
        self.registered.contains_key(&account_id)
    }

    pub fn set_refuse_storage_deposit(&mut self, value: bool)
        ensures
            *final(self) == (TestFt { refuse_storage_deposit: value, ..*old(self) }),
    {
        self.refuse_storage_deposit = value;
    }

    pub fn mint(&mut self, account_id: AccountId, amount: u128)
        ensures
            *final(self) == (TestFt {
                balances: final(self).balances,
                registered: final(self).registered,
                total_supply: crate::common::capped_u128(old(self).total_supply + amount),
                ..*old(self)
            }),
            final(self).balances@ == old(self).balances@.insert(
                account_id,
                crate::common::capped_u128(crate::totals::amount_of(old(self).balances@, account_id) + amount),
            ),
            if old(self).registered@.has(account_id) {
                final(self).registered == old(self).registered
            } else {
                final(self).registered@ == old(self).registered@.insert(account_id, true)
            },
    {
        if !self.registered.contains_key(&account_id) {
            self.registered.insert(account_id, true);
        }
        let current: u128 = self.balance(&account_id);
        self.balances.insert(account_id, current.saturating_add(amount));
        self.total_supply = self.total_supply.saturating_add(amount);
    }
}

/// As long as the supply fits, the accounts hold exactly the supply: minting adds to both alike.
pub proof fn minting_adds_to_the_supply(
    balances: crate::ordered::OrderedView<AccountId, u128>,
    total_supply: u128,
    account_id: AccountId,
    amount: u128,
)
    requires
        balances.consistent(),
        crate::totals::total_of(balances) == total_supply,
        total_supply + amount <= u128::MAX,
    ensures
        crate::totals::total_of(
            balances.insert(
                account_id,
                crate::common::capped_u128(crate::totals::amount_of(balances, account_id) + amount),
            ),
        ) == total_supply + amount,
{
    crate::totals::no_amount_is_over_the_total(balances, account_id);
    crate::totals::writing_moves_the_total(
        balances,
        account_id,
        (crate::totals::amount_of(balances, account_id) + amount) as u128,
    );
}

} // verus!
