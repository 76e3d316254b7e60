//! A staking pool for trying leased accounts out against.
use vstd::prelude::*;

use crate::account::AccountId;
use crate::host::Env;
use crate::ordered::OrderedMap;

verus! {

/// Why a call on the pool is refused.
#[derive(PartialEq, Eq, Structural, Clone, Copy, Debug)]
pub enum PoolError {
    NoDeposit,
    NotEnoughStaked,
    NotEnoughUnstaked,
}

impl PoolError {
    pub fn message(&self) -> (r: &'static str)
        ensures
            r@ == (match *self {
                PoolError::NoDeposit => "no_deposit"@,
                PoolError::NotEnoughStaked => "not_enough_staked"@,
                PoolError::NotEnoughUnstaked => "not_enough_unstaked"@,
            }),
    {
        match self {
            PoolError::NoDeposit => "no_deposit",
            PoolError::NotEnoughStaked => "not_enough_staked",
            PoolError::NotEnoughUnstaked => "not_enough_unstaked",
        }
    }
}

pub struct TestStakingPool {
    pub staked: OrderedMap<AccountId, u128>,
    pub unstaked: OrderedMap<AccountId, u128>,
}

fn amount_in(map: &OrderedMap<AccountId, u128>, who: &AccountId) -> (r: u128)
    ensures
        r == crate::totals::amount_of(map@, *who),
{
    match map.get(who) {
        Some(amount) => *amount,
        None => 0,
    }
}

impl TestStakingPool {
    pub fn new() -> (r: TestStakingPool)
        ensures
            r.staked@ == crate::ordered::OrderedView::<AccountId, u128>::empty(),
            r.unstaked@ == crate::ordered::OrderedView::<AccountId, u128>::empty(),
    {
        TestStakingPool { staked: OrderedMap::new(), unstaked: OrderedMap::new() }
    }

    pub open spec fn staked_by(self, who: AccountId) -> u128 {
        crate::totals::amount_of(self.staked@, who)
    }

    pub open spec fn unstaked_by(self, who: AccountId) -> u128 {
        crate::totals::amount_of(self.unstaked@, who)
    }

    /// Stakes the deposit.
    pub fn deposit_and_stake(&mut self, env: &Env) -> (r: Result<(), PoolError>)
        ensures
            if env.deposit == 0 {
                r == Err::<(), _>(PoolError::NoDeposit) && *final(self) == *old(self)
            } else {
                &&& r is Ok
                &&& final(self).unstaked == old(self).unstaked
                &&& final(self).staked@ == old(self).staked@.insert(
                    env.predecessor,
                    crate::common::capped_u128(old(self).staked_by(env.predecessor) + env.deposit),
                )
            },
    {
        if env.deposit == 0 {
            return Err(PoolError::NoDeposit);
        }
        let who = env.predecessor;
        let current: u128 = amount_in(&self.staked, &who);
        self.staked.insert(who, current.saturating_add(env.deposit));
        Ok(())
    }

    /// Sets staked tokens aside for a withdrawal.
    pub fn unstake(&mut self, env: &Env, amount: u128) -> (r: Result<(), PoolError>)
        ensures
            if old(self).staked_by(env.predecessor) < amount {
                r == Err::<(), _>(PoolError::NotEnoughStaked) && *final(self) == *old(self)
            } else {
                &&& r is Ok
                &&& final(self).staked@ == old(self).staked@.insert(
                    env.predecessor,
                    (old(self).staked_by(env.predecessor) - amount) as u128,
                )
                &&& final(self).unstaked@ == old(self).unstaked@.insert(
                    env.predecessor,
                    crate::common::capped_u128(old(self).unstaked_by(env.predecessor) + amount),
                )
            },
    {
        let who = env.predecessor;
        let staked: u128 = amount_in(&self.staked, &who);
        if staked < amount {
            return Err(PoolError::NotEnoughStaked);
        }
        self.staked.insert(who, staked - amount);
        let pending: u128 = amount_in(&self.unstaked, &who);
        self.unstaked.insert(who, pending.saturating_add(amount));
        Ok(())
    }

    /// Takes tokens that were set aside out, and answers to whom how much goes.
    pub fn withdraw(&mut self, env: &Env, amount: u128) -> (r: Result<(AccountId, u128), PoolError>)
        ensures
            if old(self).unstaked_by(env.predecessor) < amount {
                r == Err::<(AccountId, u128), _>(PoolError::NotEnoughUnstaked) && *final(self) == *old(self)
            } else {
                &&& r == Ok::<_, PoolError>((env.predecessor, amount))
                &&& final(self).staked == old(self).staked
                &&& final(self).unstaked@ == old(self).unstaked@.insert(
                    env.predecessor,
                    (old(self).unstaked_by(env.predecessor) - amount) as u128,
                )
            },
    {
        let who = env.predecessor;
        let pending: u128 = amount_in(&self.unstaked, &who);
        if pending < amount {
            return Err(PoolError::NotEnoughUnstaked);
        }
        self.unstaked.insert(who, pending - amount);
        Ok((who, amount))
    }

    pub fn get_account_staked_balance(&self, account_id: AccountId) -> (r: u128)
        ensures
            r == self.staked_by(account_id),
    {
        amount_in(&self.staked, &account_id)
    }

    pub fn get_account_unstaked_balance(&self, account_id: AccountId) -> (r: u128)
        ensures
            r == self.unstaked_by(account_id),
    {
        amount_in(&self.unstaked, &account_id)
    }

    pub fn get_account_total_balance(&self, account_id: AccountId) -> (r: u128)
        ensures
            r == crate::common::capped_u128(self.staked_by(account_id) + self.unstaked_by(account_id)),
    {
        let staked: u128 = amount_in(&self.staked, &account_id);
        let pending: u128 = amount_in(&self.unstaked, &account_id);
        staked.saturating_add(pending)
    }
}

/// Unstaking moves tokens within the pool: an account's total stays the same, and no other account
/// is touched.
pub proof fn unstaking_keeps_the_total(before: TestStakingPool, after: TestStakingPool, who: AccountId, amount: u128, other: AccountId)
    requires
        amount <= before.staked_by(who),
        before.staked_by(who) + before.unstaked_by(who) <= u128::MAX,
        after.staked@ == before.staked@.insert(who, (before.staked_by(who) - amount) as u128),
        after.unstaked@ == before.unstaked@.insert(
            who,
            crate::common::capped_u128(before.unstaked_by(who) + amount),
        ),
        other != who,
    ensures
        after.staked_by(who) + after.unstaked_by(who) == before.staked_by(who) + before.unstaked_by(who),
        after.staked_by(other) == before.staked_by(other),
        after.unstaked_by(other) == before.unstaked_by(other),
{
}

} // verus!
