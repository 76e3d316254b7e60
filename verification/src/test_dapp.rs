//! An application for trying leased accounts out against.
use vstd::prelude::*;

use crate::account::AccountId;
use crate::host::Env;
use crate::ordered::OrderedMap;

verus! {

/// Why a call on the application is refused.
#[derive(PartialEq, Eq, Structural, Clone, Copy, Debug)]
pub enum DappError {
    UnknownToken,
    ReceiverRejected,
}

impl DappError {
    pub fn message(&self) -> (r: &'static str)
        ensures
            r@ == (match *self {
                DappError::UnknownToken => "unknown_token"@,
                DappError::ReceiverRejected => "receiver_rejected"@,
            }),
    {
        match self {
            DappError::UnknownToken => "unknown_token",
            DappError::ReceiverRejected => "receiver_rejected",
        }
    }
}

pub struct TestDapp {
    pub token: AccountId,
    pub positions: OrderedMap<AccountId, u128>,
    pub actions: OrderedMap<AccountId, u32>,
}

impl TestDapp {
    pub fn new(token: AccountId) -> (r: TestDapp)
        ensures
            r.token == token,
            r.positions@ == crate::ordered::OrderedView::<AccountId, u128>::empty(),
            r.actions@ == crate::ordered::OrderedView::<AccountId, u32>::empty(),
    {
        TestDapp { token, positions: OrderedMap::new(), actions: OrderedMap::new() }
    }

    pub open spec fn position(self, account_id: AccountId) -> u128 {
        crate::totals::amount_of(self.positions@, account_id)
    }

    pub open spec fn session_actions(self, account_id: AccountId) -> u32 {
        match self.actions@.get(account_id) {
            Some(n) => n,
            None => 0,
        }
    }

    /// Books what the token says it brought, and keeps all of it.
    pub fn ft_on_transfer(&mut self, env: &Env, sender_id: AccountId, amount: u128, msg: String) -> (r: Result<
        u128,
        DappError,
    >)
        ensures
            if env.predecessor != old(self).token {
                r == Err::<u128, _>(DappError::UnknownToken) && *final(self) == *old(self)
            } else {
                &&& r == Ok::<u128, DappError>(0)
                &&& *final(self) == (TestDapp { positions: final(self).positions, ..*old(self) })
                &&& final(self).positions@ == old(self).positions@.insert(
                    sender_id,
                    crate::common::capped_u128(old(self).position(sender_id) + amount),
                )
            },
    {
        if env.predecessor != self.token {
            return Err(DappError::UnknownToken);
        }
        let current: u128 = self.get_position(sender_id);
        self.positions.insert(sender_id, current.saturating_add(amount));
        Ok(0)
    }

    /// `msg` drives the branch under test: "return" asks for the token back, "panic" fails the
    /// receiver outright, anything else keeps it.
    pub fn nft_on_transfer(
        &mut self,
        sender_id: AccountId,
        previous_owner_id: AccountId,
        token_id: String,
        msg: String,
    ) -> (r: Result<bool, DappError>)
        requires
            msg@ != "panic"@ && msg@ != "return"@ ==> old(self).session_actions(previous_owner_id) < u32::MAX,
        ensures
            if msg@ == "panic"@ {
                r == Err::<bool, _>(DappError::ReceiverRejected) && *final(self) == *old(self)
            } else if msg@ == "return"@ {
                r == Ok::<bool, DappError>(true) && *final(self) == *old(self)
            } else {
                &&& r == Ok::<bool, DappError>(false)
                &&& *final(self) == (TestDapp { actions: final(self).actions, ..*old(self) })
                &&& final(self).actions@ == old(self).actions@.insert(
                    previous_owner_id,
                    (old(self).session_actions(previous_owner_id) + 1) as u32,
                )
            },
    {
        if msg == "panic".to_owned() {
            return Err(DappError::ReceiverRejected);
        }
        if msg == "return".to_owned() {
            return Ok(true);
        }
        let current: u32 = self.get_session_actions(previous_owner_id);
        self.actions.insert(previous_owner_id, current + 1);
        Ok(false)
    }

    pub fn get_position(&self, account_id: AccountId) -> (r: u128)
        ensures
            r == self.position(account_id),
    {
        match self.positions.get(&account_id) {
            Some(amount) => *amount,
            None => 0,
        }
    }

    pub fn record_session_action(&mut self, env: &Env)
        ensures
            *final(self) == (TestDapp { actions: final(self).actions, ..*old(self) }),
            final(self).actions@ == old(self).actions@.insert(
                env.predecessor,
                if old(self).session_actions(env.predecessor) == u32::MAX {
                    u32::MAX
                } else {
                    (old(self).session_actions(env.predecessor) + 1) as u32
                },
            ),
    {
        let current: u32 = self.get_session_actions(env.predecessor);
        self.actions.insert(env.predecessor, current.saturating_add(1));
    }

    pub fn get_session_actions(&self, account_id: AccountId) -> (r: u32)
        ensures
            r == self.session_actions(account_id),
    {
        match self.actions.get(&account_id) {
            Some(n) => *n,
            None => 0,
        }
    }
}

} // verus!
