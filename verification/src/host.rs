//! What a call sees of the chain, and what it asks of it.
use vstd::prelude::*;

use crate::account::AccountId;
use crate::common::{OperatingState, RotationCause};
use crate::events::{Event, LeaseIntent};

verus! {

/// What the chain says about a call.
#[derive(Clone, Copy, Debug)]
pub struct Env {
    pub predecessor: AccountId,
    pub current: AccountId,
    pub deposit: u128,
    pub now: u64,
    pub height: u64,
    pub balance: u128,
    pub storage_usage: u64,
    pub storage_byte_cost: u128,
}

impl Env {
    /// What the account may spend without falling under its storage stake.
    pub open spec fn spendable(self) -> u128 {
        crate::common::floored(
            self.balance as int,
            crate::common::capped_u128(self.storage_byte_cost * self.storage_usage) as int,
        ) as u128
    }

    pub fn available_balance(&self) -> (r: u128)
        ensures
            r == self.spendable(),
    {
        let usage: u128 = self.storage_usage as u128;
        let reserve: u128 = match self.storage_byte_cost.checked_mul(usage) {
            Some(n) => n,
            None => u128::MAX,
        };
        self.balance.saturating_sub(reserve)
    }
}

/// What a call answers: a value, and the events that it logged on the way.
#[derive(Debug)]
pub struct Reply<T> {
    pub value: T,
    pub events: Vec<Event>,
}

/// The answer of a call that logs one event.
pub fn logged<T>(value: T, event: Event) -> (r: Reply<T>)
    ensures
        r.value == value,
        r.events@ == seq![event],
{
    let mut events: Vec<Event> = Vec::new();
    events.push(event);
    assert(events@ =~= seq![event]);
    Reply { value, events }
}

/// The answer of a call that logs nothing.
pub fn quiet<T>(value: T) -> (r: Reply<T>)
    ensures
        r.value == value,
        r.events@ == Seq::<Event>::empty(),
{
    Reply { value, events: Vec::new() }
}

/// `owner` receives the lease, `payer` receives refunds. A sponsored mint sets them to different
/// accounts.
#[derive(Debug)]
pub struct MintSettlement {
    pub tla_id: AccountId,
    pub name: String,
    pub owner: AccountId,
    pub payer: AccountId,
    pub rent_yocto: u128,
    pub attached_yocto: u128,
    pub order_id: Option<String>,
}

/// A re-rent that waits for its account to be found empty.
#[derive(Debug)]
pub struct PendingReRent {
    pub tla_id: AccountId,
    pub name: String,
    pub owner: AccountId,
    pub payer: AccountId,
    pub payout_account: AccountId,
    pub rent: u128,
    pub attached: u128,
    pub sub_account: AccountId,
    pub order_id: Option<String>,
}

/// A token transfer that waits for its rotation.
#[derive(Debug)]
pub struct NftRotation {
    pub tla_id: AccountId,
    pub name: String,
    pub from: AccountId,
    pub to: AccountId,
    pub memo: Option<String>,
    pub cause: RotationCause,
}

/// A token transfer that goes on to call its receiver.
#[derive(Debug)]
pub struct NftTransferCall {
    pub tla_id: AccountId,
    pub name: String,
    pub from: AccountId,
    pub to: AccountId,
    pub memo: Option<String>,
    pub msg: String,
    pub cause: RotationCause,
}

/// A call into another contract.
#[derive(Debug)]
pub enum Call {
    CreateSubAccount {
        registrar: AccountId,
        name: String,
        owner: AccountId,
        payout_account: AccountId,
        lease_until_ns: u64,
    },
    ForceTransfer {
        extension: AccountId,
        wallet: AccountId,
        new_owner: Option<AccountId>,
        cause: RotationCause,
        expected: Option<AccountId>,
    },
    PushLease { extension: AccountId, wallet: AccountId, lease_until_ns: u64, state: OperatingState },
    RetractLease { extension: AccountId, wallet: AccountId, ends_at: u64 },
    RestoreLease { extension: AccountId, wallet: AccountId, lease_until_ns: u64 },
    SetPayout { extension: AccountId, wallet: AccountId, payout_account: AccountId, owner: AccountId },
    SweepNear { extension: AccountId, wallet: AccountId },
    SweepFt { extension: AccountId, wallet: AccountId, token: AccountId, caller: AccountId },
    FtBalances { tokens: Vec<AccountId>, account: AccountId },
    NftOnTransfer {
        receiver: AccountId,
        sender_id: AccountId,
        previous_owner_id: AccountId,
        token_id: AccountId,
        msg: String,
    },
    Transfer { to: AccountId },
    /// Deploys `code`, then migrates on whatever gas is left beyond `reserved_tgas`.
    DeployAndMigrate { account: AccountId, code: Vec<u8>, reserved_tgas: u64 },
    DeleteKey { account: AccountId, public_key: String },
}

/// What is to hear of a call's outcome.
#[derive(Debug)]
pub enum Callback {
    ClaimRefundSettled { caller: AccountId, amount: u128 },
    SubAccountCreated(MintSettlement),
    SubAccountCreatedPaid(MintSettlement),
    SubAccountReRented(MintSettlement),
    ReRentBalancesChecked(PendingReRent),
    PayoutSet {
        tla_id: AccountId,
        name: String,
        new_payout_account: AccountId,
        expected_owner: AccountId,
    },
    SubAccountRenewed {
        tla_id: AccountId,
        name: String,
        new_expires_at: u64,
        payer: AccountId,
        rent: u128,
    },
    LeaseSynced { full_name: AccountId, intent: LeaseIntent },
    RetractionScheduled { full_name: AccountId, by: AccountId },
    RetractionCanceled { full_name: AccountId, by: AccountId },
    BalancesChecked { tla_id: AccountId, name: String, destination: AccountId },
    ReclaimFinalized { tla_id: AccountId, name: String, destination: AccountId },
    TransferBalancesChecked {
        sub_account: AccountId,
        tla_id: AccountId,
        name: String,
        from: AccountId,
        new_owner: AccountId,
        cause: RotationCause,
    },
    SubAccountTransferred {
        tla_id: AccountId,
        name: String,
        from: AccountId,
        to: AccountId,
        cause: RotationCause,
    },
    SubAccountRecovered { tla_id: AccountId, name: String, from: AccountId, to: AccountId },
    NftBalancesChecked { sub_account: AccountId, rotation: NftRotation },
    NftCallBalancesChecked { sub_account: AccountId, call: NftTransferCall },
    NftRotationResolved(NftRotation),
    NftRotationResolvedCall(NftTransferCall),
    NftResolveTransfer { tla_id: AccountId, name: String, from: AccountId, to: AccountId },
    NftReturnResolved { tla_id: AccountId, name: String, from: AccountId, to: AccountId },
    AfterSeal { public_key: String, by: AccountId },
    Nobody,
}

/// A call to make, its gas in teragas and its deposit in yocto, and the callback with its own gas.
#[derive(Debug)]
pub struct Dispatch {
    pub call: Call,
    pub tgas: u64,
    pub deposit: u128,
    pub callback: Callback,
    pub callback_tgas: u64,
}

/// Either something further to call or the end of the chain.
#[derive(Debug)]
pub enum PromiseOrValue<T> {
    Promise(Dispatch),
    Value(T),
}

} // verus!
