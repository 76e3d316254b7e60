//! What each call sends along: how much it may burn, what is attached, and what is kept for the answer.
use vstd::prelude::*;

use crate::account::AccountId;
use crate::common::{PromiseError, RotationCause};
use crate::deployer::{DeployerDispatch, DeployerError, ImplDeployer};
use crate::error::ContractError;
use crate::host::{Dispatch, Env, NftRotation, NftTransferCall, PromiseOrValue, Reply};
use crate::registry::TlaRegistry;

verus! {

/// What a call may burn, what is attached to it, and what is kept for its answer.
pub open spec fn sends(d: Dispatch, tgas: int, deposit: int, kept: int) -> bool {
    d.tgas == tgas && d.deposit == deposit && d.callback_tgas == kept
}

/// Balances are asked for first wherever a token is gated, unless the name comes from a venue.
pub open spec fn asked_first(reg: TlaRegistry, from: AccountId) -> bool {
    reg.ft_allowlist@.len() > 0 && !reg.venues@.has(from)
}

/// An upgrade asks for no answer.
pub proof fn an_upgrade_asks_for_no_answer(
    registry: &mut TlaRegistry,
    env: Env,
    code: Vec<u8>,
    r: Result<Reply<Dispatch>, ContractError>,
)
    requires
        call_ensures(TlaRegistry::upgrade, (registry, &env, code), r),
    ensures
        r matches Ok(reply) ==> sends(reply.value, 0, 0, 0),
        r matches Ok(reply) ==> reply.value.callback is Nobody,
{
}

/// So does one whose digest is given.
pub proof fn an_upgrade_by_digest_asks_for_no_answer(
    registry: &mut TlaRegistry,
    env: Env,
    code: Vec<u8>,
    digest: [u8; 32],
    r: Result<Reply<Dispatch>, ContractError>,
)
    requires
        call_ensures(TlaRegistry::upgrade_with_digest, (registry, &env, code, digest), r),
    ensures
        r matches Ok(reply) ==> sends(reply.value, 0, 0, 0),
        r matches Ok(reply) ==> reply.value.callback is Nobody,
{
}

/// A seal keeps five teragas for its answer.
pub proof fn what_a_seal_may_burn(
    registry: &mut TlaRegistry,
    env: Env,
    public_key: String,
    r: Result<Reply<Dispatch>, ContractError>,
)
    requires
        call_ensures(TlaRegistry::seal, (registry, &env, public_key), r),
    ensures
        r matches Ok(reply) ==> sends(reply.value, 0, 0, 5),
{
}

/// A notice gives the wallet twenty teragas and keeps ten for its answer.
pub proof fn what_a_notice_may_burn(
    registry: &mut TlaRegistry,
    env: Env,
    tla_id: AccountId,
    name: String,
    r: Result<Reply<Dispatch>, ContractError>,
)
    requires
        call_ensures(TlaRegistry::schedule_retraction, (registry, &env, tla_id, name), r),
    ensures
        r matches Ok(reply) ==> sends(reply.value, 20, 0, 10),
{
}

/// So does the end of a notice.
pub proof fn what_the_end_of_a_notice_may_burn(
    registry: &mut TlaRegistry,
    env: Env,
    tla_id: AccountId,
    name: String,
    r: Result<Reply<Dispatch>, ContractError>,
)
    requires
        call_ensures(TlaRegistry::cancel_retraction, (registry, &env, tla_id, name), r),
    ensures
        r matches Ok(reply) ==> sends(reply.value, 20, 0, 10),
{
}

/// A transfer that has to ask for balances first gives each token six teragas and keeps a hundred and eighty; one that need not gives the wallet forty five and keeps twenty.
pub proof fn what_a_transfer_may_burn(
    registry: &mut TlaRegistry,
    env: Env,
    tla_id: AccountId,
    name: String,
    new_owner: AccountId,
    r: Result<Reply<Dispatch>, ContractError>,
)
    requires
        call_ensures(TlaRegistry::transfer_sub_account, (registry, &env, tla_id, name, new_owner), r),
    ensures
        r matches Ok(reply) ==> if asked_first(*old(registry), env.predecessor) {
            sends(reply.value, 6, 0, 180)
        } else {
            sends(reply.value, 45, 0, 20)
        },
{
}

/// A transfer that goes on gives the wallet forty five teragas and keeps twenty.
pub proof fn what_a_transfer_over_an_empty_account_may_burn(
    registry: &mut TlaRegistry,
    sub_account: AccountId,
    tla_id: AccountId,
    name: String,
    from: AccountId,
    new_owner: AccountId,
    cause: RotationCause,
    allowlist: Vec<AccountId>,
    balances: Vec<Result<u128, PromiseError>>,
    r: Reply<Result<Dispatch, ContractError>>,
)
    requires
        call_ensures(TlaRegistry::on_transfer_balances_checked, (registry, sub_account, tla_id, name, from, new_owner, cause, allowlist, balances), r),
    ensures
        r.value matches Ok(d) ==> sends(d, 45, 0, 20),
{
}

/// A recovery gives the wallet forty five teragas and keeps twenty.
pub proof fn what_a_recovery_may_burn(
    registry: &mut TlaRegistry,
    env: Env,
    tla_id: AccountId,
    name: String,
    new_owner: AccountId,
    expected_owner: AccountId,
    r: Result<Reply<Dispatch>, ContractError>,
)
    requires
        call_ensures(TlaRegistry::recover_sub_account, (registry, &env, tla_id, name, new_owner, expected_owner), r),
    ensures
        r matches Ok(reply) ==> sends(reply.value, 45, 0, 20),
{
}

/// A token may burn what a transfer may.
pub proof fn what_a_token_may_burn(
    registry: &mut TlaRegistry,
    env: Env,
    receiver_id: AccountId,
    token_id: String,
    approval_id: Option<u64>,
    memo: Option<String>,
    r: Result<Reply<Dispatch>, ContractError>,
)
    requires
        call_ensures(TlaRegistry::nft_transfer, (registry, &env, receiver_id, token_id, approval_id, memo), r),
    ensures
        r matches Ok(reply) ==> if asked_first(*old(registry), env.predecessor) {
            sends(reply.value, 6, 0, 180)
        } else {
            sends(reply.value, 45, 0, 20)
        },
{
}

/// A token with a message keeps a hundred and twenty five teragas where a transfer keeps twenty.
pub proof fn what_a_token_with_a_message_may_burn(
    registry: &mut TlaRegistry,
    env: Env,
    receiver_id: AccountId,
    token_id: String,
    approval_id: Option<u64>,
    memo: Option<String>,
    msg: String,
    r: Result<Reply<Dispatch>, ContractError>,
)
    requires
        call_ensures(TlaRegistry::nft_transfer_call, (registry, &env, receiver_id, token_id, approval_id, memo, msg), r),
    ensures
        r matches Ok(reply) ==> if asked_first(*old(registry), env.predecessor) {
            sends(reply.value, 6, 0, 180)
        } else {
            sends(reply.value, 45, 0, 125)
        },
{
}

/// A token that goes on gives the wallet forty five teragas and keeps twenty.
pub proof fn what_a_token_over_an_empty_account_may_burn(
    registry: &mut TlaRegistry,
    sub_account: AccountId,
    rotation: NftRotation,
    allowlist: Vec<AccountId>,
    balances: Vec<Result<u128, PromiseError>>,
    r: Reply<Result<Dispatch, ContractError>>,
)
    requires
        call_ensures(TlaRegistry::nft_on_balances_checked, (registry, sub_account, rotation, allowlist, balances), r),
    ensures
        r.value matches Ok(d) ==> sends(d, 45, 0, 20),
{
}

/// One with a message keeps a hundred and twenty five.
pub proof fn what_a_call_over_an_empty_account_may_burn(
    registry: &mut TlaRegistry,
    sub_account: AccountId,
    call: NftTransferCall,
    allowlist: Vec<AccountId>,
    balances: Vec<Result<u128, PromiseError>>,
    r: Reply<Result<Dispatch, ContractError>>,
)
    requires
        call_ensures(TlaRegistry::nft_on_call_balances_checked, (registry, sub_account, call, allowlist, balances), r),
    ensures
        r.value matches Ok(d) ==> sends(d, 45, 0, 125),
{
}

/// The receiver of a token gets twenty five teragas, and eighty are kept for its answer.
pub proof fn what_a_receiver_may_burn(
    registry: &mut TlaRegistry,
    env: Env,
    call: NftTransferCall,
    swapped: Result<bool, PromiseError>,
    r: Result<Reply<Dispatch>, ContractError>,
)
    requires
        call_ensures(TlaRegistry::nft_on_rotation_resolved_call, (registry, &env, call, swapped), r),
    ensures
        r matches Ok(reply) ==> sends(reply.value, 25, 0, 80),
{
}

/// The return of a token gives the wallet forty five teragas and keeps twenty.
pub proof fn what_a_return_may_burn(
    registry: &mut TlaRegistry,
    tla_id: AccountId,
    name: String,
    from: AccountId,
    to: AccountId,
    returned: Result<bool, PromiseError>,
    r: PromiseOrValue<bool>,
)
    requires
        call_ensures(TlaRegistry::nft_resolve_transfer, (registry, tla_id, name, from, to, returned), r),
    ensures
        r matches PromiseOrValue::Promise(d) ==> sends(d, 45, 0, 20),
{
}

/// A sweep of the balance gives the wallet a hundred and twenty teragas and asks for no answer.
pub proof fn what_a_sweep_of_near_may_burn(
    registry: &mut TlaRegistry,
    env: Env,
    tla_id: AccountId,
    name: String,
    r: Result<Reply<Dispatch>, ContractError>,
)
    requires
        call_ensures(TlaRegistry::reclaim_sweep_near, (registry, &env, tla_id, name), r),
    ensures
        r matches Ok(reply) ==> sends(reply.value, 120, 0, 0),
        r matches Ok(reply) ==> reply.value.callback is Nobody,
{
}

/// A sweep of tokens does so too, and sends its deposit along.
pub proof fn what_a_sweep_of_tokens_may_burn(
    registry: &mut TlaRegistry,
    env: Env,
    tla_id: AccountId,
    name: String,
    ft: AccountId,
    r: Result<Reply<Dispatch>, ContractError>,
)
    requires
        call_ensures(TlaRegistry::reclaim_sweep_ft, (registry, &env, tla_id, name, ft), r),
    ensures
        r matches Ok(reply) ==> sends(reply.value, 120, crate::common::FT_STORAGE_DEPOSIT_YOCTO + 1, 0),
        r matches Ok(reply) ==> reply.value.callback is Nobody,
{
}

/// A reclaim that only gives notice may burn what a notice may; any other asks each token first, or gives the wallet forty five teragas where there is none to ask.
pub proof fn what_a_reclaim_may_burn(
    registry: &mut TlaRegistry,
    env: Env,
    tla_id: AccountId,
    name: String,
    r: Result<Reply<Dispatch>, ContractError>,
)
    requires
        call_ensures(TlaRegistry::reclaim_finalize, (registry, &env, tla_id, name), r),
    ensures
        r matches Ok(reply) ==> if final(registry).sub_accounts@ != old(registry).sub_accounts@ || reply.value.call is RetractLease {
            sends(reply.value, 20, 0, 10)
        } else if old(registry).ft_allowlist@.len() == 0 {
            sends(reply.value, 45, 0, 10)
        } else {
            sends(reply.value, 6, 0, 80)
        },
{
}

/// A reclaim that goes on gives the wallet forty five teragas and keeps ten.
pub proof fn what_a_reclaim_over_an_empty_account_may_burn(
    registry: &mut TlaRegistry,
    env: Env,
    tla_id: AccountId,
    name: String,
    destination: AccountId,
    allowlist: Vec<AccountId>,
    balances: Vec<Result<u128, PromiseError>>,
    r: Reply<PromiseOrValue<()>>,
)
    requires
        call_ensures(TlaRegistry::on_balances_checked, (registry, &env, tla_id, name, destination, allowlist, balances), r),
    ensures
        r.value matches PromiseOrValue::Promise(d) ==> sends(d, 45, 0, 10),
{
}

/// A refund sends what is owed and keeps ten teragas for its answer.
pub proof fn what_a_refund_sends(
    registry: &mut TlaRegistry,
    env: Env,
    r: Result<Reply<Dispatch>, ContractError>,
)
    requires
        call_ensures(TlaRegistry::claim_refund, (registry, &env), r),
    ensures
        r matches Ok(reply) ==> sends(reply.value, 0, old(registry).refund_of(env.predecessor) as int, 10),
{
}

/// A new payout account gives the wallet thirty teragas and keeps ten.
pub proof fn what_a_payout_account_may_burn(
    registry: &mut TlaRegistry,
    env: Env,
    tla_id: AccountId,
    name: String,
    new_payout_account: AccountId,
    r: Result<Reply<Dispatch>, ContractError>,
)
    requires
        call_ensures(TlaRegistry::set_payout_account, (registry, &env, tla_id, name, new_payout_account), r),
    ensures
        r matches Ok(reply) ==> sends(reply.value, 30, 0, 10),
{
}

/// The deployer keeps ten teragas for the answer to published code and five for that to a deleted key.
pub proof fn what_a_deployer_may_burn(
    publisher: &mut ImplDeployer,
    sealed: &mut ImplDeployer,
    env: Env,
    code: Vec<u8>,
    public_key: String,
    r: Result<DeployerDispatch, DeployerError>,
    s: Result<DeployerDispatch, DeployerError>,
)
    requires
        call_ensures(ImplDeployer::gd_deploy, (publisher, &env, code), r),
        call_ensures(ImplDeployer::gd_delete_key, (sealed, &env, public_key), s),
    ensures
        r matches Ok(sent) ==> (sent matches DeployerDispatch::Publish { callback_tgas, .. } && callback_tgas == 10),
        s matches Ok(sent) ==> (sent matches DeployerDispatch::DeleteKey { callback_tgas, .. } && callback_tgas == 5),
{
}

} // verus!
