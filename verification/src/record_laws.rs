//! What each decision tells the outside: one record for what was decided, and none before the answer of a wallet is there.
use vstd::prelude::*;

use crate::account::AccountId;
use crate::asset_gate::BalanceGate;
use crate::common::{capped_u64, PromiseError};
use crate::error::ContractError;
use crate::events::Event;
use crate::host::{Dispatch, Env, NftRotation, NftTransferCall, Reply};
use crate::registry::TlaRegistry;
use crate::types::{FeeConfig, PremiumCategory, TlaTerms, TlaType};

verus! {

/// A registration tells the account, its kind, its category and its licensee.
pub proof fn a_registration_is_told(
    registry: &mut TlaRegistry,
    env: Env,
    tla_id: AccountId,
    tla_type: TlaType,
    premium_category: PremiumCategory,
    licensee: Option<AccountId>,
    r: Result<Reply<()>, ContractError>,
)
    requires
        call_ensures(TlaRegistry::register_tla, (registry, &env, tla_id, tla_type, premium_category, licensee), r),
        r is Ok,
    ensures
        r->Ok_0.events@ == seq![Event::TlaRegistered { tla_id, tla_type, premium_category, licensee }],
{
}

/// A batch of registrations is told at once.
pub proof fn a_batch_of_registrations_is_told_once(
    registry: &mut TlaRegistry,
    env: Env,
    tla_ids: Vec<AccountId>,
    tla_type: TlaType,
    premium_category: PremiumCategory,
    licensee: Option<AccountId>,
    r: Result<Reply<()>, ContractError>,
)
    requires
        call_ensures(TlaRegistry::register_tlas, (registry, &env, tla_ids, tla_type, premium_category, licensee), r),
        r is Ok,
    ensures
        r->Ok_0.events@ == seq![Event::TlasRegistered { tla_ids, tla_type, premium_category, licensee }],
{
}

/// The activation of an open account tells its end, a year from now, and that nothing was paid.
pub proof fn an_open_activation_is_told(
    registry: &mut TlaRegistry,
    env: Env,
    tla_id: AccountId,
    r: Result<Reply<()>, ContractError>,
)
    requires
        call_ensures(TlaRegistry::activate_open_tla, (registry, &env, tla_id), r),
        r is Ok,
    ensures
        r->Ok_0.events@ == seq![
            Event::TlaActivated { tla_id, expires_at: capped_u64(env.now + 31_536_000_000_000_000), paid_yocto: 0 },
        ],
{
}

/// A batch of activations is told at once, with the end that they share.
pub proof fn a_batch_of_activations_is_told_once(
    registry: &mut TlaRegistry,
    env: Env,
    tla_ids: Vec<AccountId>,
    r: Result<Reply<()>, ContractError>,
)
    requires
        call_ensures(TlaRegistry::activate_open_tlas, (registry, &env, tla_ids), r),
        r is Ok,
    ensures
        r->Ok_0.events@ == seq![
            Event::TlasActivated { tla_ids, expires_at: capped_u64(env.now + 31_536_000_000_000_000) },
        ],
{
}

/// A suspension tells who suspended what.
pub proof fn a_suspension_is_told(
    registry: &mut TlaRegistry,
    env: Env,
    tla_id: AccountId,
    r: Result<Reply<()>, ContractError>,
)
    requires
        call_ensures(TlaRegistry::suspend_tla, (registry, &env, tla_id), r),
        r is Ok,
    ensures
        r->Ok_0.events@ == seq![Event::TlaSuspended { tla_id, by: env.predecessor }],
{
}

/// The end of a suspension tells who lifted it.
pub proof fn a_lifted_suspension_is_told(
    registry: &mut TlaRegistry,
    env: Env,
    tla_id: AccountId,
    r: Result<Reply<()>, ContractError>,
)
    requires
        call_ensures(TlaRegistry::unsuspend_tla, (registry, &env, tla_id), r),
        r is Ok,
    ensures
        r->Ok_0.events@ == seq![Event::TlaUnsuspended { tla_id, by: env.predecessor }],
{
}

/// A token that was not gated before is told when it is gated; one that was is not told again.
pub proof fn a_gated_token_is_told_once(
    registry: &mut TlaRegistry,
    env: Env,
    token: AccountId,
    r: Result<Reply<()>, ContractError>,
)
    requires
        call_ensures(TlaRegistry::add_ft_allowlist, (registry, &env, token), r),
        r is Ok,
    ensures
        r->Ok_0.events@ == (if old(registry).ft_allowlist@.has(token) {
            Seq::<Event>::empty()
        } else {
            seq![Event::FtAllowlistAdded { token, by: env.predecessor }]
        }),
{
}

/// A gated token is told when it is freed; any other is not.
pub proof fn a_freed_token_is_told_once(
    registry: &mut TlaRegistry,
    env: Env,
    token: AccountId,
    r: Result<Reply<()>, ContractError>,
)
    requires
        call_ensures(TlaRegistry::remove_ft_allowlist, (registry, &env, token), r),
        r is Ok,
    ensures
        r->Ok_0.events@ == (if old(registry).ft_allowlist@.has(token) {
            seq![Event::FtAllowlistRemoved { token, by: env.predecessor }]
        } else {
            Seq::<Event>::empty()
        }),
{
}

/// A sweepable token is told when it is no longer swept; any other is not.
pub proof fn a_token_swept_no_more_is_told_once(
    registry: &mut TlaRegistry,
    env: Env,
    token: AccountId,
    r: Result<Reply<()>, ContractError>,
)
    requires
        call_ensures(TlaRegistry::remove_sweepable_token, (registry, &env, token), r),
        r is Ok,
    ensures
        r->Ok_0.events@ == (if old(registry).sweepable_tokens@.has(token) {
            seq![Event::SweepableTokenRemoved { token, by: env.predecessor }]
        } else {
            Seq::<Event>::empty()
        }),
{
}

/// An allowance tells the authority, the account and the number of mints.
pub proof fn an_allowance_is_told(
    registry: &mut TlaRegistry,
    env: Env,
    account_id: AccountId,
    tla_id: AccountId,
    max_mints: u64,
    r: Result<Reply<()>, ContractError>,
)
    requires
        call_ensures(TlaRegistry::bind_payment_authority_tla, (registry, &env, account_id, tla_id, max_mints), r),
        r is Ok,
    ensures
        r->Ok_0.events@ == seq![
            Event::PaymentAuthorityBound { account: account_id, tla_id, max_mints, by: env.predecessor },
        ],
{
}

/// A withdrawn allowance tells the authority and the account.
pub proof fn a_withdrawn_allowance_is_told(
    registry: &mut TlaRegistry,
    env: Env,
    account_id: AccountId,
    tla_id: AccountId,
    r: Result<Reply<()>, ContractError>,
)
    requires
        call_ensures(TlaRegistry::unbind_payment_authority_tla, (registry, &env, account_id, tla_id), r),
        r is Ok,
    ensures
        r->Ok_0.events@ == seq![
            Event::PaymentAuthorityUnbound { account: account_id, tla_id, by: env.predecessor },
        ],
{
}

/// New fees tell who set them.
pub proof fn new_fees_are_told(
    registry: &mut TlaRegistry,
    env: Env,
    config: FeeConfig,
    r: Result<Reply<()>, ContractError>,
)
    requires
        call_ensures(TlaRegistry::update_fee_config, (registry, &env, config), r),
        r is Ok,
    ensures
        r->Ok_0.events@ == seq![Event::FeeConfigUpdated { by: env.predecessor }],
{
}

/// A withdrawal tells its amount and the treasury that it goes to.
pub proof fn a_withdrawal_is_told(
    registry: &mut TlaRegistry,
    env: Env,
    amount: u128,
    r: Result<Reply<()>, ContractError>,
)
    requires
        call_ensures(TlaRegistry::withdraw, (registry, &env, amount), r),
        r is Ok,
    ensures
        r->Ok_0.events@ == seq![
            Event::WithdrawalQueued { amount_yocto: amount, recipient: old(registry).treasury },
        ],
{
}

/// A new lease term is told.
pub proof fn a_lease_term_is_told(
    registry: &mut TlaRegistry,
    env: Env,
    lease_term_ns: u64,
    r: Result<Reply<()>, ContractError>,
)
    requires
        call_ensures(TlaRegistry::set_lease_term_ns, (registry, &env, lease_term_ns), r),
        r is Ok,
    ensures
        r->Ok_0.events@ == seq![Event::LeaseTermChanged { lease_term_ns, by: env.predecessor }],
{
}

/// A reclaim that is cleared by hand tells the full name and who cleared it.
pub proof fn a_cleared_reclaim_is_told(
    registry: &mut TlaRegistry,
    env: Env,
    tla_id: AccountId,
    name: String,
    r: Result<Reply<()>, ContractError>,
)
    requires
        call_ensures(TlaRegistry::admin_clear_reclaim_pending, (registry, &env, tla_id, name), r),
        r is Ok,
    ensures
        r->Ok_0.events@ == seq![
            Event::ReclaimPendingCleared {
                full_name: crate::account::full_name_of(tla_id, name),
                by: env.predecessor,
            },
        ],
{
}

/// An order that is released by hand is told.
pub proof fn a_released_order_is_told(
    registry: &mut TlaRegistry,
    env: Env,
    order_id: String,
    r: Result<Reply<()>, ContractError>,
)
    requires
        call_ensures(TlaRegistry::admin_release_paid_order, (registry, &env, order_id), r),
        r is Ok,
    ensures
        r->Ok_0.events@ == seq![Event::PaidRentalOrderReleased { order_id }],
{
}

/// A parked name that is released by hand tells the full name and who released it.
pub proof fn a_released_park_is_told(
    registry: &mut TlaRegistry,
    env: Env,
    tla_id: AccountId,
    name: String,
    r: Result<Reply<()>, ContractError>,
)
    requires
        call_ensures(TlaRegistry::admin_release_park, (registry, &env, tla_id, name), r),
        r is Ok,
    ensures
        r->Ok_0.events@ == seq![
            Event::ParkReleased { full_name: crate::account::full_name_of(tla_id, name), by: env.predecessor },
        ],
{
}

/// A name that is parked by hand tells the full name and who parked it.
pub proof fn a_forced_park_is_told(
    registry: &mut TlaRegistry,
    env: Env,
    tla_id: AccountId,
    name: String,
    r: Result<Reply<()>, ContractError>,
)
    requires
        call_ensures(TlaRegistry::admin_force_park, (registry, &env, tla_id, name), r),
        r is Ok,
    ensures
        r->Ok_0.events@ == seq![
            Event::ParkForced { full_name: crate::account::full_name_of(tla_id, name), by: env.predecessor },
        ],
{
}

/// The heir that the council names is told.
pub proof fn an_heir_of_the_council_is_told(
    registry: &mut TlaRegistry,
    env: Env,
    new_council: AccountId,
    r: Result<Reply<()>, ContractError>,
)
    requires
        call_ensures(TlaRegistry::approve_council_rotation, (registry, &env, new_council), r),
        r is Ok,
    ensures
        r->Ok_0.events@ == seq![Event::CouncilRotationApproved { new_council, by: env.predecessor }],
{
}

/// That the council stays after all is told.
pub proof fn a_council_that_stays_is_told(
    registry: &mut TlaRegistry,
    env: Env,
    r: Result<Reply<()>, ContractError>,
)
    requires
        call_ensures(TlaRegistry::cancel_council_rotation, (registry, &env), r),
        r is Ok,
    ensures
        r->Ok_0.events@ == seq![Event::CouncilRotationCancelled { by: env.predecessor }],
{
}

/// A council that takes over tells itself.
pub proof fn a_new_council_is_told(
    registry: &mut TlaRegistry,
    env: Env,
    r: Result<Reply<()>, ContractError>,
)
    requires
        call_ensures(TlaRegistry::commit_council_rotation, (registry, &env), r),
        r is Ok,
    ensures
        r->Ok_0.events@ == seq![Event::CouncilRotated { new_council: env.predecessor, by: env.predecessor }],
{
}

/// The heir of the treasury is told.
pub proof fn an_heir_of_the_treasury_is_told(
    registry: &mut TlaRegistry,
    env: Env,
    new_treasury: AccountId,
    r: Result<Reply<()>, ContractError>,
)
    requires
        call_ensures(TlaRegistry::approve_treasury_rotation, (registry, &env, new_treasury), r),
        r is Ok,
    ensures
        r->Ok_0.events@ == seq![
            Event::TreasuryRotationApproved { new_treasury, by: env.predecessor },
        ],
{
}

/// That the treasury stays after all is told.
pub proof fn a_treasury_that_stays_is_told(
    registry: &mut TlaRegistry,
    env: Env,
    r: Result<Reply<()>, ContractError>,
)
    requires
        call_ensures(TlaRegistry::cancel_treasury_rotation, (registry, &env), r),
        r is Ok,
    ensures
        r->Ok_0.events@ == seq![Event::TreasuryRotationCancelled { by: env.predecessor }],
{
}

/// A treasury that takes over tells itself.
pub proof fn a_new_treasury_is_told(
    registry: &mut TlaRegistry,
    env: Env,
    r: Result<Reply<()>, ContractError>,
)
    requires
        call_ensures(TlaRegistry::commit_treasury_rotation, (registry, &env), r),
        r is Ok,
    ensures
        r->Ok_0.events@ == seq![Event::TreasuryRotated { new_treasury: env.predecessor, by: env.predecessor }],
{
}

/// Approved code is told by its digest.
pub proof fn approved_code_is_told(
    registry: &mut TlaRegistry,
    env: Env,
    code_hash: [u8; 32],
    r: Result<Reply<()>, ContractError>,
)
    requires
        call_ensures(TlaRegistry::approve_upgrade, (registry, &env, code_hash), r),
        r is Ok,
    ensures
        r->Ok_0.events@ == seq![Event::UpgradeApproved { hash: code_hash, by: env.predecessor }],
{
}

/// Agreed terms tell all three of them.
pub proof fn agreed_terms_are_told(
    registry: &mut TlaRegistry,
    env: Env,
    tla_id: AccountId,
    terms: TlaTerms,
    r: Result<Reply<()>, ContractError>,
)
    requires
        call_ensures(TlaRegistry::set_tla_terms, (registry, &env, tla_id, terms), r),
        r is Ok,
    ensures
        r->Ok_0.events@ == seq![
            Event::TlaTermsSet {
                tla_id,
                allocation_fee_usd_micro: terms.allocation_fee_usd_micro,
                tla_rent_usd_micro: terms.tla_rent_usd_micro,
                sub_fee_usd_micro: terms.sub_fee_usd_micro,
                by: env.predecessor,
            },
        ],
{
}

/// The cap of a business is told.
pub proof fn a_cap_is_told(
    registry: &mut TlaRegistry,
    env: Env,
    tla_id: AccountId,
    cap: Option<u32>,
    r: Result<Reply<()>, ContractError>,
)
    requires
        call_ensures(TlaRegistry::set_business_sub_cap, (registry, &env, tla_id, cap), r),
        r is Ok,
    ensures
        r->Ok_0.events@ == seq![Event::BusinessSubCapSet { tla_id, cap, by: env.predecessor }],
{
}

/// A new oracle is told.
pub proof fn a_new_oracle_is_told(
    registry: &mut TlaRegistry,
    env: Env,
    account: AccountId,
    r: Result<Reply<()>, ContractError>,
)
    requires
        call_ensures(TlaRegistry::set_price_oracle, (registry, &env, account), r),
        r is Ok,
    ensures
        r->Ok_0.events@ == seq![Event::PriceOracleUpdated { account, by: env.predecessor }],
{
}

/// A pause tells who paused.
pub proof fn a_pause_is_told(
    registry: &mut TlaRegistry,
    env: Env,
    r: Result<Reply<()>, ContractError>,
)
    requires
        call_ensures(TlaRegistry::pause, (registry, &env), r),
        r is Ok,
    ensures
        r->Ok_0.events@ == seq![Event::ContractPaused { by: env.predecessor }],
{
}

/// The end of a pause tells who lifted it.
pub proof fn a_lifted_pause_is_told(
    registry: &mut TlaRegistry,
    env: Env,
    r: Result<Reply<()>, ContractError>,
)
    requires
        call_ensures(TlaRegistry::unpause, (registry, &env), r),
        r is Ok,
    ensures
        r->Ok_0.events@ == seq![Event::ContractUnpaused { by: env.predecessor }],
{
}

/// A closed marketplace tells who closed it.
pub proof fn a_closed_marketplace_is_told(
    registry: &mut TlaRegistry,
    env: Env,
    r: Result<Reply<()>, ContractError>,
)
    requires
        call_ensures(TlaRegistry::pause_marketplace, (registry, &env), r),
        r is Ok,
    ensures
        r->Ok_0.events@ == seq![Event::MarketplacePaused { by: env.predecessor }],
{
}

/// An open marketplace tells who opened it.
pub proof fn an_open_marketplace_is_told(
    registry: &mut TlaRegistry,
    env: Env,
    r: Result<Reply<()>, ContractError>,
)
    requires
        call_ensures(TlaRegistry::unpause_marketplace, (registry, &env), r),
        r is Ok,
    ensures
        r->Ok_0.events@ == seq![Event::MarketplaceUnpaused { by: env.predecessor }],
{
}

/// A notice is not told before the wallet has answered.
pub proof fn a_scheduled_notice_is_told_later(
    registry: &mut TlaRegistry,
    env: Env,
    tla_id: AccountId,
    name: String,
    r: Result<Reply<Dispatch>, ContractError>,
)
    requires
        call_ensures(TlaRegistry::schedule_retraction, (registry, &env, tla_id, name), r),
        r is Ok,
    ensures
        r->Ok_0.events@ == Seq::<Event>::empty(),
{
}

/// The end of a notice is not told before the wallet has answered.
pub proof fn a_cancelled_notice_is_told_later(
    registry: &mut TlaRegistry,
    env: Env,
    tla_id: AccountId,
    name: String,
    r: Result<Reply<Dispatch>, ContractError>,
)
    requires
        call_ensures(TlaRegistry::cancel_retraction, (registry, &env, tla_id, name), r),
        r is Ok,
    ensures
        r->Ok_0.events@ == Seq::<Event>::empty(),
{
}

/// A recovery is not told before the wallet has answered.
pub proof fn a_recovery_is_told_later(
    registry: &mut TlaRegistry,
    env: Env,
    tla_id: AccountId,
    name: String,
    new_owner: AccountId,
    expected_owner: AccountId,
    r: Result<Reply<Dispatch>, ContractError>,
)
    requires
        call_ensures(TlaRegistry::recover_sub_account, (registry, &env, tla_id, name, new_owner, expected_owner), r),
        r is Ok,
    ensures
        r->Ok_0.events@ == Seq::<Event>::empty(),
{
}

/// A sweep of the balance tells nothing itself.
pub proof fn a_sweep_of_near_tells_nothing(
    registry: &mut TlaRegistry,
    env: Env,
    tla_id: AccountId,
    name: String,
    r: Result<Reply<Dispatch>, ContractError>,
)
    requires
        call_ensures(TlaRegistry::reclaim_sweep_near, (registry, &env, tla_id, name), r),
        r is Ok,
    ensures
        r->Ok_0.events@ == Seq::<Event>::empty(),
{
}

/// A sweep of tokens tells nothing itself.
pub proof fn a_sweep_of_tokens_tells_nothing(
    registry: &mut TlaRegistry,
    env: Env,
    tla_id: AccountId,
    name: String,
    ft: AccountId,
    r: Result<Reply<Dispatch>, ContractError>,
)
    requires
        call_ensures(TlaRegistry::reclaim_sweep_ft, (registry, &env, tla_id, name, ft), r),
        r is Ok,
    ensures
        r->Ok_0.events@ == Seq::<Event>::empty(),
{
}

/// A refund is not told before it has arrived.
pub proof fn a_refund_is_told_later(
    registry: &mut TlaRegistry,
    env: Env,
    r: Result<Reply<Dispatch>, ContractError>,
)
    requires
        call_ensures(TlaRegistry::claim_refund, (registry, &env), r),
        r is Ok,
    ensures
        r->Ok_0.events@ == Seq::<Event>::empty(),
{
}

/// A new payout account is not told before the wallet has answered.
pub proof fn a_payout_account_is_told_later(
    registry: &mut TlaRegistry,
    env: Env,
    tla_id: AccountId,
    name: String,
    new_payout_account: AccountId,
    r: Result<Reply<Dispatch>, ContractError>,
)
    requires
        call_ensures(TlaRegistry::set_payout_account, (registry, &env, tla_id, name, new_payout_account), r),
        r is Ok,
    ensures
        r->Ok_0.events@ == Seq::<Event>::empty(),
{
}

/// A new description of the collection tells nothing.
pub proof fn a_description_is_not_told(
    registry: &mut TlaRegistry,
    env: Env,
    name: String,
    symbol: String,
    icon: Option<String>,
    base_uri: Option<String>,
    reference: Option<String>,
    r: Result<Reply<()>, ContractError>,
)
    requires
        call_ensures(TlaRegistry::admin_set_nft_metadata, (registry, &env, name, symbol, icon, base_uri, reference), r),
        r is Ok,
    ensures
        r->Ok_0.events@ == Seq::<Event>::empty(),
{
}

/// A transfer that a balance holds back tells which token holds it back and why; one that goes on tells nothing yet.
pub proof fn a_balance_that_blocks_is_told(
    registry: &mut TlaRegistry,
    key: AccountId,
    rotation: NftRotation,
    tokens: Vec<AccountId>,
    balances: Vec<Result<u128, PromiseError>>,
    gate: BalanceGate,
    r: Reply<Result<Dispatch, ContractError>>,
)
    requires
        call_ensures(TlaRegistry::nft_on_balances_checked, (registry, key, rotation, tokens, balances), r),
        call_ensures(crate::asset_gate::ft_balances_clear, (&tokens, &balances), gate),
    ensures
        match gate {
            BalanceGate::Clear => r.events@ == Seq::<Event>::empty(),
            BalanceGate::Blocked { token, reason } => r.events@ == seq![
                Event::TransferBlockedByBalance { full_name: key, token, reason },
            ],
        },
{
}

/// The same holds of a token that is sent with a message.
pub proof fn a_balance_that_blocks_a_call_is_told(
    registry: &mut TlaRegistry,
    key: AccountId,
    call: NftTransferCall,
    tokens: Vec<AccountId>,
    balances: Vec<Result<u128, PromiseError>>,
    gate: BalanceGate,
    r: Reply<Result<Dispatch, ContractError>>,
)
    requires
        call_ensures(TlaRegistry::nft_on_call_balances_checked, (registry, key, call, tokens, balances), r),
        call_ensures(crate::asset_gate::ft_balances_clear, (&tokens, &balances), gate),
    ensures
        match gate {
            BalanceGate::Clear => r.events@ == Seq::<Event>::empty(),
            BalanceGate::Blocked { token, reason } => r.events@ == seq![
                Event::TransferBlockedByBalance { full_name: key, token, reason },
            ],
        },
{
}

} // verus!
