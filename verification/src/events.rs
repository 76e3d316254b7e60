//! What the registry logs.
use vstd::prelude::*;

use crate::account::{AccountId, FullName};
use crate::types::{ActivityKind, PremiumCategory, TlaType};

verus! {

/// Why an account is owed a refund.
#[derive(PartialEq, Eq, Structural, Clone, Copy, Debug)]
pub enum RefundReason {
    TransferFailed,
    CreationFailed,
    MintChainFailed,
    PaidCreationFailed,
    PaidMintChainFailed,
    ReRentBlocked,
    ReRentFailed,
    RenewalFailed,
}

impl RefundReason {
    pub open spec fn words(self) -> Seq<char> {
        match self {
            RefundReason::TransferFailed => "transfer_failed"@,
            RefundReason::CreationFailed => "sub-account creation failed"@,
            RefundReason::MintChainFailed => "sub-account mint chain failed without an outcome"@,
            RefundReason::PaidCreationFailed => "paid sub-account creation failed"@,
            RefundReason::PaidMintChainFailed => "paid sub-account mint chain failed without an outcome"@,
            RefundReason::ReRentBlocked => "re-rent blocked by asset gate"@,
            RefundReason::ReRentFailed => "sub-account re-rent failed"@,
            RefundReason::RenewalFailed => "sub-account renewal failed"@,
        }
    }

    pub fn text(&self) -> (r: &'static str)
        ensures
            r@ == self.words(),
    {
        match self {
            RefundReason::TransferFailed => "transfer_failed",
            RefundReason::CreationFailed => "sub-account creation failed",
            RefundReason::MintChainFailed => "sub-account mint chain failed without an outcome",
            RefundReason::PaidCreationFailed => "paid sub-account creation failed",
            RefundReason::PaidMintChainFailed => "paid sub-account mint chain failed without an outcome",
            RefundReason::ReRentBlocked => "re-rent blocked by asset gate",
            RefundReason::ReRentFailed => "sub-account re-rent failed",
            RefundReason::RenewalFailed => "sub-account renewal failed",
        }
    }
}

/// Why a name was held back.
#[derive(PartialEq, Eq, Structural, Clone, Copy, Debug)]
pub enum BlockReason {
    NonzeroBalance,
    BalanceUnknown,
    NoLongerReclaimable,
    ParkFailed,
}

impl BlockReason {
    pub open spec fn words(self) -> Seq<char> {
        match self {
            BlockReason::NonzeroBalance => "nonzero_balance"@,
            BlockReason::BalanceUnknown => "balance_unknown"@,
            BlockReason::NoLongerReclaimable => "no_longer_reclaimable"@,
            BlockReason::ParkFailed => "park_failed"@,
        }
    }

    pub fn text(&self) -> (r: &'static str)
        ensures
            r@ == self.words(),
    {
        match self {
            BlockReason::NonzeroBalance => "nonzero_balance",
            BlockReason::BalanceUnknown => "balance_unknown",
            BlockReason::NoLongerReclaimable => "no_longer_reclaimable",
            BlockReason::ParkFailed => "park_failed",
        }
    }
}

/// What a lease update was for.
#[derive(PartialEq, Eq, Structural, Clone, Copy, Debug)]
pub enum LeaseIntent {
    Retract,
    Restore,
}

impl LeaseIntent {
    pub open spec fn words(self) -> Seq<char> {
        match self {
            LeaseIntent::Retract => "retract"@,
            LeaseIntent::Restore => "restore"@,
        }
    }

    pub fn text(&self) -> (r: &'static str)
        ensures
            r@ == self.words(),
    {
        match self {
            LeaseIntent::Retract => "retract",
            LeaseIntent::Restore => "restore",
        }
    }
}

#[allow(inconsistent_fields)]
#[derive(Debug)]
pub enum Event {
    NearUsdRateUpdated { previous_micro: u128, new_micro: u128, sequence: u64, by: AccountId },
    PriceOracleUpdated { account: AccountId, by: AccountId },
    RateRecoveredFromOutOfBand { stranded_micro: u128, new_micro: u128, by: AccountId },
    TlaRegistered {
        tla_id: AccountId,
        tla_type: TlaType,
        premium_category: PremiumCategory,
        licensee: Option<AccountId>,
    },
    TlasRegistered {
        tla_ids: Vec<AccountId>,
        tla_type: TlaType,
        premium_category: PremiumCategory,
        licensee: Option<AccountId>,
    },
    TlaActivated { tla_id: AccountId, expires_at: u64, paid_yocto: u128 },
    TlasActivated { tla_ids: Vec<AccountId>, expires_at: u64 },
    TlaSuspended { tla_id: AccountId, by: AccountId },
    TlaUnsuspended { tla_id: AccountId, by: AccountId },
    TlaRenewed { tla_id: AccountId, new_expires_at: u64, paid_yocto: u128 },
    TlaTermsSet {
        tla_id: AccountId,
        allocation_fee_usd_micro: Option<u128>,
        tla_rent_usd_micro: Option<u128>,
        sub_fee_usd_micro: Option<u128>,
        by: AccountId,
    },
    ContractPaused { by: AccountId },
    ContractUnpaused { by: AccountId },
    MarketplacePaused { by: AccountId },
    MarketplaceUnpaused { by: AccountId },
    FeeConfigUpdated { by: AccountId },
    LeaseTermChanged { lease_term_ns: u64, by: AccountId },
    AdminAdded { account: AccountId, by: AccountId },
    AdminRemoved { account: AccountId, by: AccountId },
    PaymentAuthorityAdded { account: AccountId, by: AccountId },
    PaymentAuthorityRemoved { account: AccountId, by: AccountId },
    PaymentAuthorityBound { account: AccountId, tla_id: AccountId, max_mints: u64, by: AccountId },
    PaymentAuthorityUnbound { account: AccountId, tla_id: AccountId, by: AccountId },
    PaymentAuthorityAllowanceLow { account: AccountId, tla_id: AccountId, remaining: u64 },
    VenueAdded { account: AccountId, by: AccountId },
    VenueRemoved { account: AccountId, by: AccountId },
    RecoveryAuthorityAdded { account: AccountId, by: AccountId },
    RecoveryAuthorityRemoved { account: AccountId, by: AccountId },
    SubAccountRecovered { full_name: AccountId, tla_id: AccountId, from: AccountId, to: AccountId },
    WithdrawalQueued { amount_yocto: u128, recipient: AccountId },
    FtAllowlistAdded { token: AccountId, by: AccountId },
    FtAllowlistRemoved { token: AccountId, by: AccountId },
    SweepableTokenRemoved { token: AccountId, by: AccountId },
    BusinessSubCapSet { tla_id: AccountId, cap: Option<u32>, by: AccountId },
    SubAccountRented {
        full_name: AccountId,
        tla_id: AccountId,
        owner: AccountId,
        rent_yocto: u128,
        expires_at: u64,
    },
    SubAccountReRented {
        full_name: AccountId,
        tla_id: AccountId,
        owner: AccountId,
        rent_yocto: u128,
        expires_at: u64,
    },
    SubAccountRenewed { full_name: AccountId, new_expires_at: u64, paid_yocto: u128 },
    PayoutAccountUpdated { full_name: AccountId, new_payout_account: AccountId },
    PayoutAccountUpdateFailed { full_name: FullName, attempted: AccountId },
    RefundPending { account: AccountId, amount_yocto: u128, reason: RefundReason },
    MintFundingStranded {
        full_name: AccountId,
        tla_id: AccountId,
        payer: AccountId,
        account_creation_deposit_yocto: u128,
        reason: RefundReason,
    },
    PaidRentalOrderReleased { order_id: String },
    PaidRentalOrderStale { order_id: String, full_name: FullName },
    PaidRentalOrderSettled { full_name: AccountId, order_id: String },
    SubAccountTransferred { full_name: AccountId, tla_id: AccountId, from: AccountId, to: AccountId },
    TransferFailed { full_name: FullName, from: AccountId, to: AccountId },
    TransferBlockedByBalance { full_name: AccountId, token: Option<AccountId>, reason: BlockReason },
    SubAccountSaleBlocked { full_name: FullName, token: Option<AccountId>, reason: BlockReason },
    SubAccountReclaimed { full_name: AccountId, tla_id: AccountId, swept_to: AccountId },
    ReclaimFinalizeBlocked { full_name: FullName, token: Option<AccountId>, reason: BlockReason },
    SubAccountRetractionScheduled { full_name: AccountId, retraction_at: u64, by: AccountId },
    SubAccountRetractionCanceled { full_name: AccountId, by: AccountId },
    LeaseSyncFailed { full_name: AccountId, intent: LeaseIntent },
    ReclaimPendingCleared { full_name: FullName, by: AccountId },
    ParkReleased { full_name: FullName, by: AccountId },
    ParkForced { full_name: FullName, by: AccountId },
    CouncilRotationApproved { new_council: AccountId, by: AccountId },
    CouncilRotationCancelled { by: AccountId },
    CouncilRotated { new_council: AccountId, by: AccountId },
    TreasuryRotationApproved { new_treasury: AccountId, by: AccountId },
    TreasuryRotationCancelled { by: AccountId },
    TreasuryRotated { new_treasury: AccountId, by: AccountId },
    UpgradeApproved { hash: [u8; 32], by: AccountId },
    Upgraded { by: AccountId },
    Sealed { public_key: String, by: AccountId },
    SealFailed { public_key: String, by: AccountId },
    NftMint { owner_id: AccountId, token_id: AccountId },
    NftTransfer {
        old_owner_id: AccountId,
        new_owner_id: AccountId,
        token_id: AccountId,
        memo: Option<String>,
    },
    NftBurn { owner_id: AccountId, token_id: AccountId },
}

impl Event {
    /// What the activity feed keeps of an event, if it keeps it.
    pub open spec fn activity(self) -> Option<(ActivityKind, AccountId)> {
        match self {
            Event::SubAccountRented { full_name, .. } => Some((ActivityKind::Rented, full_name)),
            Event::SubAccountReRented { full_name, .. } => Some((ActivityKind::ReRented, full_name)),
            Event::SubAccountRenewed { full_name, .. } => Some((ActivityKind::Renewed, full_name)),
            Event::SubAccountTransferred { full_name, .. } => Some((ActivityKind::Transferred, full_name)),
            Event::SubAccountRecovered { full_name, .. } => Some((ActivityKind::Recovered, full_name)),
            Event::SubAccountReclaimed { full_name, .. } => Some((ActivityKind::Reclaimed, full_name)),
            _ => None,
        }
    }

    pub(crate) fn activity_entry(&self) -> (r: Option<(ActivityKind, AccountId)>)
        ensures
            r == self.activity(),
    {
        match self {
            Event::SubAccountRented { full_name, .. } => Some((ActivityKind::Rented, *full_name)),
            Event::SubAccountReRented { full_name, .. } => Some((ActivityKind::ReRented, *full_name)),
            Event::SubAccountRenewed { full_name, .. } => Some((ActivityKind::Renewed, *full_name)),
            Event::SubAccountTransferred { full_name, .. } => Some((ActivityKind::Transferred, *full_name)),
            Event::SubAccountRecovered { full_name, .. } => Some((ActivityKind::Recovered, *full_name)),
            Event::SubAccountReclaimed { full_name, .. } => Some((ActivityKind::Reclaimed, *full_name)),
            _ => None,
        }
    }
}

} // verus!
