//! Why the registry refuses a call.
use vstd::prelude::*;

verus! {

#[derive(PartialEq, Eq, Structural, Clone, Copy, Debug)]
pub enum NameInvalidReason {
    LengthOutOfBounds,
    DisallowedCharacter,
    EdgeSeparator,
    LabelTooShort,
    AccountIdTooLong,
}

#[derive(PartialEq, Eq, Structural, Clone, Copy, Debug)]
pub enum ContractError {
    OnlyAdmin,
    OnlyCouncil,
    OnlyTreasuryOrCouncil,
    MarketplacePaused,
    OnlyPaymentAuthority,
    OnlyRecoveryAuthority,
    OnlyPriceOracle,
    RateOutOfBounds,
    RateNotInitialized,
    RateAlreadyInitialized,
    RateCooldown,
    RateStale,
    InvalidRateBounds,
    InvalidBusinessCap,
    RetractionNoticeTooShort,
    FeeExceedsCap,
    OnlyLicensee,
    OnlyOwner,
    Paused,
    NoPendingRefund,
    TlaNotFound,
    TlaAlreadyRegistered,
    TlaNotInRegisteredState,
    TlaNotActive,
    TlaNotSuspended,
    TlaNotAcceptingRentals,
    TlaPastGracePeriod,
    BusinessTlaRequiresLicensee,
    BusinessTlaMissingLicensee,
    WrongActivationEndpoint,
    EmptyBatch,
    BatchTooLarge,
    DuplicateInBatch,
    SubAccountNotFound,
    SubAccountNameTaken,
    SubAccountPastGracePeriod,
    SubAccountNotReclaimable,
    SubAccountNotParked,
    NameStillHoldsNames,
    PayoutAccountEqualsSubAccount,
    InvalidSubAccountId,
    InvalidName { reason: NameInvalidReason },
    InsufficientPayment,
    InsufficientRevenue,
    WithdrawalAmountZero,
    TokenNotInAllowlist,
    TokenStillAllowlisted,
    SubAccountHoldsTokens,
    AllowlistFull,
    AuthoritySetFull,
    AuthorityMintAllowanceZero,
    AuthorityMintAllowanceSpent,
    AuthorityNotBoundToTla,
    InvalidOrderId,
    PaidOrderNotFound,
    PaidOrderAlreadySettled,
    PaidOrderStillInFlight,
    VenueIsRegistry,
    AllRentTiersZero,
    RentTiersNotDescending,
    CreationDepositZero,
    CannotRemoveLastAdmin,
    MaxBusinessSubsReached,
    NoRetractionScheduled,
    RetractionAlreadyScheduled,
    RetractionAlreadyElapsed,
    RetractionPending,
    NotBusinessTla,
    RequiresOneYocto,
    LeaseTermTooShort,
    LeaseTermTooLong,
    UpgradeNotProven,
    EmptyCode,
    NoApprovedHash,
    HashMismatch,
    ApprovalTooYoung,
    CouncilUnchanged,
    CouncilIsSelf,
    NoCouncilRotationPending,
    OnlyPendingCouncil,
    CouncilRotationTooYoung,
    TreasuryUnchanged,
    TreasuryIsSelf,
    NoTreasuryRotationPending,
    OnlyPendingTreasury,
    InsufficientContractBalance,
    ReclaimInProgress,
    SubAccountTlaMismatch,
    SubAccountNotSellable,
    BusinessSubNotResellable,
    ApprovalsNotSupported,
    TokenNotFound,
    UnknownCursor,
    RotationNotConfirmed,
    OwnerIndexOutOfSync,
    NotEd25519,
    SameOwner,
    TransferToSubAccount,
    TransferToRegisteredName,
    OwnerMoved,
}

/// Why a registry cannot be set up with the terms that it was given.
#[derive(PartialEq, Eq, Structural, Clone, Copy, Debug)]
pub enum InitError {
    GracePeriodTooShort,
    LeaseTermTooShort,
    LeaseTermTooLong,
    CouncilIsRegistry,
    WiringPointsAtRegistry,
}

impl InitError {
    pub fn message(&self) -> (r: &'static str)
        ensures
            r@ == (match *self {
                InitError::GracePeriodTooShort => "grace period too short"@,
                InitError::LeaseTermTooShort => "lease term too short"@,
                InitError::LeaseTermTooLong => "lease term too long"@,
                InitError::CouncilIsRegistry => "council must not be the registry"@,
                InitError::WiringPointsAtRegistry => "wiring must not point at the registry"@,
            }),
    {
        match self {
            InitError::GracePeriodTooShort => "grace period too short",
            InitError::LeaseTermTooShort => "lease term too short",
            InitError::LeaseTermTooLong => "lease term too long",
            InitError::CouncilIsRegistry => "council must not be the registry",
            InitError::WiringPointsAtRegistry => "wiring must not point at the registry",
        }
    }
}

} // verus!
