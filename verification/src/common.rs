//! What the contracts share.
use vstd::prelude::*;

verus! {

pub const FT_STORAGE_DEPOSIT_YOCTO: u128 = 1_250_000_000_000_000_000_000;

/// How long an authority may hold an account or a contract: seven days.
pub const MAX_AUTHORITY_HOLD_NS: u64 = 604_800_000_000_000;

/// The shortest notice at which a wallet lets its lease be cut short.
pub const MIN_LEASE_RETRACT_NOTICE_NS: u64 = 82_800_000_000_000;

/// Gas kept back for deploying code and entering its migration, in teragas.
pub const DEPLOY_AND_MIGRATE_TGAS: u64 = 60;

#[derive(PartialEq, Eq, Structural, Clone, Copy, Debug)]
pub enum OperatingState {
    Active,
    Listed,
    Settling,
    Suspended,
    Parked,
}

#[derive(PartialEq, Eq, Structural, Clone, Copy, Debug)]
pub enum MintOutcome {
    CreationFailed,
    Active,
}

/// Why a call into another contract brought no value back.
#[derive(PartialEq, Eq, Structural, Clone, Copy, Debug)]
pub enum PromiseError {
    Failed,
    NotReady,
    TooLong,
}

#[derive(PartialEq, Eq, Structural, Clone, Copy, Debug)]
pub enum RotationCause {
    Sale,
    Transfer,
    Deposit,
    ReRent,
    Reclaim,
    Recovery,
    /// Undoes the rotation immediately preceding it, and nothing else. The wallet pins the
    /// destination to the account the name just left and refuses anything older or elsewhere.
    Revert,
}

impl RotationCause {
    pub fn parks(self) -> (r: bool)
        ensures
            r == (self is Reclaim),
    {
        match self {
            Self::Reclaim => true,
            Self::Sale | Self::Transfer | Self::Deposit | Self::ReRent | Self::Recovery | Self::Revert => false,
        }
    }

    /// A venue holds a name without a claim on what sits on the account, so the payout stays with
    /// the depositor.
    pub open spec fn moves_payout(self) -> bool {
        !(self is Deposit)
    }

    pub fn repoints_payout(self) -> (r: bool)
        ensures
            r == self.moves_payout(),
    {
        match self {
            Self::Deposit => false,
            Self::Sale | Self::Transfer | Self::ReRent | Self::Reclaim | Self::Recovery | Self::Revert => true,
        }
    }

    /// A revert must not sweep: the rotation that it undoes already swept the balance to the
    /// outgoing payout account.
    pub fn sweeps(self) -> (r: bool)
        ensures
            r == !(self is Recovery || self is Revert),
    {
        match self {
            Self::Sale | Self::Transfer | Self::Deposit | Self::ReRent | Self::Reclaim => true,
            Self::Recovery | Self::Revert => false,
        }
    }

    pub fn needs_holder(self) -> (r: bool)
        ensures
            r == (self is Sale || self is Transfer || self is Deposit),
    {
        match self {
            Self::Sale | Self::Transfer | Self::Deposit => true,
            Self::ReRent | Self::Reclaim | Self::Recovery | Self::Revert => false,
        }
    }

    pub fn needs_expiry(self) -> (r: bool)
        ensures
            r == (self is ReRent || self is Reclaim),
    {
        match self {
            Self::ReRent | Self::Reclaim => true,
            Self::Sale | Self::Transfer | Self::Deposit | Self::Recovery | Self::Revert => false,
        }
    }
}

/// The curve that a public key lies on.
#[derive(PartialEq, Eq, Structural, Clone, Copy, Debug)]
pub enum KeyCurve {
    Ed25519,
    Secp256k1,
    MlDsa65,
}

/// What a key's bytes say: the first one names the curve, and each curve has its length.
pub open spec fn curve_of(key: Seq<u8>) -> Option<KeyCurve> {
    if key.len() == 33 && key[0] == 0 {
        Some(KeyCurve::Ed25519)
    } else if key.len() == 65 && key[0] == 1 {
        Some(KeyCurve::Secp256k1)
    } else if key.len() == 1953 && key[0] == 2 {
        Some(KeyCurve::MlDsa65)
    } else {
        None
    }
}

/// Reads the bytes with `PublicKey::try_from` of `near_sdk`, which accepts a known curve byte
/// followed by exactly that curve's data, and asks the key for its `curve_type`.
#[verifier::external_body]
fn key_curve(key: Vec<u8>) -> (r: Option<KeyCurve>)
    ensures
        r == curve_of(key@),
{
    match near_sdk::PublicKey::try_from(key) {
        Ok(key) => match key.curve_type() {
            near_sdk::CurveType::ED25519 => Some(KeyCurve::Ed25519),
            near_sdk::CurveType::SECP256K1 => Some(KeyCurve::Secp256k1),
            near_sdk::CurveType::MLDSA65 => Some(KeyCurve::MlDsa65),
        },
        Err(_) => None,
    }
}

/// Whether the bytes are an ed25519 public key.
pub fn is_ed25519(key: Vec<u8>) -> (r: bool)
    ensures
        r == (key@.len() == 33 && key@[0] == 0),
{
    match key_curve(key) {
        Some(KeyCurve::Ed25519) => true,
        _ => false,
    }
}

/// What SHA-256 makes of the bytes.
pub uninterp spec fn sha256_of(data: Seq<u8>) -> Seq<u8>;

/// Hashes with `near_sdk::env::sha256_array`. The digest is a function of the bytes alone.
#[verifier::external_body]
pub(crate) fn sha256(data: &Vec<u8>) -> (r: [u8; 32])
    ensures
        r@ == sha256_of(data@),
{
    near_sdk::env::sha256_array(data)
}

/// Whether two digests are the same.
pub fn same_digest(a: &[u8; 32], b: &[u8; 32]) -> (r: bool)
    ensures
        r == (*a == *b),
{
    let mut i: usize = 0;
    while i < 32
        invariant
            i <= 32,
            forall|k: int| 0 <= k < i ==> a@[k] == b@[k],
        decreases 32 - i,
    {
        if a[i] != b[i] {
            return false;
        }
        i += 1;
    }
    assert(*a =~= *b);
    true
}

/// The version that a stored state starts with, low byte first.
pub fn state_version(raw: &Vec<u8>) -> (r: Option<u16>)
    ensures
        r == (if raw@.len() < 2 {
            None
        } else {
            Some((raw@[0] + 256 * raw@[1]) as u16)
        }),
{
    if raw.len() < 2 {
        None
    } else {
        Some(raw[0] as u16 + 256 * raw[1] as u16)
    }
}

/// `a + b`, capped at the largest `u64`.
pub open spec fn capped_u64(n: int) -> u64 {
    if n > u64::MAX {
        u64::MAX
    } else {
        n as u64
    }
}

/// A non-negative amount, capped at the largest `u128`.
pub open spec fn capped_u128(n: int) -> u128 {
    if n > u128::MAX {
        u128::MAX
    } else {
        n as u128
    }
}

/// `a - b`, or zero where that is negative.
pub open spec fn floored(a: int, b: int) -> int {
    if a < b {
        0
    } else {
        a - b
    }
}

pub open spec fn max_u64(a: u64, b: u64) -> u64 {
    if a < b {
        b
    } else {
        a
    }
}

pub fn later(a: u64, b: u64) -> (r: u64)
    ensures
        r == max_u64(a, b),
{
    if a < b {
        b
    } else {
        a
    }
}

} // verus!
