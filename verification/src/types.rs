//! What the registry keeps, and what it shows.
use vstd::prelude::*;

use crate::account::AccountId;
use crate::common::later;
use crate::error::{ContractError, NameInvalidReason};

verus! {

pub const ONE_NEAR: u128 = 1_000_000_000_000_000_000_000_000;

/// 365 days.
pub const ONE_YEAR_NS: u64 = 31_536_000_000_000_000;

pub const NFT_SPEC: &'static str = "nft-1.0.0";

/// The most tokens that one page shows.
pub const MAX_PAGE_LIMIT: u64 = 100;

#[derive(PartialEq, Eq, Structural, Clone, Copy, Debug)]
pub enum TlaType {
    Business,
    Open,
}

#[derive(PartialEq, Eq, Structural, Clone, Copy, Debug)]
pub enum TlaStatus {
    Registered,
    Active,
    Suspended,
}

#[derive(PartialEq, Eq, Structural, Clone, Copy, Debug)]
pub enum PremiumCategory {
    Legendary,
    Premium,
    Standard,
    Community,
}

impl PremiumCategory {
    /// The factor on the base rent, as numerator and denominator.
    pub open spec fn factor(self) -> (u128, u128) {
        match self {
            PremiumCategory::Legendary => (5, 1),
            PremiumCategory::Premium => (3, 1),
            PremiumCategory::Standard => (3, 2),
            PremiumCategory::Community => (0, 1),
        }
    }

    pub fn multiplier(&self) -> (r: (u128, u128))
        ensures
            r == self.factor(),
    {
        match self {
            Self::Legendary => (5, 1),
            Self::Premium => (3, 1),
            Self::Standard => (3, 2),
            Self::Community => (0, 1),
        }
    }
}

#[derive(Clone, Copy, Debug)]
pub struct TlaEntry {
    pub tla_type: TlaType,
    pub status: TlaStatus,
    pub licensee: Option<AccountId>,
    pub premium_category: PremiumCategory,
    pub activated_at: u64,
    pub expires_at: u64,
}

/// What a top level account is registered as.
#[derive(Clone, Copy, Debug)]
pub struct TlaRegistration {
    pub tla_type: TlaType,
    pub premium_category: PremiumCategory,
    pub licensee: Option<AccountId>,
}

/// What was agreed for one top level account in place of the fee schedule.
#[derive(Clone, Copy, Debug)]
pub struct TlaTerms {
    pub allocation_fee_usd_micro: Option<u128>,
    pub tla_rent_usd_micro: Option<u128>,
    pub sub_fee_usd_micro: Option<u128>,
}

impl TlaTerms {
    pub open spec fn standard() -> TlaTerms {
        TlaTerms { allocation_fee_usd_micro: None, tla_rent_usd_micro: None, sub_fee_usd_micro: None }
    }

    /// Whether nothing differs from the fee schedule.
    pub fn is_standard(&self) -> (r: bool)
        ensures
            r == (*self == TlaTerms::standard()),
    {
        self.allocation_fee_usd_micro.is_none() && self.tla_rent_usd_micro.is_none()
            && self.sub_fee_usd_micro.is_none()
    }
}

#[derive(Clone, Copy, Debug)]
pub struct SubAccountEntry {
    pub owner: AccountId,
    pub tla_id: AccountId,
    pub payout_account: AccountId,
    pub rented_at: u64,
    pub expires_at: u64,
    pub retraction_at: Option<u64>,
}

/// The events that the activity feed keeps.
#[derive(PartialEq, Eq, Structural, Clone, Copy, Debug)]
pub enum ActivityKind {
    Rented,
    ReRented,
    Renewed,
    Transferred,
    Recovered,
    Reclaimed,
}

impl ActivityKind {
    pub fn label(&self) -> (r: &'static str)
        ensures
            r@ == (match *self {
                ActivityKind::Rented => "sub_account_rented"@,
                ActivityKind::ReRented => "sub_account_re_rented"@,
                ActivityKind::Renewed => "sub_account_renewed"@,
                ActivityKind::Transferred => "sub_account_transferred"@,
                ActivityKind::Recovered => "sub_account_recovered"@,
                ActivityKind::Reclaimed => "sub_account_reclaimed"@,
            }),
    {
        match self {
            ActivityKind::Rented => "sub_account_rented",
            ActivityKind::ReRented => "sub_account_re_rented",
            ActivityKind::Renewed => "sub_account_renewed",
            ActivityKind::Transferred => "sub_account_transferred",
            ActivityKind::Recovered => "sub_account_recovered",
            ActivityKind::Reclaimed => "sub_account_reclaimed",
        }
    }
}

#[derive(Clone, Copy, Debug)]
pub struct ActivityRecord {
    pub event: ActivityKind,
    pub account: AccountId,
    pub block_height: u64,
    pub block_timestamp: u64,
}

/// A sale that an earlier state kept.
#[derive(Clone, Copy, Debug)]
pub struct Listing {
    pub price: u128,
    pub settling: bool,
    pub seller: AccountId,
}

/// An offer that an earlier state kept.
#[derive(Clone, Copy, Debug)]
pub struct AcceptedOffer {
    pub buyer: AccountId,
    pub price: u128,
    pub settling: bool,
    pub seller: AccountId,
}

#[derive(Clone, Copy, Debug)]
pub struct ParkedEntry {
    pub tla_id: AccountId,
    pub parked_at: u64,
}

/// Where a prepaid order stands.
#[derive(Clone, Copy, Debug)]
pub enum PaidOrderState {
    InFlight { full_name: AccountId, tla_id: AccountId, payer: AccountId, started_at: u64 },
    Settled,
}

impl PaidOrderState {
    pub open spec fn reserves(self, name: AccountId, by: AccountId) -> bool {
        match self {
            PaidOrderState::InFlight { full_name, payer, .. } => full_name == name && payer == by,
            PaidOrderState::Settled => false,
        }
    }

    /// Whether this is the reservation that `by` made for `name`.
    pub fn in_flight_for(&self, name: &AccountId, by: &AccountId) -> (r: bool)
        ensures
            r == self.reserves(*name, *by),
    {
        match self {
            PaidOrderState::InFlight { full_name, payer, .. } => *full_name == *name && *payer == *by,
            PaidOrderState::Settled => false,
        }
    }
}

#[derive(PartialEq, Eq, Structural, Clone, Copy, Debug)]
pub struct FeeConfig {
    pub tla_allocation_fee_usd_micro: u128,
    pub rent_tier_5_usd_micro: u128,
    pub rent_tier_8_usd_micro: u128,
    pub rent_tier_10_usd_micro: u128,
    pub rent_tier_12plus_usd_micro: u128,
    pub sub_fee_per_account_usd_micro: u128,
    pub account_creation_deposit_yocto: u128,
    pub business_max_subs: u32,
    pub retraction_notice_ns: u64,
    pub max_rate_move_bps: u16,
    pub quote_slippage_bps: u16,
    pub min_near_usd_rate_micro: u128,
    pub max_near_usd_rate_micro: u128,
    pub rate_update_cooldown_ns: u64,
    pub max_rate_age_ns: u64,
}

#[derive(PartialEq, Eq, Structural, Clone, Copy, Debug)]
pub enum LifecycleStatus {
    Registered,
    Active,
    Grace,
    Reclaimable,
    Suspended,
}

#[derive(Clone, Copy, Debug)]
pub struct TlaView {
    pub tla_id: AccountId,
    pub tla_type: TlaType,
    pub lifecycle: LifecycleStatus,
    pub licensee: Option<AccountId>,
    pub premium_category: PremiumCategory,
    pub activated_at: u64,
    pub expires_at: u64,
    pub annual_rent: u128,
}

#[derive(Clone, Copy, Debug)]
pub struct SubAccountView {
    pub full_name: AccountId,
    pub owner: AccountId,
    pub tla_id: AccountId,
    pub payout_account: AccountId,
    pub lifecycle: LifecycleStatus,
    pub rented_at: u64,
    pub expires_at: u64,
    pub annual_rent: u128,
}

#[derive(Clone, Copy, Debug)]
pub struct SubAccountDetailView {
    pub sub_account: SubAccountView,
    pub retraction_at: Option<u64>,
}

#[derive(Debug)]
pub struct ParkedSubAccountView {
    pub full_name: String,
    pub tla_id: AccountId,
    pub parked_at: u64,
}

#[derive(Clone, Copy, Debug)]
pub struct ActivityView {
    pub event: ActivityKind,
    pub account: AccountId,
    pub block_height: u64,
    pub block_timestamp: u64,
}

#[derive(Clone, Copy, Debug)]
pub struct RentPriceView {
    pub rent_yocto: u128,
    pub creation_deposit_yocto: u128,
    pub total_yocto: u128,
}

#[derive(Clone, Copy, Debug)]
pub struct RegistryStats {
    pub tla_count: u64,
    pub sub_account_count: u64,
    pub total_revenue_yocto: u128,
    pub total_pending_refunds_yocto: u128,
}

#[derive(Clone, Copy, Debug)]
pub struct RateMetaView {
    pub updated_at: u64,
    pub sequence: u64,
}

#[derive(Clone, Copy, Debug)]
pub struct BusinessRenewalCostView {
    pub tla_id: AccountId,
    pub tla_rent_yocto: u128,
}

/// Which steps of a deployment are done.
#[derive(Clone, Copy, Debug)]
pub struct DeploymentReadiness {
    pub ready: bool,
    pub recovery_wired: bool,
    pub venue_set: bool,
    pub ft_allowlist_set: bool,
    pub metadata_set: bool,
    pub wiring_sane: bool,
    pub production_terms: bool,
}

#[derive(Debug)]
pub struct NftContractMetadata {
    pub spec: String,
    pub name: String,
    pub symbol: String,
    pub icon: Option<String>,
    pub base_uri: Option<String>,
    pub reference: Option<String>,
    pub reference_hash: Option<String>,
}

pub(crate) fn copy_text(text: &Option<String>) -> (r: Option<String>)
    ensures
        r == *text,
{
    match text {
        Some(text) => Some(text.clone()),
        None => None,
    }
}

impl Clone for NftContractMetadata {
    fn clone(&self) -> (r: Self)
        ensures
            r == *self,
    {
        NftContractMetadata {
            spec: self.spec.clone(),
            name: self.name.clone(),
            symbol: self.symbol.clone(),
            icon: copy_text(&self.icon),
            base_uri: copy_text(&self.base_uri),
            reference: copy_text(&self.reference),
            reference_hash: copy_text(&self.reference_hash),
        }
    }
}

#[derive(Debug)]
pub struct TokenMetadata {
    pub title: Option<String>,
    pub description: Option<String>,
    pub media: Option<String>,
    pub media_hash: Option<String>,
    pub copies: Option<u64>,
    pub issued_at: Option<String>,
    pub expires_at: Option<String>,
    pub starts_at: Option<String>,
    pub updated_at: Option<String>,
    pub extra: Option<String>,
    pub reference: Option<String>,
    pub reference_hash: Option<String>,
}

#[derive(Clone, Copy, Debug)]
pub struct LifecycleClock {
    pub grace_period_ns: u64,
    pub reclaim_floor_ns: u64,
}

impl LifecycleClock {
    /// When what expired at `from` may be taken back.
    pub open spec fn reclaim_time(self, from: u64) -> u64 {
        crate::common::max_u64(crate::common::capped_u64(from + self.grace_period_ns), self.reclaim_floor_ns)
    }

    pub fn reclaimable_at(&self, from: u64) -> (r: u64)
        ensures
            r == self.reclaim_time(from),
    {
        later(from.saturating_add(self.grace_period_ns), self.reclaim_floor_ns)
    }
}

pub open spec fn lifecycle_at(expires_at: u64, clock: LifecycleClock, now: u64) -> LifecycleStatus {
    if now < expires_at {
        LifecycleStatus::Active
    } else if now < clock.reclaim_time(expires_at) {
        LifecycleStatus::Grace
    } else {
        LifecycleStatus::Reclaimable
    }
}

/// The stage of a term that ends at `expires_at`.
pub fn time_lifecycle(expires_at: u64, clock: &LifecycleClock, now: u64) -> (r: LifecycleStatus)
    ensures
        r == lifecycle_at(expires_at, *clock, now),
{
    if now < expires_at {
        LifecycleStatus::Active
    } else if now < clock.reclaimable_at(expires_at) {
        LifecycleStatus::Grace
    } else {
        LifecycleStatus::Reclaimable
    }
}

impl TlaEntry {
    /// A suspension shows until it lapses; after that the term shows again.
    pub open spec fn lifecycle_of(self, clock: LifecycleClock, suspended_until: u64, now: u64) -> LifecycleStatus {
        match self.status {
            TlaStatus::Registered => LifecycleStatus::Registered,
            TlaStatus::Suspended => if now < suspended_until {
                LifecycleStatus::Suspended
            } else {
                lifecycle_at(self.expires_at, clock, now)
            },
            TlaStatus::Active => lifecycle_at(self.expires_at, clock, now),
        }
    }

    pub fn lifecycle(&self, clock: &LifecycleClock, suspended_until: u64, now: u64) -> (r: LifecycleStatus)
        ensures
            r == self.lifecycle_of(*clock, suspended_until, now),
    {
        match self.status {
            TlaStatus::Registered => LifecycleStatus::Registered,
            TlaStatus::Suspended => {
                if now < suspended_until {
                    LifecycleStatus::Suspended
                } else {
                    time_lifecycle(self.expires_at, clock, now)
                }
            },
            TlaStatus::Active => time_lifecycle(self.expires_at, clock, now),
        }
    }

    pub open spec fn takes_rentals(self, suspended_until: u64, now: u64) -> bool {
        now < self.expires_at && match self.status {
            TlaStatus::Active => true,
            TlaStatus::Suspended => suspended_until <= now,
            TlaStatus::Registered => false,
        }
    }

    pub fn accepting_rentals(&self, suspended_until: u64, now: u64) -> (r: bool)
        ensures
            r == self.takes_rentals(suspended_until, now),
    {
        if now >= self.expires_at {
            return false;
        }
        match self.status {
            TlaStatus::Active => true,
            TlaStatus::Suspended => now >= suspended_until,
            TlaStatus::Registered => false,
        }
    }
}

impl SubAccountEntry {
    pub fn lifecycle(&self, clock: &LifecycleClock, now: u64) -> (r: LifecycleStatus)
        ensures
            r == lifecycle_at(self.expires_at, *clock, now),
    {
        time_lifecycle(self.expires_at, clock, now)
    }

    pub fn sweepable(&self, now: u64) -> (r: bool)
        ensures
            r == (self.expires_at <= now),
    {
        now >= self.expires_at
    }
}

/// How many bytes a text takes.
pub open spec fn byte_len(s: Seq<char>) -> nat {
    vstd::utf8::encode_utf8(s).len()
}

/// The characters that join two alphanumeric runs of a label.
pub open spec fn is_label_separator(c: char) -> bool {
    c == '-' || c == '_'
}

pub open spec fn is_label_char(c: char) -> bool {
    crate::account::is_alphanumeric(c) || is_label_separator(c)
}

/// What is wrong with a label, if anything.
pub open spec fn name_fault(s: Seq<char>) -> Option<NameInvalidReason> {
    if byte_len(s) == 0 || byte_len(s) > 60 {
        Some(NameInvalidReason::LengthOutOfBounds)
    } else if !(forall|i: int| 0 <= i < s.len() ==> is_label_char(#[trigger] s[i])) {
        Some(NameInvalidReason::DisallowedCharacter)
    } else if is_label_separator(s[0]) || is_label_separator(s[s.len() - 1]) || !single_separators(s) {
        Some(NameInvalidReason::EdgeSeparator)
    } else {
        None
    }
}

/// No separator stands next to another.
pub open spec fn single_separators(s: Seq<char>) -> bool {
    forall|i: int, j: int| 0 <= i && j == i + 1 && j < s.len() && is_label_separator(#[trigger] s[i])
        ==> !is_label_separator(#[trigger] s[j])
}

/// The error for a label, if it is refused.
pub open spec fn name_refusal(s: Seq<char>) -> Option<ContractError> {
    match name_fault(s) {
        Some(reason) => Some(ContractError::InvalidName { reason }),
        None => None,
    }
}

/// What keeps a label from becoming an account under `tla_id`, if anything.
pub open spec fn mint_name_refusal(tla_id: AccountId, s: Seq<char>) -> Option<ContractError> {
    if name_refusal(s) is Some {
        name_refusal(s)
    } else if s.len() < 2 {
        Some(ContractError::InvalidName { reason: NameInvalidReason::LabelTooShort })
    } else if s.len() + 1 + tla_id@.len() > 64 {
        Some(ContractError::InvalidName { reason: NameInvalidReason::AccountIdTooLong })
    } else {
        None
    }
}

fn is_label_byte(c: u8) -> (r: bool)
    ensures
        c < 128 ==> r == is_label_char(c as char),
{
    let c = c as char;
    ('a' <= c && c <= 'z') || ('0' <= c && c <= '9') || c == '-' || c == '_'
}

fn is_separator_byte(c: u8) -> (r: bool)
    ensures
        c < 128 ==> r == is_label_separator(c as char),
{
    let c = c as char;
    c == '-' || c == '_'
}

pub fn validate_name(name: &str) -> (r: Result<(), ContractError>)
    ensures
        r == (match name_refusal(name@) {
            Some(e) => Err(e),
            None => Ok(()),
        }),
        r is Ok ==> name@.len() == byte_len(name@),
{
    let bytes = name.as_bytes();
    if bytes.len() == 0 || bytes.len() > 60 {
        return Err(ContractError::InvalidName { reason: NameInvalidReason::LengthOutOfBounds });
    }
    let ascii = name.is_ascii();
    proof {
        if forall|i: int| 0 <= i < name@.len() ==> is_label_char(#[trigger] name@[i]) {
            assert(vstd::utf8::is_ascii_chars(name@)) by {
                assert forall|i: int| 0 <= i < name@.len() implies '\0' <= #[trigger] name@[i] <= '\u{7f}' by {
                    assert(is_label_char(name@[i]));
                }
            }
        }
    }
    if !ascii {
        return Err(ContractError::InvalidName { reason: NameInvalidReason::DisallowedCharacter });
    }
    proof {
        vstd::utf8::is_ascii_chars_encode_utf8(name@);
        assert forall|i: int| 0 <= i < name@.len() implies #[trigger] bytes@[i] < 128 && bytes@[i] as char == name@[i] by {
            assert('\0' <= name@[i] <= '\u{7f}');
            assert(name@[i] as u8 == bytes@[i]);
        }
    }
    let n: usize = bytes.len();
    let mut i: usize = 0;
    while i < n
        invariant
            n == bytes@.len() == name@.len() == byte_len(name@),
            0 < n <= 60,
            i <= n,
            forall|k: int| 0 <= k < n ==> #[trigger] bytes@[k] < 128 && bytes@[k] as char == name@[k],
            forall|k: int| 0 <= k < i ==> is_label_char(#[trigger] name@[k]),
        decreases n - i,
    {
        assert(bytes@[i as int] < 128);
        if !is_label_byte(bytes[i]) {
            assert(!is_label_char(name@[i as int]));
            return Err(ContractError::InvalidName { reason: NameInvalidReason::DisallowedCharacter });
        }
        i += 1;
    }
    assert(bytes@[0] < 128 && bytes@[n - 1] < 128);
    if is_separator_byte(bytes[0]) || is_separator_byte(bytes[n - 1]) {
        return Err(ContractError::InvalidName { reason: NameInvalidReason::EdgeSeparator });
    }
    let mut i: usize = 1;
    while i < n
        invariant
            n == bytes@.len() == name@.len() == byte_len(name@),
            0 < n <= 60,
            1 <= i <= n,
            forall|k: int| 0 <= k < n ==> is_label_char(#[trigger] name@[k]),
            !is_label_separator(name@[0]) && !is_label_separator(name@[n - 1]),
            forall|k: int| 0 <= k < n ==> #[trigger] bytes@[k] < 128 && bytes@[k] as char == name@[k],
            forall|k: int, j: int| 0 <= k && j == k + 1 && j < i && is_label_separator(#[trigger] name@[k])
                ==> !is_label_separator(#[trigger] name@[j]),
        decreases n - i,
    {
        assert(bytes@[i as int] < 128 && bytes@[i - 1] < 128);
        if is_separator_byte(bytes[i - 1]) && is_separator_byte(bytes[i]) {
            assert(is_label_separator(name@[i - 1]) && is_label_separator(name@[i as int]));
            assert(!single_separators(name@));
            return Err(ContractError::InvalidName { reason: NameInvalidReason::EdgeSeparator });
        }
        i += 1;
    }
    Ok(())
}

/// Checks that `name` can become an account under `tla_id`.
pub fn validate_mintable_name(tla_id: &AccountId, name: &str) -> (r: Result<(), ContractError>)
    ensures
        r == (match mint_name_refusal(*tla_id, name@) {
            Some(e) => Err(e),
            None => Ok(()),
        }),
{
    match validate_name(name) {
        Err(e) => {
            return Err(e);
        },
        Ok(()) => {},
    }
    let len: usize = name.as_bytes().len();
    if len < 2 {
        return Err(ContractError::InvalidName { reason: NameInvalidReason::LabelTooShort });
    }
    if len + 1 + tla_id.text_len() > 64 {
        return Err(ContractError::InvalidName { reason: NameInvalidReason::AccountIdTooLong });
    }
    Ok(())
}

/// A label that may be minted always makes an account id under its top level account.
pub proof fn mintable_names_are_accounts(tla_id: AccountId, name: Seq<char>)
    requires
        tla_id.valid(),
        mint_name_refusal(tla_id, name) is None,
    ensures
        crate::account::is_account_id(crate::account::sub_account_text(tla_id, name)),
{
    tla_id.lemma_text_determines();
    let t = crate::account::sub_account_text(tla_id, name);
    let n = name.len() as int;
    let p = tla_id@;
    assert(name_fault(name) is None);
    assert(t.len() == n + 1 + p.len());
    assert forall|i: int| 0 <= i < t.len() implies #[trigger] t[i] == (if i < n { name[i] } else if i == n { '.' } else { p[i - n - 1] }) by {}
    assert forall|i: int| 0 <= i < t.len() implies crate::account::is_alphanumeric(#[trigger] t[i]) || crate::account::is_separator(t[i]) by {
        if i < n {
            assert(is_label_char(name[i]));
        } else if i > n {
            assert(crate::account::is_alphanumeric(p[i - n - 1]) || crate::account::is_separator(p[i - n - 1]));
        }
    }
    assert(is_label_char(name[0]));
    assert forall|i: int, j: int| 0 <= i && j == i + 1 && j < t.len() && crate::account::is_separator(#[trigger] t[i])
        implies !crate::account::is_separator(#[trigger] t[j]) by {
        if j < n {
            assert(is_label_char(name[i]) && is_label_char(name[j]));
        } else if j == n {
            assert(is_label_char(name[i]));
        } else if i > n {
            assert(p[i - n - 1] == t[i] && p[j - n - 1] == t[j]);
        }
    }
}

/// A label holds no dot, so a full name splits into its label and its top level account in one way.
pub proof fn full_names_split_uniquely(tla_a: AccountId, a: Seq<char>, tla_b: AccountId, b: Seq<char>)
    requires
        tla_a.valid(),
        tla_b.valid(),
        name_fault(a) is None,
        name_fault(b) is None,
        crate::account::sub_account_text(tla_a, a) == crate::account::sub_account_text(tla_b, b),
    ensures
        a == b,
        tla_a == tla_b,
{
    let t = crate::account::sub_account_text(tla_a, a);
    let u = crate::account::sub_account_text(tla_b, b);
    assert(t[a.len() as int] == '.');
    assert(u[b.len() as int] == '.');
    if a.len() < b.len() {
        assert(u[a.len() as int] == b[a.len() as int]);
        assert(is_label_char(b[a.len() as int]));
        assert(false);
    }
    if b.len() < a.len() {
        assert(t[b.len() as int] == a[b.len() as int]);
        assert(is_label_char(a[b.len() as int]));
        assert(false);
    }
    assert forall|i: int| 0 <= i < a.len() implies a[i] == b[i] by {
        assert(t[i] == a[i] && u[i] == b[i]);
    }
    assert(a =~= b);
    assert(tla_a@ =~= t.subrange(a.len() as int + 1, t.len() as int));
    assert(tla_b@ =~= u.subrange(b.len() as int + 1, u.len() as int));
    tla_a.lemma_text_determines();
    tla_b.lemma_text_determines();
}

/// How many bytes the full name takes, as a byte.
pub fn total_name_length(tla_id: &AccountId, name: &str) -> (r: u8)
    requires
        byte_len(name@) + 65 <= usize::MAX,
    ensures
        r == (byte_len(name@) + 1 + tla_id@.len()) as u8,
{
    let len: usize = name.as_bytes().len();
    let total: usize = len + 1 + tla_id.text_len();
    #[verifier::truncate]
    let r: u8 = total as u8;
    r
}

} // verus!
