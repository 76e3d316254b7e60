//! Which labels are names, when a pause holds, and where an account or a name stands in its life.
use vstd::prelude::*;

use crate::account::{label_under, named_account, sub_account_key, AccountId, FullName};
use crate::common::{capped_u64, max_u64};
use crate::error::ContractError;
use crate::host::{Env, Reply};
use crate::lifecycle::effective_sub_lifecycle;
use crate::registry::TlaRegistry;
use crate::ordered::OrderedView;
use crate::types::{
    total_name_length, validate_mintable_name, validate_name, LifecycleClock, LifecycleStatus, PaidOrderState,
    SubAccountEntry, TlaEntry, TlaTerms,
};

verus! {

// ---- labels -----------------------------------------------------------------------------------

/// A character that a label may hold.
pub open spec fn fits_a_label(c: char) -> bool {
    ('a' <= c && c <= 'z') || ('0' <= c && c <= '9') || c == '-' || c == '_'
}

/// A label is accepted exactly if it has one to sixty bytes, all of them lower case letters, digits, hyphens
/// and underscores, and every hyphen or underscore stands between two letters or digits. Each refusal says
/// what is wrong.
pub proof fn a_label_is_letters_and_digits_singly_joined(name: &str, r: Result<(), ContractError>)
    requires
        call_ensures(validate_name, (name,), r),
    ensures
        ({
            let s = name@;
            let len = crate::types::byte_len(s);
            let all_fit = forall|i: int| 0 <= i < s.len() ==> fits_a_label(#[trigger] s[i]);
            let joined = forall|i: int|
                0 <= i < s.len() && (#[trigger] s[i] == '-' || s[i] == '_') ==> 0 < i && i + 1 < s.len()
                    && !(s[i + 1] == '-' || s[i + 1] == '_');
            match r {
                Ok(_) => 1 <= len <= 60 && all_fit && joined,
                Err(e) => e matches ContractError::InvalidName { reason } && {
                    ||| reason is LengthOutOfBounds && (len == 0 || len > 60)
                    ||| reason is DisallowedCharacter && !all_fit
                    ||| reason is EdgeSeparator && !joined
                },
            }
        }),
{
    let s = name@;
    let len = crate::types::byte_len(s);
    let all_fit = forall|i: int| 0 <= i < s.len() ==> fits_a_label(#[trigger] s[i]);
    let joined = forall|i: int|
        0 <= i < s.len() && (#[trigger] s[i] == '-' || s[i] == '_') ==> 0 < i && i + 1 < s.len()
            && !(s[i + 1] == '-' || s[i + 1] == '_');
    assert forall|i: int| 0 <= i < s.len() implies fits_a_label(#[trigger] s[i]) == crate::types::is_label_char(s[i]) by {}
    let fits_own = forall|i: int| 0 <= i < s.len() ==> crate::types::is_label_char(#[trigger] s[i]);
    if fits_own {
        assert forall|i: int| 0 <= i < s.len() implies fits_a_label(#[trigger] s[i]) by {
            assert(crate::types::is_label_char(s[i]));
        }
    }
    if all_fit {
        assert forall|i: int| 0 <= i < s.len() implies crate::types::is_label_char(#[trigger] s[i]) by {
            assert(fits_a_label(s[i]));
        }
    }
    if s.len() == 0 {
        vstd::utf8::is_ascii_chars_encode_utf8(s);
    }
    if r is Ok {
        assert forall|i: int| 0 <= i < s.len() && (#[trigger] s[i] == '-' || s[i] == '_') implies 0 < i && i + 1
            < s.len() && !(s[i + 1] == '-' || s[i + 1] == '_') by {
            assert(crate::types::is_label_separator(s[i]));
            if i + 1 < s.len() {
                let j = i + 1;
                assert(!crate::types::is_label_separator(s[j]));
            }
        }
    }
    if joined && s.len() > 0 {
        assert(s[0] == s[0] && s[s.len() - 1] == s[s.len() - 1]);
        assert(crate::types::single_separators(s)) by {
            assert forall|i: int, j: int|
                0 <= i && j == i + 1 && j < s.len() && crate::types::is_label_separator(#[trigger] s[i]) implies !crate::types::is_label_separator(
                #[trigger] s[j],
            ) by {
                assert(s[i] == '-' || s[i] == '_');
            }
        }
    }
}

/// A label can be minted exactly if it is a label, has at least two characters, and fits an account id
/// together with its top level account.
pub proof fn a_mintable_label_fits_under_its_account(tla_id: AccountId, name: &str, plain: Result<(), ContractError>, r: Result<(), ContractError>)
    requires
        call_ensures(validate_name, (name,), plain),
        call_ensures(validate_mintable_name, (&tla_id, name), r),
    ensures
        r is Ok <==> plain is Ok && name@.len() >= 2 && name@.len() + 1 + tla_id@.len() <= 64,
        plain is Err ==> r == plain,
        plain is Ok && r is Err ==> (r->Err_0 matches ContractError::InvalidName { reason } && {
            ||| reason is LabelTooShort && name@.len() < 2
            ||| reason is AccountIdTooLong && name@.len() + 1 + tla_id@.len() > 64
        }),
{
}

/// A full name is the label, a dot and the top level account, and it names an account exactly if it follows
/// the grammar of account ids.
pub proof fn a_full_name_is_label_dot_account(tla_id: AccountId, name: &str, text: String, key: Option<AccountId>)
    requires
        call_ensures(sub_account_key, (&tla_id, name), text),
        call_ensures(named_account, (&tla_id, name), key),
    ensures
        text@ == name@ + seq!['.'] + tla_id@,
        key is Some <==> crate::account::is_account_id(text@),
        key matches Some(id) ==> id@ == text@ && id == crate::account::sub_account_id(tla_id, name@),
        key == crate::account::named_account_of(tla_id, name@),
{
    assert(text@ =~= name@ + seq!['.'] + tla_id@);
}

// ---- pauses -----------------------------------------------------------------------------------

/// A pause holds from an admin's call on for seven days, and for nobody else's call.
pub proof fn a_pause_holds_for_seven_days(registry: &mut TlaRegistry, env: Env, now: u64, r: Result<Reply<()>, ContractError>)
    requires
        call_ensures(TlaRegistry::pause, (registry, &env), r),
    ensures
        r is Ok <==> old(registry).admins@.has(env.predecessor),
        r matches Err(e) ==> e is OnlyAdmin && *final(registry) == *old(registry),
        r is Ok ==> {
            &&& final(registry).paused_at(now) <==> now < capped_u64(env.now + 604_800_000_000_000)
            &&& *final(registry) == (TlaRegistry {
                paused: true,
                paused_until_ns: final(registry).paused_until_ns,
                ..*old(registry)
            })
        },
{
}

/// Lifting a pause ends it at once and for good, and nothing is reclaimed for a grace period after.
pub proof fn a_lifted_pause_holds_no_longer(registry: &mut TlaRegistry, env: Env, now: u64, r: Result<Reply<()>, ContractError>)
    requires
        call_ensures(TlaRegistry::unpause, (registry, &env), r),
    ensures
        r is Ok <==> old(registry).admins@.has(env.predecessor),
        r matches Err(e) ==> e is OnlyAdmin && *final(registry) == *old(registry),
        r is Ok ==> {
            &&& !final(registry).paused_at(now)
            &&& final(registry).reclaim_floor(now) == capped_u64(env.now + old(registry).grace_period_ns)
            &&& *final(registry) == (TlaRegistry {
                paused: false,
                paused_until_ns: final(registry).paused_until_ns,
                unpaused_at: env.now,
                ..*old(registry)
            })
        },
{
}

/// What is shown of a pause is what holds.
pub proof fn a_pause_shows(registry: TlaRegistry, env: Env, paused: bool, until: u64, market: bool)
    requires
        call_ensures(TlaRegistry::is_paused, (&registry, &env), paused),
        call_ensures(TlaRegistry::get_pause_expiry, (&registry, &env), until),
        call_ensures(TlaRegistry::is_marketplace_paused, (&registry,), market),
    ensures
        paused <==> registry.paused && env.now < registry.paused_until_ns,
        paused == registry.paused_at(env.now),
        paused ==> until == registry.paused_until_ns && env.now < until,
        !paused ==> until == 0,
        market == registry.marketplace_paused,
{
}

/// Only an admin opens and closes the marketplace, and that is all the two calls do.
pub proof fn an_admin_opens_and_closes_the_marketplace(
    registry: &mut TlaRegistry,
    reopened: &mut TlaRegistry,
    env: Env,
    r: Result<Reply<()>, ContractError>,
    s: Result<Reply<()>, ContractError>,
)
    requires
        call_ensures(TlaRegistry::pause_marketplace, (registry, &env), r),
        call_ensures(TlaRegistry::unpause_marketplace, (reopened, &env), s),
    ensures
        r is Ok <==> old(registry).admins@.has(env.predecessor),
        s is Ok <==> old(reopened).admins@.has(env.predecessor),
        r matches Err(e) ==> e is OnlyAdmin && *final(registry) == *old(registry),
        s matches Err(e) ==> e is OnlyAdmin && *final(reopened) == *old(reopened),
        r is Ok ==> *final(registry) == (TlaRegistry { marketplace_paused: true, ..*old(registry) }),
        s is Ok ==> *final(reopened) == (TlaRegistry { marketplace_paused: false, ..*old(reopened) }),
{
}

/// While a pause holds nothing may be taken back; after that the grace period counts from its end.
pub proof fn a_pause_pushes_reclaims_back(registry: TlaRegistry, now: u64)
    ensures
        registry.paused && now < registry.paused_until_ns ==> registry.reclaim_floor(now) == u64::MAX,
        registry.paused && now >= registry.paused_until_ns ==> registry.reclaim_floor(now) == capped_u64(
            registry.paused_until_ns + registry.grace_period_ns,
        ),
        !registry.paused ==> registry.reclaim_floor(now) == capped_u64(
            registry.unpaused_at + registry.grace_period_ns,
        ),
        registry.clock_at(now).grace_period_ns == registry.grace_period_ns,
        registry.clock_at(now).reclaim_floor_ns == registry.reclaim_floor(now),
{
}

// ---- where an account stands ------------------------------------------------------------------

/// Whether a term that ends at `expires_at` may be taken back now.
pub open spec fn term_has_run_out(expires_at: u64, clock: LifecycleClock, now: u64) -> bool {
    now >= expires_at && now >= capped_u64(expires_at + clock.grace_period_ns) && now >= clock.reclaim_floor_ns
}

/// A registered account stays registered until it is activated; a suspension shows while it runs; otherwise
/// the account is active until it expires, reclaimable once its grace and any pause are over, and in grace in
/// between.
pub proof fn an_account_stands_where_its_entry_says(tla: TlaEntry, clock: LifecycleClock, suspended_until: u64, now: u64, r: LifecycleStatus)
    requires
        call_ensures(TlaEntry::lifecycle, (&tla, &clock, suspended_until, now), r),
    ensures
        ({
            let held = tla.status is Suspended && now < suspended_until;
            &&& r is Registered <==> tla.status is Registered
            &&& r is Suspended <==> held
            &&& r is Active <==> !(tla.status is Registered) && !held && now < tla.expires_at
            &&& r is Reclaimable <==> !(tla.status is Registered) && !held && term_has_run_out(
                tla.expires_at,
                clock,
                now,
            )
            &&& r == tla.lifecycle_of(clock, suspended_until, now)
        }),
{
}

/// An account takes rentals exactly while its term runs, it is activated, and no suspension holds.
pub proof fn an_account_takes_rentals_while_it_runs(tla: TlaEntry, suspended_until: u64, now: u64, r: bool)
    requires
        call_ensures(TlaEntry::accepting_rentals, (&tla, suspended_until, now), r),
    ensures
        r <==> now < tla.expires_at && !(tla.status is Registered) && !(tla.status is Suspended && now
            < suspended_until),
        r == tla.takes_rentals(suspended_until, now),
{
}

/// A name may be taken back exactly if its account may, or its notice has run out, or its own term has;
/// otherwise it is active until it expires and in grace after that.
pub proof fn a_name_stands_by_its_account_its_notice_and_its_term(
    sub: SubAccountEntry,
    tla: TlaEntry,
    notice_ns: u64,
    clock: LifecycleClock,
    suspended_until: u64,
    now: u64,
    r: LifecycleStatus,
)
    requires
        call_ensures(effective_sub_lifecycle, (&sub, &tla, notice_ns, &clock, suspended_until, now), r),
    ensures
        ({
            let account_gone = !(tla.status is Registered) && !(tla.status is Suspended && now < suspended_until)
                && term_has_run_out(tla.expires_at, clock, now);
            let notice_over = sub.retraction_at matches Some(given) && now >= capped_u64(given + notice_ns) && now
                >= clock.reclaim_floor_ns;
            &&& r is Reclaimable <==> account_gone || notice_over || term_has_run_out(sub.expires_at, clock, now)
            &&& r is Active <==> !(r is Reclaimable) && now < sub.expires_at
            &&& r is Grace <==> !(r is Reclaimable) && now >= sub.expires_at
            &&& r == crate::lifecycle::sub_lifecycle(sub, tla, notice_ns, clock, suspended_until, now)
        }),
{
}

/// A registry judges a name by its own row, the entry of its account, the notice that the fees set, and the
/// registry's clock.
pub proof fn the_registry_judges_a_name_by_its_row(registry: TlaRegistry, now: u64, tla_id: AccountId, key: AccountId)
    ensures
        registry.name_lifecycle(now, tla_id, key) == crate::lifecycle::sub_lifecycle(
            registry.sub_accounts@[key],
            registry.tlas@[tla_id],
            registry.fee_config.retraction_notice_ns,
            LifecycleClock { grace_period_ns: registry.grace_period_ns, reclaim_floor_ns: registry.reclaim_floor(now) },
            if registry.suspended_until@.has(tla_id) {
                registry.suspended_until@[tla_id]
            } else {
                0
            },
            now,
        ),
        registry.suspension_of(tla_id) == (if registry.suspended_until@.has(tla_id) {
            registry.suspended_until@[tla_id]
        } else {
            0
        }),
{
}

/// What lapses, lapses after fixed times: a year, seven days, two days, an hour, a minute.
pub proof fn the_fixed_times()
    ensures
        crate::types::ONE_YEAR_NS == 365 * 86_400 * 1_000_000_000,
        crate::common::MAX_AUTHORITY_HOLD_NS == 7 * 86_400 * 1_000_000_000,
        crate::common::MIN_LEASE_RETRACT_NOTICE_NS == 23 * 3_600 * 1_000_000_000,
        crate::registry::UPGRADE_DELAY_NS == 2 * 86_400 * 1_000_000_000,
        crate::registry::MIN_GRACE_PERIOD_NS == 60 * 1_000_000_000,
        crate::registry::MIN_LEASE_TERM_NS == 60 * 1_000_000_000,
        crate::registry::MAX_LEASE_TERM_NS == 10 * 365 * 86_400 * 1_000_000_000,
        crate::registry::PRODUCTION_LEASE_TERM_NS == 365 * 86_400 * 1_000_000_000,
        crate::registry::PRODUCTION_GRACE_PERIOD_NS == 30 * 86_400 * 1_000_000_000,
        crate::admin::MANUAL_ORDER_RELEASE_AFTER_NS == 3_600 * 1_000_000_000,
        crate::admin::MIN_RETRACTION_NOTICE_NS == 86_400 * 1_000_000_000,
        crate::deployer::DEFAULT_APPROVAL_DELAY_NS == 2 * 86_400 * 1_000_000_000,
        crate::deployer::DEPLOY_LOCK_TTL_NS == 600 * 1_000_000_000,
{
}

/// The sizes that nothing may exceed, and the sums that are fixed.
pub proof fn the_fixed_limits()
    ensures
        crate::admin::MAX_ALLOWLIST_SIZE == 16,
        crate::admin::MAX_SWEEPABLE_SIZE == 64,
        crate::admin::MAX_VENUES == 8,
        crate::admin::MAX_AUTHORITY_SET == 32,
        crate::admin::MAX_TLA_BATCH == 650,
        crate::admin::LOG_BUDGET_BYTES == 16_384,
        crate::admin::LOG_ENVELOPE_BYTES == 512,
        crate::activity::ACTIVITY_CAPACITY == 256,
        crate::rental::MAX_ORDER_ID_LEN == 64,
        crate::rental::LOW_ALLOWANCE == 10,
        crate::types::MAX_PAGE_LIMIT == 100,
        crate::pricing::MAX_USD_MICRO == 100_000_000 * 1_000_000,
        crate::pricing::MAX_NEAR_USD_RATE_MICRO == 1_000_000 * 1_000_000,
        crate::pricing::BPS_DENOMINATOR == 10_000,
        crate::pricing::YOCTO_PER_NEAR == crate::types::ONE_NEAR,
        crate::types::ONE_NEAR == 1_000_000_000_000_000_000_000_000,
        crate::common::FT_STORAGE_DEPOSIT_YOCTO * 800 == crate::types::ONE_NEAR,
        crate::reclaim::SWEEP_ATTACHED_REQUIRED == crate::common::FT_STORAGE_DEPOSIT_YOCTO + 1,
        crate::deployer::GLOBAL_CODE_COST_PER_BYTE * 10_000 == crate::types::ONE_NEAR,
{
}

/// The later of two times is one of them and before neither.
pub proof fn the_later_time(a: u64, b: u64)
    ensures
        max_u64(a, b) >= a,
        max_u64(a, b) >= b,
        max_u64(a, b) == a || max_u64(a, b) == b,
{
}

/// What each step of a chain may burn, in teragas.
pub proof fn the_fixed_gas()
    ensures
        crate::rental::CREATE_TGAS == 90,
        crate::rental::SET_PAYOUT_TGAS == 30,
        crate::rental::SET_PAYOUT_CB_TGAS == 10,
        crate::rental::CALLBACK_TGAS == 15,
        crate::rental::RERENT_FORCE_TGAS == 45,
        crate::rental::PUSH_LEASE_TGAS == 20,
        crate::rental::LEASE_CB_TGAS == 10,
        crate::rental::RERENT_BALANCES_CB_TGAS == 85,
        crate::reclaim::HOS_SWEEP_TGAS == 120,
        crate::reclaim::FORCE_TRANSFER_TGAS == 45,
        crate::reclaim::FINALIZE_CB_TGAS == 10,
        crate::reclaim::BALANCES_CB_TOTAL_TGAS == 80,
        crate::marketplace::TRANSFER_FORCE_TGAS == 45,
        crate::marketplace::TRANSFER_CB_TGAS == 20,
        crate::marketplace::TRANSFER_GATE_CB_TGAS == 180,
        crate::nft::NFT_ON_TRANSFER_TGAS == 25,
        crate::nft::RESOLVE_TRANSFER_TGAS == 80,
        crate::nft::ROTATION_CALL_TGAS == 125,
        crate::asset_gate::FT_BALANCE_TGAS == 6,
        crate::registry::CLAIM_REFUND_CB_TGAS == 10,
        crate::admin::SEAL_CB_TGAS == 5,
        crate::common::DEPLOY_AND_MIGRATE_TGAS == 60,
        crate::deployer::ON_DEPLOYED_TGAS == 10,
        crate::deployer::SEAL_CB_TGAS == 5,
{
}

/// An account id is read exactly from a text that follows the grammar, and its text is the one it was read from.
pub proof fn an_account_id_is_its_text(text: &str, r: Option<AccountId>, id: AccountId, shown: String, len: usize)
    requires
        call_ensures(AccountId::parse, (text,), r),
        call_ensures(AccountId::text, (&id,), shown),
        call_ensures(AccountId::text_len, (&id,), len),
    ensures
        r is Some <==> crate::account::is_account_id(text@),
        r matches Some(read) ==> read@ == text@,
        shown@ == id@,
        len == id@.len(),
{
}

/// A label stands under an account exactly if the id ends in a dot and the account, and it is then what comes before them.
pub proof fn a_label_comes_before_its_account(id: AccountId, tla: AccountId, r: Option<String>)
    requires
        call_ensures(label_under, (&id, &tla), r),
    ensures
        r matches Some(label) ==> id@ == label@ + seq!['.'] + tla@,
        r is None ==> forall|label: Seq<char>| id@ != #[trigger] (label + seq!['.']) + tla@,
{
    if let Some(label) = r {
        let cut = id@.len() - tla@.len() - 1;
        let text = label@ + seq!['.'] + tla@;
        assert forall|i: int| 0 <= i < id@.len() implies text[i] == #[trigger] id@[i] by {
            if i >= cut {
                assert(id@.subrange(cut, id@.len() as int)[i - cut] == (seq!['.'] + tla@)[i - cut]);
            }
        }
        assert(text =~= id@);
    } else {
        assert forall|label: Seq<char>| id@ != #[trigger] (label + seq!['.']) + tla@ by {
            if id@ == (label + seq!['.']) + tla@ {
                let cut = id@.len() - tla@.len() - 1;
                assert(id@.subrange(cut, id@.len() as int) =~= seq!['.'] + tla@);
            }
        }
    }
}

/// A full name is called by its account where it is one, and otherwise by its parts; its text is the same either way.
pub proof fn a_full_name_keeps_its_text(tla_id: AccountId, name: String, r: FullName, text: String)
    requires
        call_ensures(FullName::of, (tla_id, name), r),
        call_ensures(FullName::text, (&r,), text),
        r matches FullName::Account(id) ==> id.valid(),
        crate::account::named_account_of(tla_id, name@) is Some ==> crate::account::sub_account_id(tla_id, name@)@
            == crate::account::sub_account_text(tla_id, name@),
    ensures
        r is Account <==> crate::account::is_account_id(name@ + seq!['.'] + tla_id@),
        r == crate::account::full_name_of(tla_id, name),
        text@ == name@ + seq!['.'] + tla_id@,
{
    assert(crate::account::sub_account_text(tla_id, name@) =~= name@ + seq!['.'] + tla_id@);
}

/// A lease is sweepable from its end on; terms are standard if none of the three was agreed; an order is in flight for one name and one payer.
pub proof fn small_questions(
    sub: SubAccountEntry,
    now: u64,
    sweepable: bool,
    terms: TlaTerms,
    standard: bool,
    order: PaidOrderState,
    key: AccountId,
    payer: AccountId,
    ours: bool,
)
    requires
        call_ensures(SubAccountEntry::sweepable, (&sub, now), sweepable),
        call_ensures(TlaTerms::is_standard, (&terms,), standard),
        call_ensures(PaidOrderState::in_flight_for, (&order, &key, &payer), ours),
    ensures
        sweepable <==> now >= sub.expires_at,
        standard <==> terms.allocation_fee_usd_micro is None && terms.tla_rent_usd_micro is None
            && terms.sub_fee_usd_micro is None,
        ours <==> (order matches PaidOrderState::InFlight { full_name, payer: by, .. } && full_name == key && by == payer),
{
}

/// A full name is as long as its label, a dot and its account together, as far as a byte counts.
pub proof fn a_full_name_counts_its_dot(tla_id: AccountId, name: &str, r: u8)
    requires
        crate::types::byte_len(name@) + 1 + tla_id@.len() <= 255,
        call_ensures(total_name_length, (&tla_id, name), r),
    ensures
        r == crate::types::byte_len(name@) + 1 + tla_id@.len(),
{
}

/// What the bytes of a key and of a stored state say, and when two digests are the same.
pub proof fn bytes_say_what_they_are(key: Vec<u8>, ed25519: bool, raw: Vec<u8>, version: Option<u16>, a: [u8; 32], b: [u8; 32], same: bool)
    requires
        call_ensures(crate::common::is_ed25519, (key,), ed25519),
        call_ensures(crate::common::state_version, (&raw,), version),
        call_ensures(crate::common::same_digest, (&a, &b), same),
    ensures
        ed25519 <==> key@.len() == 33 && key@[0] == 0,
        version is Some <==> raw@.len() >= 2,
        version matches Some(v) ==> v % 256 == raw@[0] && v / 256 == raw@[1],
        same <==> a@ == b@,
{
    assert(a@ == b@ ==> a == b) by {
        if a@ == b@ {
            assert(a =~= b);
        }
    }
}

/// A map keeps what it is given: a key that is written has its value and every other key has what it had; a key that is taken out is gone and
/// every other key stays; a new key comes last, and a known one keeps its place.
pub proof fn a_map_keeps_what_it_is_given<I, V>(m: OrderedView<I, V>, k: I, v: V, other: I)
    requires
        m.consistent(),
        other != k,
    ensures
        m.insert(k, v).has(k) && m.insert(k, v)[k] == v,
        m.insert(k, v).get(other) == m.get(other),
        !m.remove(k).has(k),
        m.remove(k).get(other) == m.get(other),
        m.insert(k, v).consistent(),
        m.remove(k).consistent(),
        m.has(k) ==> m.insert(k, v).keys == m.keys && m.remove(k).len() == m.len() - 1,
        !m.has(k) ==> m.insert(k, v).keys == m.keys.push(k) && m.remove(k).keys == m.keys,
        m.get(k) is Some <==> m.has(k),
        m.has(k) ==> m.get(k) == Some(m[k]),
{
    if m.has(k) {
        let keys = m.keys;
        assert(keys.contains(k));
        let p = crate::ordered::position_of(keys, k);
        assert(0 <= p < keys.len() && keys[p] == k);
        let left = m.remove(k).keys;
        assert(left.no_duplicates());
        assert forall|x: I| #[trigger] left.contains(x) <==> m.remove(k).map.contains_key(x) by {
            if left.contains(x) {
                let i = choose|i: int| 0 <= i < left.len() && left[i] == x;
                assert(keys.contains(if i == p {
                    keys[keys.len() - 1]
                } else {
                    keys[i]
                }));
                assert(x != k);
            }
            if m.map.contains_key(x) && x != k {
                assert(keys.contains(x));
                let i = choose|i: int| 0 <= i < keys.len() && keys[i] == x;
                if i < keys.len() - 1 {
                    assert(left[i] == x);
                } else {
                    assert(left[p] == x);
                }
            }
        }
    } else {
        assert(!m.keys.contains(k));
        assert forall|x: I| #[trigger] m.insert(k, v).keys.contains(x) <==> m.insert(k, v).map.contains_key(x) by {
            if m.insert(k, v).keys.contains(x) {
                let i = choose|i: int| 0 <= i < m.keys.push(k).len() && m.keys.push(k)[i] == x;
                if i < m.keys.len() {
                    assert(m.keys.contains(m.keys[i]));
                }
            }
            if m.map.contains_key(x) {
                assert(m.keys.contains(x));
                let i = choose|i: int| 0 <= i < m.keys.len() && m.keys[i] == x;
                assert(m.keys.push(k)[i] == x);
            }
            if x == k {
                assert(m.keys.push(k)[m.keys.len() as int] == k);
            }
        }
    }
}

/// A letter or a digit of an account id.
pub open spec fn plain(c: char) -> bool {
    'a' <= c <= 'z' || '0' <= c <= '9'
}

/// A dot, a hyphen or an underscore.
pub open spec fn dividing(c: char) -> bool {
    c == '.' || c == '-' || c == '_'
}

/// A text is read as an account id exactly if it has two to sixty four characters, each a letter, a digit or a divider, starts and ends with a
/// letter or a digit, and has no two dividers side by side.
pub proof fn an_account_id_follows_its_grammar(text: &str, r: Option<AccountId>)
    requires
        call_ensures(AccountId::parse, (text,), r),
    ensures
        r is Some ==> {
            &&& 2 <= text@.len() <= 64
            &&& plain(text@[0])
            &&& plain(text@[text@.len() - 1])
            &&& forall|i: int| 0 <= i < text@.len() ==> plain(#[trigger] text@[i]) || dividing(text@[i])
            &&& forall|i: int, j: int|
                0 <= i && j == i + 1 && j < text@.len() && dividing(#[trigger] text@[i]) ==> !dividing(#[trigger] text@[j])
        },
        r is None ==> {
            ||| text@.len() < 2
            ||| text@.len() > 64
            ||| !plain(text@[0])
            ||| !plain(text@[text@.len() - 1])
            ||| exists|i: int| 0 <= i < text@.len() && !plain(#[trigger] text@[i]) && !dividing(text@[i])
            ||| exists|i: int, j: int|
                0 <= i && j == i + 1 && j < text@.len() && dividing(#[trigger] text@[i]) && dividing(#[trigger] text@[j])
        },
{
    let s = text@;
    assert forall|c: char| #[trigger] crate::account::is_alphanumeric(c) == plain(c) by {}
    assert forall|c: char| #[trigger] crate::account::is_separator(c) == dividing(c) by {}
    if r is Some {
        assert forall|i: int| 0 <= i < s.len() implies plain(#[trigger] s[i]) || dividing(s[i]) by {
            assert(crate::account::is_alphanumeric(s[i]) || crate::account::is_separator(s[i]));
        }
        assert forall|i: int, j: int|
            0 <= i && j == i + 1 && j < s.len() && dividing(#[trigger] s[i]) implies !dividing(#[trigger] s[j]) by {
            assert(crate::account::is_separator(s[i]));
        }
        assert(crate::account::is_alphanumeric(s[0]));
        assert(crate::account::is_alphanumeric(s[s.len() - 1]));
    } else if 2 <= s.len() <= 64 && plain(s[0]) && plain(s[s.len() - 1]) {
        assert(crate::account::is_alphanumeric(s[0]));
        assert(crate::account::is_alphanumeric(s[s.len() - 1]));
        if forall|i: int| 0 <= i < s.len() ==> plain(#[trigger] s[i]) || dividing(s[i]) {
            assert forall|i: int| 0 <= i < s.len() implies crate::account::is_alphanumeric(#[trigger] s[i])
                || crate::account::is_separator(s[i]) by {
                assert(plain(s[i]) || dividing(s[i]));
            }
            if forall|i: int, j: int|
                0 <= i && j == i + 1 && j < s.len() && dividing(#[trigger] s[i]) ==> !dividing(#[trigger] s[j]) {
                assert forall|i: int, j: int|
                    0 <= i && j == i + 1 && j < s.len() && crate::account::is_separator(#[trigger] s[i]) implies !crate::account::is_separator(
                    #[trigger] s[j],
                ) by {
                    assert(dividing(s[i]));
                }
                assert(crate::account::is_account_id(s));
            }
        }
    }
}

/// A batch takes up, of its record, each of its ids with two quotes and a comma.
pub proof fn a_batch_is_measured_by_its_ids(ids: Seq<AccountId>, last: AccountId)
    ensures
        crate::admin::logged_bytes(Seq::<AccountId>::empty()) == 0,
        crate::admin::logged_bytes(ids.push(last)) == crate::admin::logged_bytes(ids) + last@.len() + 3,
{
    assert(ids.push(last).drop_last() =~= ids);
}

} // verus!
