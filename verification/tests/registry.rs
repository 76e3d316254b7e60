use tla_registry::account::{named_account, sub_account_key, AccountId};
use tla_registry::activity::ACTIVITY_CAPACITY;
use tla_registry::admin::{MANUAL_ORDER_RELEASE_AFTER_NS, MAX_TLA_BATCH};
use tla_registry::common::{
    state_version, MintOutcome, PromiseError, RotationCause, MAX_AUTHORITY_HOLD_NS, MIN_LEASE_RETRACT_NOTICE_NS,
};
use tla_registry::error::{ContractError, InitError, NameInvalidReason};
use tla_registry::events::{BlockReason, Event, LeaseIntent};
use tla_registry::fees;
use tla_registry::host::{
    Call, Callback, Env, MintSettlement, NftRotation, NftTransferCall, PendingReRent, PromiseOrValue, Reply,
};
use tla_registry::legacy;
use tla_registry::ordered::OrderedMap;
use tla_registry::pricing::{MAX_USD_MICRO, USD_MICRO_PER_DOLLAR};
use tla_registry::reclaim::SWEEP_ATTACHED_REQUIRED;
use tla_registry::registry::{
    TlaRegistry, PRODUCTION_LEASE_TERM_NS, STATE_VERSION, UPGRADE_DELAY_NS,
};
use tla_registry::rental::MAX_ORDER_ID_LEN;
use tla_registry::types::{
    validate_mintable_name, validate_name, LifecycleStatus, Listing, PremiumCategory, SubAccountDetailView,
    SubAccountEntry, TlaTerms, TlaType, NFT_SPEC, ONE_YEAR_NS,
};

const ADMIN: &str = "hos.testnet";
const HOSEXT: &str = "hos-extension.testnet";
const TREASURY: &str = "treasury.testnet";
const COUNCIL: &str = ADMIN;
const OTHER_COUNCIL: &str = "council.testnet";
const NEW_COUNCIL: &str = "council2.testnet";
const KEEPER: &str = "keeper.testnet";
const TLA: &str = "mytla";
const ALICE: &str = "alice.testnet";
const BOB: &str = "bob.testnet";
const CAROL: &str = "carol.testnet";
const MINUTE_NS: u64 = 60 * 1_000_000_000;
const GRACE_NS: u64 = 30 * 24 * 60 * 60 * 1_000_000_000;
const DAY_NS: u64 = 24 * 60 * 60 * 1_000_000_000;
const WEEK_NS: u64 = 7 * 24 * 60 * 60 * 1_000_000_000;
const COOLDOWN: u64 = 300 * 1_000_000_000;
const NEAR_USD_MICRO: u128 = 5_000_000;
const LAUNCH_SEED: usize = 3_900;
const PER_CALL: usize = MAX_TLA_BATCH;
const CALLS_PER_PASS: usize = LAUNCH_SEED.div_ceil(PER_CALL);

fn acc(s: &str) -> AccountId {
    AccountId::parse(s).unwrap()
}

fn acc_key(name: &str) -> AccountId {
    acc(&format!("{name}.{TLA}"))
}

fn ctx(predecessor: &str, deposit: u128, ts: u64) -> Env {
    Env {
        predecessor: acc(predecessor),
        current: acc("registry.testnet"),
        deposit,
        now: ts,
        height: 0,
        balance: 100_000_000_000_000_000_000_000_000,
        storage_usage: 307_200,
        storage_byte_cost: 10_000_000_000_000_000_000,
    }
}

/// A callback sees the registry as its caller, and whether the call before it succeeded.
fn ctx_callback(success: bool) -> (Env, bool) {
    (ctx("registry.testnet", 0, 0), success)
}

fn init(grace: u64, council: &str, lease: Option<u64>) -> Result<TlaRegistry, InitError> {
    TlaRegistry::new(
        &ctx(ADMIN, 1, 0),
        acc(ADMIN),
        acc(HOSEXT),
        grace,
        acc(TREASURY),
        acc(council),
        lease,
    )
}

fn deploy() -> (TlaRegistry, Env) {
    (init(GRACE_NS, COUNCIL, None).unwrap(), ctx(ADMIN, 1, 0))
}

fn deploy_split() -> (TlaRegistry, Env) {
    (init(GRACE_NS, OTHER_COUNCIL, None).unwrap(), ctx(ADMIN, 1, 0))
}

fn deploy_with_terms(lease: Option<u64>, grace: u64) -> (TlaRegistry, Env) {
    let c = init(grace, COUNCIL, lease).unwrap_or_else(|e| panic!("{}", e.message()));
    (c, ctx(ADMIN, 1, 0))
}

fn deploy_priced() -> (TlaRegistry, Env) {
    let (mut c, e) = deploy();
    c.admin_set_initial_rate(&e, NEAR_USD_MICRO).unwrap();
    (c, e)
}

fn usd_to_near(usd_micro: u128) -> u128 {
    usd_micro * 1_000_000_000_000_000_000_000_000 / NEAR_USD_MICRO
}

fn deploy_with_open_tla() -> (TlaRegistry, Env) {
    let (mut c, _) = deploy_priced();
    let e = ctx(COUNCIL, 1, 0);
    c.register_tla(&e, acc(TLA), TlaType::Open, PremiumCategory::Standard, None)
        .unwrap();
    let e = ctx(ADMIN, 1, 0);
    c.activate_open_tla(&e, acc(TLA)).unwrap();
    (c, e)
}

fn deploy_with_recovery() -> (TlaRegistry, Env) {
    let (mut c, _) = deploy_with_open_tla();
    let e = ctx(ADMIN, 1, 0);
    c.add_recovery_authority(&e, acc(CAROL)).unwrap();
    (c, e)
}

fn deploy_with_business_tla() -> (TlaRegistry, Env) {
    let (mut c, _) = deploy_priced();
    registered_business(&mut c);
    let fee = usd_to_near(
        c.get_fee_config().tla_allocation_fee_usd_micro + fees::base_rent(5, &c.get_fee_config()),
    );
    let e = ctx(ALICE, fee, 0);
    c.activate_tla(&e, acc(TLA)).unwrap();
    (c, e)
}

fn bound_relay() -> (TlaRegistry, Env) {
    let (mut c, _) = deploy_with_business_tla();
    let e = ctx(ADMIN, 1, 1);
    c.add_payment_authority(&e, acc(CAROL)).unwrap();
    c.bind_payment_authority_tla(&e, acc(CAROL), acc(TLA), 50)
        .unwrap();
    (c, e)
}

fn deploy_initialized() -> (TlaRegistry, Env) {
    let (mut c, _) = deploy();
    let e = ctx(ADMIN, 1, 1);
    c.admin_set_initial_rate(&e, dollars(5)).unwrap();
    c.set_price_oracle(&e, acc(KEEPER)).unwrap();
    (c, e)
}

fn dollars(d: u128) -> u128 {
    d * 1_000_000
}

fn rent_total(e: &Env, c: &TlaRegistry, name: &str) -> u128 {
    c.get_rent_price(e, acc(TLA), name.to_string())
        .unwrap()
        .total_yocto
}

fn rent_near_open(c: &TlaRegistry, name: &str) -> u128 {
    let label_len = u8::try_from(name.len()).unwrap_or(0);
    usd_to_near(fees::sub_account_rent(
        label_len,
        &PremiumCategory::Standard,
        &c.get_fee_config(),
    ))
}

fn settled(
    name: &str,
    owner: &str,
    payer: &str,
    rent_yocto: u128,
    attached_yocto: u128,
) -> MintSettlement {
    MintSettlement {
        tla_id: acc(TLA),
        name: name.to_string(),
        owner: acc(owner),
        payer: acc(payer),
        rent_yocto,
        attached_yocto,
        order_id: None,
    }
}

fn settled_for_order(name: &str, owner: &str, payer: &str, order_id: &str) -> MintSettlement {
    MintSettlement {
        order_id: Some(order_id.to_string()),
        ..settled(name, owner, payer, 0, 0)
    }
}

fn payout_of(e: &Env, c: &TlaRegistry, name: &str) -> AccountId {
    c.get_sub_account(e, acc(TLA), name.to_string())
        .unwrap()
        .payout_account
}

fn rent_alice_sub(c: &mut TlaRegistry, name: &str) -> Env {
    let rent_near = rent_near_open(c, name);
    let deposit = c.get_fee_config().account_creation_deposit_yocto;
    let total = rent_near + deposit;
    let e = ctx(ALICE, total, 1);
    let _ = c
        .rent_sub_account(&e, acc(TLA), name.to_string(), None)
        .unwrap();
    let (e, _) = ctx_callback(true);
    c.on_sub_account_created(
        &e,
        settled(name, ALICE, ALICE, rent_near, total),
        Ok(MintOutcome::Active),
    )
    .unwrap();
    e
}

fn settle_transfer(c: &mut TlaRegistry, name: &str, from: &str, to: &str) -> Env {
    let (e, _) = ctx_callback(true);
    c.nft_on_rotation_resolved(
        &e,
        NftRotation {
            tla_id: acc(TLA),
            name: name.to_string(),
            from: acc(from),
            to: acc(to),
            memo: None,
            cause: RotationCause::Transfer,
        },
        Ok(true),
    )
    .unwrap();
    e
}

fn registered_business(c: &mut TlaRegistry) -> Env {
    let e = ctx(ADMIN, 1, 0);
    c.register_tla(
        &e,
        acc(TLA),
        TlaType::Business,
        PremiumCategory::Standard,
        Some(acc(ALICE)),
    )
    .unwrap();
    e
}

fn terms(allocation: Option<u128>, rent: Option<u128>, sub: Option<u128>) -> TlaTerms {
    TlaTerms {
        allocation_fee_usd_micro: allocation,
        tla_rent_usd_micro: rent,
        sub_fee_usd_micro: sub,
    }
}

fn rent_business_sub(c: &mut TlaRegistry, name: &str) -> Env {
    let rent_near = usd_to_near(c.get_fee_config().sub_fee_per_account_usd_micro);
    let total = rent_near + c.get_fee_config().account_creation_deposit_yocto;
    let e = ctx(ALICE, total, 1);
    let _ = c
        .rent_sub_account(&e, acc(TLA), name.to_string(), None)
        .unwrap();
    let (e, _) = ctx_callback(true);
    c.on_sub_account_created(
        &e,
        settled(name, ALICE, ALICE, rent_near, total),
        Ok(MintOutcome::Active),
    )
    .unwrap();
    e
}

fn parked_business_name(c: &mut TlaRegistry, name: &str) -> Env {
    rent_business_sub(c, name);
    let (e, _) = ctx_callback(true);
    c.on_reclaim_finalized(&e, acc(TLA), name.to_string(), acc(ALICE), Ok(true));
    assert!(c.is_name_re_rentable(acc(TLA), name.to_string()));
    e
}

fn rent_employee_sub(c: &mut TlaRegistry, name: &str, employee: &str) -> Env {
    let creation = c.get_fee_config().account_creation_deposit_yocto;
    let e = ctx(ADMIN, 1, 1);
    c.add_payment_authority(&e, acc(CAROL)).unwrap();
    c.bind_payment_authority_tla(&e, acc(CAROL), acc(TLA), 50)
        .unwrap();
    let e = ctx(CAROL, creation, 1);
    let _ = c
        .rent_sub_account_paid(
            &e,
            acc(TLA),
            name.to_string(),
            acc(employee),
            acc(ALICE),
            format!("ord-{name}"),
        )
        .unwrap();
    e
}

fn rotate_treasury_to(c: &mut TlaRegistry, next: &str) -> Env {
    let e = ctx(OTHER_COUNCIL, 1, 1);
    c.approve_treasury_rotation(&e, acc(next)).unwrap();
    let e = ctx(next, 1, 1);
    c.commit_treasury_rotation(&e).unwrap();
    e
}

fn pause_market(c: &mut TlaRegistry) -> Env {
    let e = ctx(ADMIN, 1, 2);
    c.pause_marketplace(&e).unwrap();
    e
}

fn refresh_rate(c: &mut TlaRegistry, at: u64) -> Env {
    let e = ctx(ADMIN, 1, at);
    c.set_near_usd_rate(&e, NEAR_USD_MICRO).unwrap();
    e
}

fn expired_and_paused(name: &str) -> (TlaRegistry, u64) {
    let (mut c, _) = deploy_with_open_tla();
    let e = rent_alice_sub(&mut c, name);
    let expires = c
        .get_sub_account(&e, acc(TLA), name.to_string())
        .unwrap()
        .expires_at;
    let e = ctx(ADMIN, 1, expires + GRACE_NS);
    c.pause(&e).unwrap();
    (c, expires)
}

fn status_of(e: &Env, c: &TlaRegistry, name: &str) -> LifecycleStatus {
    c.get_sub_account(e, acc(TLA), name.to_string())
        .unwrap()
        .lifecycle
}

fn full_names(page: Vec<SubAccountDetailView>) -> Vec<String> {
    page.into_iter().map(|d| d.sub_account.full_name.text()).collect()
}

fn owned(e: &Env, c: &TlaRegistry, who: &str) -> Vec<String> {
    full_names(c.list_sub_accounts_by_owner(e, acc(who), 0, 100))
}

fn code() -> Vec<u8> {
    vec![7u8; 32]
}

fn hash() -> [u8; 32] {
    near_sdk::env::sha256_array(&code())
}

fn a_key() -> String {
    "ed25519:DcA2MzgpJbrUATQLLceocVckhhAqrkingax4oJ9kZ847".to_string()
}

/// Rewrites the row of a name in place.
fn edit_row(c: &mut TlaRegistry, name: &str, edit: fn(SubAccountEntry, u64) -> SubAccountEntry, at: u64) {
    let row = *c.sub_accounts.get(&acc_key(name)).unwrap();
    c.sub_accounts.insert(acc_key(name), edit(row, at));
}

fn lapse_the_tla(c: &mut TlaRegistry) -> u64 {
    let at = c.tlas.get(&acc(TLA)).unwrap().expires_at + GRACE_NS + DAY_NS;
    edit_row(
        c,
        "alice",
        |row, at| SubAccountEntry { expires_at: at + 365 * DAY_NS, ..row },
        at,
    );
    at
}

fn register_open(e: &Env, c: &mut TlaRegistry, ids: Vec<AccountId>) -> Result<Reply<()>, ContractError> {
    c.register_tlas(e, ids, TlaType::Open, PremiumCategory::Standard, None)
}

fn seed_names(count: usize) -> Vec<AccountId> {
    (0..count).map(|i| acc(&format!("seed{i}"))).collect()
}

fn seed_name(index: usize) -> String {
    format!("seed{index}")
}

fn as_v1(c: TlaRegistry) -> legacy::TlaRegistryV1 {
    legacy::TlaRegistryV1 {
        state_version: 1,
        tlas: c.tlas,
        sub_accounts: c.sub_accounts,
        sub_accounts_by_owner: c.sub_accounts_by_owner,
        sub_accounts_by_tla: c.sub_accounts_by_tla,
        recent_activity: c.recent_activity,
        admins: c.admins,
        fee_config: c.fee_config,
        total_revenue: c.total_revenue,
        sub_account_count: c.sub_account_count,
        paused: c.paused,
        version: c.version,
        pending_refunds: c.pending_refunds,
        total_pending_refunds: c.total_pending_refunds,
        ft_allowlist: c.ft_allowlist,
        business_sub_count: c.business_sub_count,
        business_sub_cap_override: c.business_sub_cap_override,
        parked_names: c.parked_names,
        reclaim_pending: c.reclaim_pending,
        payment_authorities: c.payment_authorities,
        recovery_authorities: c.recovery_authorities,
        hos_extension: c.hos_extension,
        grace_period_ns: c.grace_period_ns,
        price_oracle: c.price_oracle,
        near_usd_rate_micro: c.near_usd_rate_micro,
        rate_updated_at: c.rate_updated_at,
        rate_sequence: c.rate_sequence,
        treasury: c.treasury,
        council: c.council,
        marketplace_paused: c.marketplace_paused,
        paused_until_ns: c.paused_until_ns,
        unpaused_at: c.unpaused_at,
        sweepable_tokens: c.sweepable_tokens,
        suspended_until: c.suspended_until,
        authority_allowances: c.authority_allowances,
        authority_mints: c.authority_mints,
        nft_contract_metadata: c.nft_contract_metadata,
        approved_code_hash: c.approved_code_hash,
        approved_at: c.approved_at,
        upgrade_delay_ns: c.upgrade_delay_ns,
        venues: c.venues,
        upgrade_proven: c.upgrade_proven,
    }
}

fn as_v4(c: TlaRegistry) -> legacy::TlaRegistryV4 {
    legacy::TlaRegistryV4 {
        state_version: 4,
        tlas: c.tlas,
        sub_accounts: c.sub_accounts,
        sub_accounts_by_owner: c.sub_accounts_by_owner,
        sub_accounts_by_tla: c.sub_accounts_by_tla,
        recent_activity: c.recent_activity,
        admins: c.admins,
        fee_config: c.fee_config,
        total_revenue: c.total_revenue,
        sub_account_count: c.sub_account_count,
        paused: c.paused,
        version: c.version,
        pending_refunds: c.pending_refunds,
        total_pending_refunds: c.total_pending_refunds,
        ft_allowlist: c.ft_allowlist,
        business_sub_count: c.business_sub_count,
        business_sub_cap_override: c.business_sub_cap_override,
        parked_names: c.parked_names,
        reclaim_pending: c.reclaim_pending,
        payment_authorities: c.payment_authorities,
        recovery_authorities: c.recovery_authorities,
        hos_extension: c.hos_extension,
        grace_period_ns: c.grace_period_ns,
        price_oracle: c.price_oracle,
        near_usd_rate_micro: c.near_usd_rate_micro,
        rate_updated_at: c.rate_updated_at,
        rate_sequence: c.rate_sequence,
        treasury: c.treasury,
        council: c.council,
        marketplace_paused: c.marketplace_paused,
        paused_until_ns: c.paused_until_ns,
        unpaused_at: c.unpaused_at,
        sweepable_tokens: c.sweepable_tokens,
        suspended_until: c.suspended_until,
        authority_allowances: c.authority_allowances,
        authority_mints: c.authority_mints,
        nft_contract_metadata: c.nft_contract_metadata,
        approved_code_hash: c.approved_code_hash,
        approved_at: c.approved_at,
        upgrade_delay_ns: c.upgrade_delay_ns,
        venues: c.venues,
        upgrade_proven: c.upgrade_proven,
        tla_terms: c.tla_terms,
        lease_term_ns: c.lease_term_ns,
        paid_order_ids: c.paid_order_ids,
        pending_council: c.pending_council,
        pending_council_at: c.pending_council_at,
    }
}

#[test]
fn valid_names_accepted() {
    assert!(validate_name("alice").is_ok());
    assert!(validate_name("a1-b_c").is_ok());
}

#[test]
fn invalid_names_rejected() {
    assert!(validate_name("").is_err());
    assert!(validate_name(&"a".repeat(61)).is_err());
    assert!(validate_name("Alice").is_err());
    assert!(validate_name("has.dot").is_err());
    assert!(validate_name("-edge").is_err());
    assert!(validate_name("edge_").is_err());
}

#[test]
fn a_label_the_account_id_grammar_cannot_hold_is_refused_at_the_door() {
    let tla = acc(TLA);
    let widest = "a".repeat(64 - 1 - TLA.len());
    assert!(validate_mintable_name(&tla, &widest).is_ok());

    let one_over = "a".repeat(64 - TLA.len());
    assert!(validate_name(&one_over).is_ok());
    assert!(matches!(
        validate_mintable_name(&tla, &one_over),
        Err(ContractError::InvalidName {
            reason: NameInvalidReason::AccountIdTooLong
        })
    ));
}

#[test]
fn a_single_character_label_is_refused_so_short_account_ids_stay_unmintable() {
    let tla = acc(TLA);
    assert!(validate_name("a").is_ok());
    assert!(matches!(
        validate_mintable_name(&tla, "a"),
        Err(ContractError::InvalidName {
            reason: NameInvalidReason::LabelTooShort
        })
    ));
    assert!(validate_mintable_name(&tla, "ab").is_ok());
}

#[test]
fn a_quote_refuses_a_name_the_mint_could_never_accept() {
    let (c, e) = deploy_with_open_tla();
    let one_over = "a".repeat(64 - TLA.len());
    assert!(matches!(
        c.get_rent_price(&e, acc(TLA), one_over),
        Err(ContractError::InvalidName {
            reason: NameInvalidReason::AccountIdTooLong
        })
    ));
    assert!(matches!(
        c.get_rent_price(&e, acc(TLA), "-bad".to_string()),
        Err(ContractError::InvalidName {
            reason: NameInvalidReason::EdgeSeparator
        })
    ));
    assert!(matches!(
        c.get_rent_price(&e, acc(TLA), "a".to_string()),
        Err(ContractError::InvalidName {
            reason: NameInvalidReason::LabelTooShort
        })
    ));
    assert!(c.get_rent_price(&e, acc(TLA), "ab".to_string()).is_ok());
}

#[test]
fn an_unmintable_name_costs_the_renter_nothing() {
    let (mut c, _) = deploy_with_open_tla();
    let one_over = "a".repeat(64 - TLA.len());
    let deposit = c.get_fee_config().account_creation_deposit_yocto;
    let e = ctx(ALICE, deposit * 4, 1);
    assert!(matches!(
        c.rent_sub_account(&e, acc(TLA), one_over.clone(), None),
        Err(ContractError::InvalidName {
            reason: NameInvalidReason::AccountIdTooLong
        })
    ));
    assert!(
        c.get_sub_account(&e, acc(TLA), one_over).is_none(),
        "rejecting at the door must leave no row behind to settle"
    );
}

#[test]
fn base_rent_tiers() {
    let config = fees::default_fee_config();
    assert_eq!(fees::base_rent(5, &config), config.rent_tier_5_usd_micro);
    assert_eq!(fees::base_rent(8, &config), config.rent_tier_8_usd_micro);
    assert_eq!(
        fees::base_rent(10, &config),
        config.rent_tier_10_usd_micro
    );
    assert_eq!(
        fees::base_rent(20, &config),
        config.rent_tier_12plus_usd_micro
    );
}

#[test]
fn premium_multipliers_scale_rent() {
    let config = fees::default_fee_config();
    let standard = fees::sub_account_rent(20, &PremiumCategory::Standard, &config);
    let premium = fees::sub_account_rent(20, &PremiumCategory::Premium, &config);
    let legendary = fees::sub_account_rent(20, &PremiumCategory::Legendary, &config);
    let community = fees::sub_account_rent(20, &PremiumCategory::Community, &config);
    assert_eq!(standard, config.rent_tier_12plus_usd_micro * 3 / 2);
    assert_eq!(premium, config.rent_tier_12plus_usd_micro * 3);
    assert_eq!(legendary, config.rent_tier_12plus_usd_micro * 5);
    assert_eq!(community, 0);
}

#[test]
fn suspend_registered_tla_rejected() {
    let (mut c, _) = deploy();
    let e = ctx(ADMIN, 1, 0);
    c.register_tla(&e, acc(TLA), TlaType::Open, PremiumCategory::Standard, None)
        .unwrap();
    assert!(matches!(
        c.suspend_tla(&e, acc(TLA)),
        Err(ContractError::TlaNotActive)
    ));
}

#[test]
fn register_and_activate_open_tla() {
    let (c, e) = deploy_with_open_tla();
    let view = c.get_tla(&e, acc(TLA)).unwrap();
    assert!(matches!(view.lifecycle, LifecycleStatus::Active));
}

#[test]
fn outsider_cannot_register() {
    let (mut c, _) = deploy();
    let e = ctx(ALICE, 1, 0);
    assert!(matches!(
        c.register_tla(&e, acc(TLA), TlaType::Open, PremiumCategory::Standard, None),
        Err(ContractError::OnlyCouncil)
    ));
}

#[test]
fn admin_controls_payment_authorities() {
    let (mut c, _) = deploy();
    let e = ctx(ADMIN, 1, 0);
    c.add_payment_authority(&e, acc(BOB)).unwrap();
    assert_eq!(c.get_payment_authorities(), vec![acc(BOB)]);
    c.remove_payment_authority(&e, acc(BOB)).unwrap();
    assert!(c.get_payment_authorities().is_empty());
}

#[test]
fn admin_controls_recovery_authorities() {
    let (mut c, _) = deploy();
    let e = ctx(ADMIN, 1, 0);
    c.add_recovery_authority(&e, acc(BOB)).unwrap();
    assert_eq!(c.get_recovery_authorities(), vec![acc(BOB)]);
    c.remove_recovery_authority(&e, acc(BOB)).unwrap();
    assert!(c.get_recovery_authorities().is_empty());
}

#[test]
fn only_the_council_grants_the_recovery_role() {
    let (mut c, _) = deploy();
    let e = ctx(ALICE, 1, 0);
    assert!(matches!(
        c.add_recovery_authority(&e, acc(BOB)),
        Err(ContractError::OnlyCouncil)
    ));
}

#[test]
fn duplicate_registration_rejected() {
    let (mut c, _) = deploy_with_open_tla();
    let e = ctx(ADMIN, 1, 0);
    assert!(matches!(
        c.register_tla(&e, acc(TLA), TlaType::Open, PremiumCategory::Standard, None),
        Err(ContractError::TlaAlreadyRegistered)
    ));
}

#[test]
fn business_tla_requires_licensee() {
    let (mut c, _) = deploy();
    let e = ctx(ADMIN, 1, 0);
    assert!(matches!(
        c.register_tla(&e, acc(TLA), TlaType::Business, PremiumCategory::Standard, None),
        Err(ContractError::BusinessTlaRequiresLicensee)
    ));
}

#[test]
fn open_tla_rejects_business_activation_endpoint() {
    let (mut c, _) = deploy_priced();
    let e = ctx(ADMIN, 1, 0);
    c.register_tla(&e, acc(TLA), TlaType::Open, PremiumCategory::Standard, None)
        .unwrap();
    let fee = usd_to_near(
        c.get_fee_config().tla_allocation_fee_usd_micro
            + fees::base_rent(5, &c.get_fee_config()),
    );
    let e = ctx(ADMIN, fee, 0);
    assert!(matches!(
        c.activate_tla(&e, acc(TLA)),
        Err(ContractError::WrongActivationEndpoint)
    ));
}

#[test]
fn suspend_blocks_rentals() {
    let (mut c, _) = deploy_with_open_tla();
    let e = ctx(ADMIN, 1, 1);
    c.suspend_tla(&e, acc(TLA)).unwrap();
    let e = ctx(ALICE, rent_total(&e, &c, "alice"), 1);
    assert!(matches!(
        c.rent_sub_account(&e, acc(TLA), "alice".to_string(), None),
        Err(ContractError::TlaNotAcceptingRentals)
    ));
}

#[test]
fn a_lapsed_suspension_frees_the_tla_without_anyone_unsuspending_it() {
    let (mut c, _) = deploy_with_open_tla();
    let e = ctx(ADMIN, 1, 1);
    c.suspend_tla(&e, acc(TLA)).unwrap();
    let after = MAX_AUTHORITY_HOLD_NS + 1;

    let e = ctx(ADMIN, 1, after);
    assert!(
        matches!(
            c.get_tla(&e, acc(TLA)).unwrap().lifecycle,
            LifecycleStatus::Active
        ),
        "the hold is bounded on purpose, so a lapsed suspension must stop reporting as one"
    );

    assert!(
        c.tlas
            .get(&acc(TLA))
            .unwrap()
            .accepting_rentals(c.get_suspension_expiry(acc(TLA)), e.now),
        "renting and selling read the same lapse, so they must not disagree about it"
    );
}

#[test]
fn rent_happy_path_records_entry() {
    let (mut c, _) = deploy_with_open_tla();
    let e = rent_alice_sub(&mut c, "alice");
    let view = c.get_sub_account(&e, acc(TLA), "alice".to_string()).unwrap();
    assert_eq!(view.owner, acc(ALICE));
    assert!(matches!(view.lifecycle, LifecycleStatus::Active));
    assert_eq!(c.get_stats().sub_account_count, 1);
}

#[test]
fn name_taken_rejected() {
    let (mut c, _) = deploy_with_open_tla();
    let e = rent_alice_sub(&mut c, "alice");
    let e = ctx(BOB, rent_total(&e, &c, "alice"), 2);
    assert!(matches!(
        c.rent_sub_account(&e, acc(TLA), "alice".to_string(), None),
        Err(ContractError::SubAccountNameTaken)
    ));
}

#[test]
fn underpayment_rejected() {
    let (mut c, _) = deploy_with_open_tla();
    let required =
        rent_near_open(&c, "alice") + c.get_fee_config().account_creation_deposit_yocto;
    let e = ctx(ALICE, required - 1, 1);
    assert!(matches!(
        c.rent_sub_account(&e, acc(TLA), "alice".to_string(), None),
        Err(ContractError::InsufficientPayment)
    ));
}

#[test]
fn payout_defaults_to_the_renter() {
    let (mut c, _) = deploy_with_open_tla();
    let e = rent_alice_sub(&mut c, "alice");
    let view = c.get_sub_account(&e, acc(TLA), "alice".to_string()).unwrap();
    assert_eq!(view.owner, acc(ALICE));
    assert_eq!(view.payout_account, acc(ALICE));
}

#[test]
fn naming_another_owner_requires_payment_authority() {
    let (mut c, e) = deploy_with_open_tla();
    let total = rent_total(&e, &c, "alice");
    let e = ctx(BOB, total, 1);
    assert!(
        matches!(
            c.rent_sub_account(&e, acc(TLA), "alice".to_string(), Some(acc(ALICE))),
            Err(ContractError::OnlyPaymentAuthority)
        ),
        "a stranger must not be able to rent a name into somebody else's control"
    );
}

#[test]
fn a_sponsor_rents_a_name_that_belongs_to_the_user() {
    let (mut c, e) = deploy_with_open_tla();
    let rent_near = rent_near_open(&c, "alice");
    let total = rent_total(&e, &c, "alice");
    let e = ctx(ADMIN, 1, 1);
    c.add_payment_authority(&e, acc(BOB)).unwrap();

    let e = ctx(BOB, total, 1);
    let _ = c
        .rent_sub_account(&e, acc(TLA), "alice".to_string(), Some(acc(ALICE)))
        .unwrap();
    let (e, _) = ctx_callback(true);
    c.on_sub_account_created(
        &e,
        settled("alice", ALICE, ALICE, rent_near, total),
        Ok(MintOutcome::Active),
    ).unwrap();

    let view = c.get_sub_account(&e, acc(TLA), "alice".to_string()).unwrap();
    assert_eq!(
        view.owner,
        acc(ALICE),
        "the sponsored lease belongs to the named user, not the sponsor"
    );
    assert_eq!(view.payout_account, acc(ALICE));
}

#[test]
fn a_failed_sponsored_mint_refunds_the_sponsor_not_the_owner() {
    let (mut c, e) = deploy_with_open_tla();
    let rent_near = rent_near_open(&c, "alice");
    let total = rent_total(&e, &c, "alice");
    let e = ctx(ADMIN, 1, 1);
    c.add_payment_authority(&e, acc(BOB)).unwrap();

    let e = ctx(BOB, total, 1);
    let _ = c
        .rent_sub_account(&e, acc(TLA), "alice".to_string(), Some(acc(ALICE)))
        .unwrap();
    let (e, _) = ctx_callback(false);
    c.on_sub_account_created(
        &e,
        settled("alice", ALICE, BOB, rent_near, total),
        Err(PromiseError::Failed),
    ).unwrap();

    assert_eq!(
        c.get_pending_refund(acc(BOB)),
        total,
        "the sponsor paid, so the sponsor is the one made whole"
    );
    assert_eq!(
        c.get_pending_refund(acc(ALICE)),
        0,
        "the named owner never paid and must not be credited"
    );
}

#[test]
fn a_sponsored_mint_records_the_owner_not_the_sponsor() {
    let (mut c, e) = deploy_with_open_tla();
    let rent_near = rent_near_open(&c, "alice");
    let total = rent_total(&e, &c, "alice");
    let e = ctx(ADMIN, 1, 1);
    c.add_payment_authority(&e, acc(BOB)).unwrap();

    let e = ctx(BOB, total, 1);
    let _ = c
        .rent_sub_account(&e, acc(TLA), "alice".to_string(), Some(acc(ALICE)))
        .unwrap();
    let (e, _) = ctx_callback(true);
    c.on_sub_account_created(
        &e,
        settled("alice", ALICE, BOB, rent_near, total),
        Ok(MintOutcome::Active),
    ).unwrap();

    let view = c.get_sub_account(&e, acc(TLA), "alice".to_string()).unwrap();
    assert_eq!(view.owner, acc(ALICE));
    assert_eq!(view.payout_account, acc(ALICE));
}

#[test]
fn renting_in_your_own_name_needs_no_authority() {
    let (mut c, e) = deploy_with_open_tla();
    let total = rent_total(&e, &c, "alice");
    let e = ctx(ALICE, total, 1);
    assert!(
        c.rent_sub_account(&e, acc(TLA), "alice".to_string(), Some(acc(ALICE)))
            .is_ok(),
        "naming yourself is the same as naming nobody"
    );
}

#[test]
fn paid_rent_requires_authority_and_only_account_creation_deposit_yocto() {
    let (mut c, e) = deploy_with_open_tla();
    let creation = c.get_fee_config().account_creation_deposit_yocto;
    let rent = c
        .get_rent_price(&e, acc(TLA), "alice".to_string())
        .unwrap()
        .rent_yocto;

    let e = ctx(BOB, creation, 1);
    assert!(matches!(
        c.rent_sub_account_paid(
            &e,
            acc(TLA),
            "alice".to_string(),
            acc(ALICE),
            acc(ALICE),
            "ord-unauthorised".to_string(),
        ),
        Err(ContractError::OnlyPaymentAuthority)
    ));

    let e = ctx(ADMIN, 1, 1);
    c.add_payment_authority(&e, acc(BOB)).unwrap();
    c.bind_payment_authority_tla(&e, acc(BOB), acc(TLA), 50)
        .unwrap();
    let e = ctx(BOB, creation, 1);
    let _ = c
        .rent_sub_account_paid(
            &e,
            acc(TLA),
            "alice".to_string(),
            acc(ALICE),
            acc(ALICE),
            "ord-paid-alice".to_string(),
        )
        .unwrap();
    c.on_sub_account_created_paid(
        &e,
        settled("alice", ALICE, BOB, rent, creation),
        Ok(MintOutcome::Active),
    ).unwrap();

    let view = c.get_sub_account(&e, acc(TLA), "alice".to_string()).unwrap();
    assert_eq!(
        view.owner,
        acc(ALICE),
        "a sponsored mint belongs to the named owner, not to whoever paid"
    );
    assert_eq!(view.payout_account, acc(ALICE));
    assert_eq!(c.get_stats().total_revenue_yocto, 0);
    assert_eq!(c.get_pending_refund(acc(BOB)), 0);
}

#[test]
fn a_mint_that_reports_no_outcome_refunds_in_full_and_parks_the_name() {
    let (mut c, e) = deploy_with_open_tla();
    let total = rent_total(&e, &c, "alice");
    let e = ctx(ALICE, total, 1);
    let _ = c
        .rent_sub_account(&e, acc(TLA), "alice".to_string(), None)
        .unwrap();
    let (e, _) = ctx_callback(false);
    c.on_sub_account_created(
        &e,
        settled(
            "alice",
            ALICE,
            ALICE,
            total - c.get_fee_config().account_creation_deposit_yocto,
            total,
        ),
        Err(PromiseError::Failed),
    ).unwrap();
    assert_eq!(
        c.get_pending_refund(acc(ALICE)),
        total,
        "the registry cannot prove the account was created, so the renter is never the one out of pocket"
    );
    assert!(
        !c.is_name_available(acc(TLA), "alice".to_string()),
        "an account may exist behind this name, so it must not go back on the mint path"
    );
    assert!(
        c.is_name_re_rentable(acc(TLA), "alice".to_string()),
        "parking keeps the name reachable instead of stranding it forever"
    );
    assert_eq!(c.get_stats().sub_account_count, 0);
}

#[test]
fn a_reported_mint_failure_frees_the_name_instead_of_parking_it() {
    let (mut c, e) = deploy_with_open_tla();
    let rent_near = rent_near_open(&c, "alice");
    let total = rent_total(&e, &c, "alice");
    let e = ctx(ALICE, total, 1);
    let _ = c
        .rent_sub_account(&e, acc(TLA), "alice".to_string(), None)
        .unwrap();
    let (e, _) = ctx_callback(false);
    c.on_sub_account_created(
        &e,
        settled("alice", ALICE, ALICE, rent_near, total),
        Ok(MintOutcome::CreationFailed),
    ).unwrap();

    assert_eq!(
        c.get_pending_refund(acc(ALICE)),
        total,
        "the registrar reported the failure, so it returned the funding and the payer is whole"
    );
    assert!(
        c.is_name_available(acc(TLA), "alice".to_string()),
        "a reported failure proves no account exists, so the name goes straight back on sale"
    );
    assert!(!c.is_name_re_rentable(acc(TLA), "alice".to_string()));
}

#[test]
fn an_admin_releases_a_park_whose_account_never_existed() {
    let (mut c, e) = deploy_with_open_tla();
    let rent_near = rent_near_open(&c, "alice");
    let total = rent_total(&e, &c, "alice");
    let e = ctx(ALICE, total, 1);
    let _ = c
        .rent_sub_account(&e, acc(TLA), "alice".to_string(), None)
        .unwrap();
    let (e, _) = ctx_callback(false);
    c.on_sub_account_created(
        &e,
        settled("alice", ALICE, ALICE, rent_near, total),
        Err(PromiseError::Failed),
    ).unwrap();
    assert!(c.is_name_re_rentable(acc(TLA), "alice".to_string()));

    let e = ctx(BOB, 1, 2);
    assert!(matches!(
        c.admin_release_park(&e, acc(TLA), "alice".to_string()),
        Err(ContractError::OnlyAdmin)
    ));

    let e = ctx(ADMIN, 1, 2);
    c.admin_release_park(&e, acc(TLA), "alice".to_string()).unwrap();
    assert!(c.is_name_available(acc(TLA), "alice".to_string()));
    assert!(!c.is_name_re_rentable(acc(TLA), "alice".to_string()));

    assert!(
        matches!(
            c.admin_release_park(&e, acc(TLA), "alice".to_string()),
            Err(ContractError::SubAccountNotParked)
        ),
        "releasing is one-shot, so a second call cannot quietly do nothing"
    );
}

#[test]
fn an_admin_cannot_release_the_park_under_a_live_lease() {
    let (mut c, e) = deploy_with_open_tla();
    let rent_near = rent_near_open(&c, "alice");
    let total = rent_total(&e, &c, "alice");
    let e = ctx(ALICE, total, 1);
    let _ = c
        .rent_sub_account(&e, acc(TLA), "alice".to_string(), None)
        .unwrap();
    let (e, _) = ctx_callback(false);
    c.on_sub_account_created(
        &e,
        settled("alice", ALICE, ALICE, rent_near, total),
        Err(PromiseError::Failed),
    ).unwrap();

    let rent = c
        .get_rent_price(&e, acc(TLA), "alice".to_string())
        .unwrap()
        .rent_yocto;
    let e = ctx(BOB, rent, 3);
    let _ = c
        .rent_sub_account(&e, acc(TLA), "alice".to_string(), None)
        .unwrap();
    let (e, _) = ctx_callback(true);
    let _ = c.on_sub_account_re_rented(&e, settled("alice", BOB, BOB, rent, rent), Ok(true));

    let e = ctx(ADMIN, 1, 4);
    assert!(
        matches!(
            c.admin_release_park(&e, acc(TLA), "alice".to_string()),
            Err(ContractError::SubAccountNameTaken)
        ),
        "the hatch must never strip a park out from under a name someone now holds"
    );
}

#[test]
fn renewal_extends_expiry() {
    let (mut c, _) = deploy_with_open_tla();
    let e = rent_alice_sub(&mut c, "alice");
    let before = c
        .get_sub_account(&e, acc(TLA), "alice".to_string())
        .unwrap()
        .expires_at;
    let rent = c
        .get_rent_price(&e, acc(TLA), "alice".to_string())
        .unwrap()
        .rent_yocto;
    let e = ctx(ALICE, rent, 2);
    let _ = c.renew_sub_account(&e, acc(TLA), "alice".to_string()).unwrap();
    let (e, ok) = ctx_callback(true);
    c.on_sub_account_renewed(
        &e,
        acc(TLA),
        "alice".to_string(),
        before + ONE_YEAR_NS,
        acc(ALICE),
        rent,
        ok,
    );
    let after = c
        .get_sub_account(&e, acc(TLA), "alice".to_string())
        .unwrap()
        .expires_at;
    assert_eq!(after, before + ONE_YEAR_NS);
}

#[test]
fn a_renewal_the_wallet_refused_charges_nothing_and_extends_nothing() {
    let (mut c, _) = deploy_with_open_tla();
    let e = rent_alice_sub(&mut c, "alice");
    let before = c
        .get_sub_account(&e, acc(TLA), "alice".to_string())
        .unwrap()
        .expires_at;
    let rent = c
        .get_rent_price(&e, acc(TLA), "alice".to_string())
        .unwrap()
        .rent_yocto;
    let revenue_before = c.get_stats().total_revenue_yocto;

    let e = ctx(ALICE, rent, 2);
    let _ = c.renew_sub_account(&e, acc(TLA), "alice".to_string()).unwrap();
    let owed_before = c.get_pending_refund(acc(ALICE));
    let (e, ok) = ctx_callback(false);
    c.on_sub_account_renewed(
        &e,
        acc(TLA),
        "alice".to_string(),
        before + ONE_YEAR_NS,
        acc(ALICE),
        rent,
        ok,
    );

    let after = c
        .get_sub_account(&e, acc(TLA), "alice".to_string())
        .unwrap()
        .expires_at;
    assert_eq!(
        after, before,
        "the wallet refused the lease, so the registry must not report it renewed"
    );
    assert_eq!(
        c.get_stats().total_revenue_yocto,
        revenue_before,
        "rent must not be booked for a renewal the wallet never took"
    );
    assert_eq!(
        c.get_pending_refund(acc(ALICE)) - owed_before,
        rent,
        "the payer is owed the rent back"
    );
}

#[test]
fn a_fresh_registry_reports_every_missing_deploy_step() {
    let (c, e) = deploy();
    let state = c.deployment_readiness(&e);
    assert!(!state.ready);
    assert!(!state.recovery_wired, "no recovery authority yet");
    assert!(!state.venue_set, "no venue yet");
    assert!(
        !state.ft_allowlist_set,
        "an empty allowlist skips the balance gate, so a name changes hands \
         carrying whatever tokens the last holder left in it"
    );
    assert!(
        !state.metadata_set,
        "name still derives from the account id"
    );
    assert!(state.wiring_sane, "constructor already refuses self-wiring");
}

#[test]
fn readiness_flips_only_once_every_step_is_done() {
    let (mut c, e) = deploy_with_open_tla();
    assert!(!c.deployment_readiness(&e).ready);
    let e = ctx(COUNCIL, 1, 1);
    c.add_recovery_authority(&e, acc(BOB)).unwrap();
    assert!(!c.deployment_readiness(&e).ready, "venue still missing");
    let e = ctx(COUNCIL, 1, 1);
    c.add_venue(&e, acc("venue.testnet")).unwrap();
    assert!(
        !c.deployment_readiness(&e).ready,
        "ft allowlist still missing"
    );
    let e = ctx(COUNCIL, 1, 1);
    c.add_ft_allowlist(&e, acc("usdc.testnet")).unwrap();
    assert!(!c.deployment_readiness(&e).ready, "metadata still missing");
    let e = ctx(ADMIN, 1, 1);
    c.admin_set_nft_metadata(&e, "Names".to_string(), "NAME".to_string(), None, None, None)
        .unwrap();
    let done = c.deployment_readiness(&e);
    assert!(
        done.ready,
        "every step done but readiness still false: {done:?}"
    );
}

#[test]
fn only_the_council_may_name_a_venue() {
    let (mut c, _) = deploy_with_open_tla();
    let e = ctx(BOB, 1, 1);
    assert!(matches!(
        c.add_venue(&e, acc("venue.testnet")),
        Err(ContractError::OnlyCouncil)
    ));
    let e = ctx(COUNCIL, 1, 1);
    c.add_venue(&e, acc("venue.testnet")).unwrap();
    assert_eq!(c.get_venues(), vec![acc("venue.testnet")]);
    let e = ctx(COUNCIL, 1, 1);
    c.remove_venue(&e, acc("venue.testnet")).unwrap();
    assert!(c.get_venues().is_empty());
}

#[test]
fn the_registry_cannot_name_itself_a_venue() {
    let (mut c, _) = deploy_with_open_tla();
    let e = ctx(COUNCIL, 1, 1);
    assert!(matches!(
        c.add_venue(&e, acc("registry.testnet")),
        Err(ContractError::VenueIsRegistry)
    ));
}

#[test]
fn the_venue_list_is_bounded() {
    let (mut c, _) = deploy_with_open_tla();
    for i in 0..8 {
        let e = ctx(COUNCIL, 1, 1);
        c.add_venue(&e, acc(&format!("venue{i}.testnet"))).unwrap();
    }
    let e = ctx(COUNCIL, 1, 1);
    assert!(matches!(
        c.add_venue(&e, acc("one-too-many.testnet")),
        Err(ContractError::AllowlistFull)
    ));
}

#[test]
fn the_admin_set_is_bounded_so_its_view_cannot_outgrow_one_call() {
    let (mut c, _) = deploy_with_open_tla();
    while c.get_admins().len() < 32 {
        let next = format!("admin{}.testnet", c.get_admins().len());
        let e = ctx(COUNCIL, 1, 1);
        c.add_admin(&e, acc(&next)).unwrap();
    }
    let e = ctx(COUNCIL, 1, 1);
    assert!(matches!(
        c.add_admin(&e, acc("one-too-many.testnet")),
        Err(ContractError::AuthoritySetFull)
    ));
    let e = ctx(COUNCIL, 1, 1);
    c.remove_admin(&e, acc("admin31.testnet")).unwrap();
    let e = ctx(COUNCIL, 1, 1);
    assert!(
        c.add_admin(&e, acc("one-too-many.testnet")).is_ok(),
        "the cap bounds the set, it does not close the seat permanently"
    );
}

#[test]
fn the_payment_authority_set_is_bounded() {
    let (mut c, _) = deploy_with_open_tla();
    for i in 0..32 {
        let e = ctx(COUNCIL, 1, 1);
        c.add_payment_authority(&e, acc(&format!("pay{i}.testnet")))
            .unwrap();
    }
    let e = ctx(COUNCIL, 1, 1);
    assert!(matches!(
        c.add_payment_authority(&e, acc("one-too-many.testnet")),
        Err(ContractError::AuthoritySetFull)
    ));
}

#[test]
fn the_recovery_authority_set_is_bounded() {
    let (mut c, _) = deploy_with_open_tla();
    while c.get_recovery_authorities().len() < 32 {
        let next = format!("rec{}.testnet", c.get_recovery_authorities().len());
        let e = ctx(COUNCIL, 1, 1);
        c.add_recovery_authority(&e, acc(&next)).unwrap();
    }
    let e = ctx(COUNCIL, 1, 1);
    assert!(matches!(
        c.add_recovery_authority(&e, acc("one-too-many.testnet")),
        Err(ContractError::AuthoritySetFull)
    ));
}

#[test]
fn a_stranger_can_pay_to_renew_a_name_they_do_not_own() {
    let (mut c, _) = deploy_with_open_tla();
    let e = rent_alice_sub(&mut c, "alice");
    let before = c
        .get_sub_account(&e, acc(TLA), "alice".to_string())
        .unwrap()
        .expires_at;
    let rent = c
        .get_rent_price(&e, acc(TLA), "alice".to_string())
        .unwrap()
        .rent_yocto;
    let e = ctx(BOB, rent, 2);
    let _ = c.renew_sub_account(&e, acc(TLA), "alice".to_string()).unwrap();
    let (e, ok) = ctx_callback(true);
    c.on_sub_account_renewed(
        &e,
        acc(TLA),
        "alice".to_string(),
        before + ONE_YEAR_NS,
        acc(BOB),
        rent,
        ok,
    );
    let sub = c.get_sub_account(&e, acc(TLA), "alice".to_string()).unwrap();
    assert_eq!(sub.expires_at, before + ONE_YEAR_NS);
    assert_eq!(sub.owner, acc(ALICE));
}

#[test]
fn renewal_past_grace_rejected() {
    let (mut c, _) = deploy_with_open_tla();
    let e = rent_alice_sub(&mut c, "alice");
    let expires = c
        .get_sub_account(&e, acc(TLA), "alice".to_string())
        .unwrap()
        .expires_at;
    let rent = c
        .get_rent_price(&e, acc(TLA), "alice".to_string())
        .unwrap()
        .rent_yocto;
    let e = ctx(ALICE, rent, expires + GRACE_NS + 1);
    assert!(matches!(
        c.renew_sub_account(&e, acc(TLA), "alice".to_string()),
        Err(ContractError::SubAccountPastGracePeriod)
    ));
}

#[test]
fn set_payout_account_owner_only() {
    let (mut c, _) = deploy_with_open_tla();
    rent_alice_sub(&mut c, "alice");
    let e = ctx(BOB, 1, 2);
    assert!(matches!(
        c.set_payout_account(&e, acc(TLA), "alice".to_string(), acc(BOB)),
        Err(ContractError::OnlyOwner)
    ));
    let e = ctx(ALICE, 1, 2);
    assert!(c
        .set_payout_account(&e, acc(TLA), "alice".to_string(), acc(BOB))
        .is_ok());
    assert_eq!(
        payout_of(&e, &c, "alice"),
        acc(ALICE),
        "the record must not move before the wallet has taken it"
    );
    let (e, ok) = ctx_callback(true);
    c.on_payout_set(acc(TLA), "alice".to_string(), acc(BOB), acc(ALICE), ok);
    assert_eq!(payout_of(&e, &c, "alice"), acc(BOB));
}

#[test]
fn a_payout_the_wallet_refused_leaves_the_record_alone() {
    let (mut c, _) = deploy_with_open_tla();
    rent_alice_sub(&mut c, "alice");
    let e = ctx(ALICE, 1, 2);
    assert!(c
        .set_payout_account(&e, acc(TLA), "alice".to_string(), acc(BOB))
        .is_ok());
    let (e, ok) = ctx_callback(false);
    c.on_payout_set(acc(TLA), "alice".to_string(), acc(BOB), acc(ALICE), ok);
    assert_eq!(
        payout_of(&e, &c, "alice"),
        acc(ALICE),
        "otherwise the registry says one thing and the sweep does another"
    );
}

#[test]
fn a_payout_change_does_not_land_on_a_name_that_changed_hands() {
    let (mut c, _) = deploy_with_open_tla();
    rent_alice_sub(&mut c, "alice");
    let e = ctx(ALICE, 1, 2);
    assert!(c
        .set_payout_account(&e, acc(TLA), "alice".to_string(), acc(CAROL))
        .is_ok());
    let key = acc_key("alice");
    assert!(c.sub_account_reassign(&key, &acc(BOB), &acc(BOB)));
    let (e, ok) = ctx_callback(true);
    c.on_payout_set(acc(TLA), "alice".to_string(), acc(CAROL), acc(ALICE), ok);
    assert_eq!(
        payout_of(&e, &c, "alice"),
        acc(BOB),
        "the seller must not redirect the payout of a name the buyer now holds"
    );
}

#[test]
fn every_name_entrypoint_rejects_a_dotted_name() {
    let (mut c, _) = deploy_with_open_tla();
    rent_alice_sub(&mut c, "alice");
    let e = ctx(ALICE, 1, 2);
    assert!(
        matches!(
            c.set_payout_account(&e, acc(TLA), "ali.ce".to_string(), acc(BOB)),
            Err(ContractError::InvalidName { .. })
        ),
        "a dotted name must not reach the storage key"
    );
    let e = ctx(ALICE, 10, 2);
    assert!(matches!(
        c.renew_sub_account(&e, acc(TLA), "ali.ce".to_string()),
        Err(ContractError::InvalidName { .. })
    ));
    let e = ctx(ALICE, 1, 2);
    assert!(matches!(
        c.schedule_retraction(&e, acc(TLA), "ali.ce".to_string()),
        Err(ContractError::InvalidName { .. })
    ));
    let e = ctx(ALICE, 1, 2);
    assert!(matches!(
        c.cancel_retraction(&e, acc(TLA), "ali.ce".to_string()),
        Err(ContractError::InvalidName { .. })
    ));
}

#[test]
fn a_resolve_does_not_claw_a_name_back_from_a_third_party() {
    let (mut c, _) = deploy_with_open_tla();
    rent_alice_sub(&mut c, "alice");
    let key = format!("alice.{TLA}");
    settle_transfer(&mut c, "alice", ALICE, BOB);
    settle_transfer(&mut c, "alice", BOB, CAROL);
    let outcome = c.nft_resolve_transfer(
        acc(TLA),
        "alice".to_string(),
        acc(ALICE),
        acc(BOB),
        Ok(true),
    );
    assert!(
        matches!(outcome, PromiseOrValue::Value(true)),
        "a receiver that moved the name on must not be able to revert it away from its new holder"
    );
    assert_eq!(
        c.nft_token(key).unwrap().owner_id,
        acc(CAROL),
        "the third party keeps the name"
    );
}

#[test]
fn a_give_back_points_the_payout_at_the_owner_it_returns_to() {
    let (mut c, _) = deploy_with_open_tla();
    rent_alice_sub(&mut c, "alice");
    let e = settle_transfer(&mut c, "alice", ALICE, BOB);
    assert_eq!(
        payout_of(&e, &c, "alice"),
        acc(BOB),
        "a plain transfer repoints the payout at the receiver"
    );

    let (e, _) = ctx_callback(true);
    let kept = c
        .nft_on_return_resolved(
        &e,
        acc(TLA),
        "alice".to_string(),
        acc(BOB),
        acc(ALICE),
        Ok(true),
        )
        .value;
    assert!(!kept, "the receiver handed the name back");
    assert_eq!(
        c.nft_token(format!("alice.{TLA}")).unwrap().owner_id,
        acc(ALICE)
    );
    assert_eq!(
        payout_of(&e, &c, "alice"),
        acc(ALICE),
        "rent and sweeps must follow the name home, never stay aimed at the receiver"
    );
}

#[test]
fn a_co_owner_cannot_sell_a_name_they_do_not_own() {
    let (mut c, _) = deploy_with_open_tla();
    rent_alice_sub(&mut c, "alice");
    let e = ctx(BOB, 1, 2);
    assert!(matches!(
        c.nft_transfer(&e, acc(BOB), format!("alice.{TLA}"), None, None),
        Err(ContractError::OnlyOwner)
    ));
}

#[test]
fn an_unknown_token_id_is_refused_before_any_rotation() {
    let (mut c, _) = deploy_with_open_tla();
    let e = ctx(ALICE, 1, 2);
    assert!(matches!(
        c.nft_transfer(&e, acc(BOB), format!("ghost.{TLA}"), None, None),
        Err(ContractError::TokenNotFound)
    ));
}

#[test]
fn transfer_requires_owner() {
    let (mut c, _) = deploy_with_open_tla();
    rent_alice_sub(&mut c, "alice");
    let e = ctx(BOB, 1, 2);
    assert!(matches!(
        c.transfer_sub_account(&e, acc(TLA), "alice".to_string(), acc(BOB)),
        Err(ContractError::OnlyOwner)
    ));
}

#[test]
fn transfer_requires_one_yocto() {
    let (mut c, _) = deploy_with_open_tla();
    rent_alice_sub(&mut c, "alice");
    let e = ctx(ALICE, 0, 2);
    assert!(matches!(
        c.transfer_sub_account(&e, acc(TLA), "alice".to_string(), acc(BOB)),
        Err(ContractError::RequiresOneYocto)
    ));
}

#[test]
fn transfer_rejects_the_current_owner_as_recipient() {
    let (mut c, _) = deploy_with_open_tla();
    rent_alice_sub(&mut c, "alice");
    let e = ctx(ALICE, 1, 2);
    assert!(matches!(
        c.transfer_sub_account(&e, acc(TLA), "alice".to_string(), acc(ALICE)),
        Err(ContractError::SameOwner)
    ));
}

#[test]
fn transfer_rejects_the_account_itself_as_recipient() {
    let (mut c, _) = deploy_with_open_tla();
    rent_alice_sub(&mut c, "alice");
    let e = ctx(ALICE, 1, 2);
    assert!(matches!(
        c.transfer_sub_account(&e, acc(TLA), "alice".to_string(), acc(&format!("alice.{TLA}"))),
        Err(ContractError::TransferToSubAccount)
    ));
}

#[test]
fn transfer_rejects_another_registered_name_as_recipient() {
    let (mut c, _) = deploy_with_open_tla();
    rent_alice_sub(&mut c, "alice");
    rent_alice_sub(&mut c, "bob");
    let e = ctx(ALICE, 1, 2);
    assert!(matches!(
        c.transfer_sub_account(&e, acc(TLA), "alice".to_string(), acc(&format!("bob.{TLA}"))),
        Err(ContractError::TransferToRegisteredName)
    ));
}

#[test]
fn transfer_still_allows_an_ordinary_account_as_recipient() {
    let (mut c, _) = deploy_with_open_tla();
    rent_alice_sub(&mut c, "alice");
    let e = ctx(ALICE, 1, 2);
    assert!(c
        .transfer_sub_account(&e, acc(TLA), "alice".to_string(), acc(BOB))
        .is_ok());
}

#[test]
fn depositing_into_a_venue_is_not_caught_by_the_registered_name_guard() {
    let (mut c, _) = deploy_with_open_tla();
    rent_alice_sub(&mut c, "alice");
    rent_alice_sub(&mut c, "venue");
    let venue = format!("venue.{TLA}");
    let e = ctx(COUNCIL, 1, 1);
    c.add_venue(&e, acc(&venue)).unwrap();
    let e = ctx(ALICE, 1, 2);
    assert!(c
        .transfer_sub_account(&e, acc(TLA), "alice".to_string(), acc(&venue))
        .is_ok());
}

#[test]
fn withdrawing_from_a_venue_is_never_refused_by_the_registered_name_guard() {
    let (mut c, _) = deploy_with_open_tla();
    rent_alice_sub(&mut c, "alice");
    rent_alice_sub(&mut c, "holder");
    let venue = acc("venue.testnet");
    let e = ctx(COUNCIL, 1, 1);
    c.add_venue(&e, venue.clone()).unwrap();
    edit_row(
        &mut c,
        "alice",
        |row, _| SubAccountEntry { owner: acc("venue.testnet"), ..row },
        0,
    );
    let e = ctx(&venue.text(), 1, 2);
    assert!(c
        .transfer_sub_account(&e, acc(TLA), "alice".to_string(), acc(&format!("holder.{TLA}")))
        .is_ok());
}

#[test]
fn recovery_rejects_another_registered_name_as_destination() {
    let (mut c, _) = deploy_with_open_tla();
    rent_alice_sub(&mut c, "alice");
    rent_alice_sub(&mut c, "bob");
    let e = ctx(COUNCIL, 1, 1);
    c.add_recovery_authority(&e, acc(BOB)).unwrap();
    let e = ctx(BOB, 1, 2);
    assert!(matches!(
        c.recover_sub_account(
            &e,
            acc(TLA),
            "alice".to_string(),
            acc(&format!("bob.{TLA}")),
            acc(ALICE),
        ),
        Err(ContractError::TransferToRegisteredName)
    ));
}

#[test]
fn transfer_rejects_a_caller_who_no_longer_owns_the_name() {
    let (mut c, _) = deploy_with_open_tla();
    rent_alice_sub(&mut c, "alice");
    let key = acc_key("alice");
    edit_row(&mut c, "alice", |row, _| SubAccountEntry { owner: acc(BOB), ..row }, 0);
    let e = ctx(ALICE, 1, 2);
    assert!(matches!(
        c.transfer_sub_account(&e, acc(TLA), "alice".to_string(), acc(CAROL)),
        Err(ContractError::OnlyOwner)
    ));
    assert_eq!(
        c.sub_accounts.get(&key).map(|s| s.owner.clone()),
        Some(acc(BOB))
    );
}

#[test]
fn transferred_callback_moves_owner_and_payout_account() {
    let (mut c, _) = deploy_with_open_tla();
    rent_alice_sub(&mut c, "alice");
    let e = ctx(ALICE, 0, 2);
    c.on_sub_account_transferred(
        &e,
        acc(TLA),
        "alice".to_string(),
        acc(ALICE),
        acc(BOB),
        RotationCause::Transfer,
        Ok(true),
    );
    let key = acc_key("alice");
    let sub = c.sub_accounts.get(&key).unwrap();
    assert_eq!(sub.owner, acc(BOB));
    assert_eq!(sub.payout_account, acc(BOB));
}

#[test]
fn transferred_callback_leaves_owner_untouched_when_the_swap_failed() {
    let (mut c, _) = deploy_with_open_tla();
    rent_alice_sub(&mut c, "alice");
    let e = ctx(ALICE, 0, 2);
    c.on_sub_account_transferred(
        &e,
        acc(TLA),
        "alice".to_string(),
        acc(ALICE),
        acc(BOB),
        RotationCause::Transfer,
        Ok(false),
    );
    let key = acc_key("alice");
    assert_eq!(
        c.sub_accounts.get(&key).map(|s| s.owner.clone()),
        Some(acc(ALICE))
    );
}

#[test]
fn a_stranger_cannot_recover_a_name() {
    let (mut c, _) = deploy_with_recovery();
    rent_alice_sub(&mut c, "alice");
    let e = ctx(BOB, 1, 2);
    assert!(matches!(
        c.recover_sub_account(&e, acc(TLA), "alice".to_string(), acc(BOB), acc(ALICE)),
        Err(ContractError::OnlyRecoveryAuthority)
    ));
}

#[test]
fn the_current_owner_cannot_recover_their_own_name() {
    let (mut c, _) = deploy_with_recovery();
    rent_alice_sub(&mut c, "alice");
    let e = ctx(ALICE, 1, 2);
    assert!(matches!(
        c.recover_sub_account(&e, acc(TLA), "alice".to_string(), acc(BOB), acc(ALICE)),
        Err(ContractError::OnlyRecoveryAuthority)
    ));
}

#[test]
fn recovery_hands_the_name_to_a_new_owner_account() {
    let (mut c, _) = deploy_with_recovery();
    rent_alice_sub(&mut c, "alice");
    let e = ctx(CAROL, 1, 2);
    assert!(c
        .recover_sub_account(&e, acc(TLA), "alice".to_string(), acc(BOB), acc(ALICE))
        .is_ok());
}

#[test]
fn recovery_refuses_a_name_that_moved_since_the_request() {
    let (mut c, _) = deploy_with_recovery();
    rent_alice_sub(&mut c, "alice");
    let key = acc_key("alice");
    assert!(c.sub_account_reassign(&key, &acc(BOB), &acc(BOB)));
    let e = ctx(CAROL, 1, 2);
    assert!(
        matches!(
            c.recover_sub_account(
                &e,
                acc(TLA),
                "alice".to_string(),
                acc("dave.testnet"),
                acc(ALICE),
            ),
            Err(ContractError::OwnerMoved)
        ),
        "a name sold or deposited since the request must not be recovered away"
    );
}

#[test]
fn recovery_requires_one_yocto() {
    let (mut c, _) = deploy_with_recovery();
    rent_alice_sub(&mut c, "alice");
    let e = ctx(CAROL, 0, 2);
    assert!(matches!(
        c.recover_sub_account(&e, acc(TLA), "alice".to_string(), acc(BOB), acc(ALICE)),
        Err(ContractError::RequiresOneYocto)
    ));
}

#[test]
fn recovery_rejects_a_no_op_owner_change() {
    let (mut c, _) = deploy_with_recovery();
    rent_alice_sub(&mut c, "alice");
    let e = ctx(CAROL, 1, 2);
    assert!(matches!(
        c.recover_sub_account(&e, acc(TLA), "alice".to_string(), acc(ALICE), acc(ALICE)),
        Err(ContractError::SameOwner)
    ));
}

#[test]
fn recovery_refuses_an_unknown_name() {
    let (mut c, _) = deploy_with_recovery();
    let e = ctx(CAROL, 1, 2);
    assert!(matches!(
        c.recover_sub_account(&e, acc(TLA), "nobody".to_string(), acc(BOB), acc(ALICE)),
        Err(ContractError::SubAccountNotFound)
    ));
}

#[test]
fn recovery_callback_moves_owner_and_payout() {
    let (mut c, _) = deploy_with_recovery();
    rent_alice_sub(&mut c, "alice");
    let e = ctx(CAROL, 0, 2);
    c.on_sub_account_recovered(
        &e,
        acc(TLA),
        "alice".to_string(),
        acc(ALICE),
        acc(BOB),
        Ok(true),
    );
    let key = acc_key("alice");
    let sub = c.sub_accounts.get(&key).unwrap();
    assert_eq!(sub.owner, acc(BOB));
    assert_eq!(sub.payout_account, acc(BOB));
    assert_eq!(
        c.nft_token(key.text()).unwrap().owner_id,
        acc(BOB),
        "a recovered name must read as owned by the recovered account"
    );
}

#[test]
fn recovery_callback_leaves_the_owner_untouched_when_the_swap_failed() {
    let (mut c, _) = deploy_with_recovery();
    rent_alice_sub(&mut c, "alice");
    let e = ctx(CAROL, 0, 2);
    c.on_sub_account_recovered(
        &e,
        acc(TLA),
        "alice".to_string(),
        acc(ALICE),
        acc(BOB),
        Ok(false),
    );
    let key = acc_key("alice");
    assert_eq!(
        c.sub_accounts.get(&key).map(|s| s.owner.clone()),
        Some(acc(ALICE))
    );
}

#[test]
fn active_sub_not_reclaimable() {
    let (mut c, _) = deploy_with_open_tla();
    rent_alice_sub(&mut c, "alice");
    let e = ctx(BOB, 0, 2);
    assert!(matches!(
        c.reclaim_finalize(&e, acc(TLA), "alice".to_string()),
        Err(ContractError::SubAccountNotReclaimable)
    ));
}

#[test]
fn reclaim_finalized_parks_name_and_rerent_works() {
    let (mut c, _) = deploy_with_open_tla();
    rent_alice_sub(&mut c, "alice");
    let (e, _) = ctx_callback(true);
    c.on_reclaim_finalized(&e, acc(TLA), "alice".to_string(), acc(ALICE), Ok(true));
    assert!(c.is_name_re_rentable(acc(TLA), "alice".to_string()));
    assert!(!c.is_name_available(acc(TLA), "alice".to_string()));
    assert_eq!(c.get_stats().sub_account_count, 0);

    let rent = c
        .get_rent_price(&e, acc(TLA), "alice".to_string())
        .unwrap()
        .rent_yocto;
    let e = ctx(BOB, rent, 3);
    let _ = c
        .rent_sub_account(&e, acc(TLA), "alice".to_string(), None)
        .unwrap();
    let (e, _) = ctx_callback(true);
    let _ = c.on_sub_account_re_rented(&e, settled("alice", BOB, BOB, rent, rent), Ok(true));
    assert!(!c.is_name_re_rentable(acc(TLA), "alice".to_string()));
    assert_eq!(
        c.get_sub_account(&e, acc(TLA), "alice".to_string())
            .unwrap()
            .owner,
        acc(BOB)
    );
}

#[test]
fn expired_sub_is_reclaimable_lifecycle() {
    let (mut c, _) = deploy_with_open_tla();
    let e = rent_alice_sub(&mut c, "alice");
    let expires = c
        .get_sub_account(&e, acc(TLA), "alice".to_string())
        .unwrap()
        .expires_at;
    let e = ctx(BOB, 0, expires + GRACE_NS + DAY_NS);
    let view = c.get_sub_account(&e, acc(TLA), "alice".to_string()).unwrap();
    assert!(matches!(view.lifecycle, LifecycleStatus::Reclaimable));
}

#[test]
fn the_paid_lane_recycles_a_parked_name() {
    let (mut c, _) = deploy_with_open_tla();
    rent_alice_sub(&mut c, "alice");
    let (e, _) = ctx_callback(true);
    c.on_reclaim_finalized(&e, acc(TLA), "alice".to_string(), acc(ALICE), Ok(true));
    assert!(c.is_name_re_rentable(acc(TLA), "alice".to_string()));

    let e = ctx(ADMIN, 1, 1);
    c.add_payment_authority(&e, acc(BOB)).unwrap();
    c.bind_payment_authority_tla(&e, acc(BOB), acc(TLA), 50)
        .unwrap();
    let e = ctx(BOB, 0, 2);
    let _ = c
        .rent_sub_account_paid(
            &e,
            acc(TLA),
            "alice".to_string(),
            acc(CAROL),
            acc(CAROL),
            "ord-re-rent".to_string(),
        )
        .expect("a parked name is re-rentable through the paid lane");
    assert_eq!(
        c.get_sub_account(&e, acc(TLA), "alice".to_string())
            .unwrap()
            .owner,
        acc(CAROL)
    );
}

#[test]
fn a_failed_park_does_not_reclaim_the_name() {
    let (mut c, _) = deploy_with_open_tla();
    rent_alice_sub(&mut c, "alice");
    let (e, _) = ctx_callback(true);
    c.on_reclaim_finalized(&e, acc(TLA), "alice".to_string(), acc(ALICE), Ok(false));
    assert!(!c.is_name_re_rentable(acc(TLA), "alice".to_string()));
    assert_eq!(c.get_stats().sub_account_count, 1);
    assert_eq!(
        c.get_sub_account(&e, acc(TLA), "alice".to_string())
            .unwrap()
            .owner,
        acc(ALICE)
    );
}

#[test]
fn a_park_whose_receipt_failed_does_not_reclaim_the_name() {
    let (mut c, _) = deploy_with_open_tla();
    rent_alice_sub(&mut c, "alice");
    let (e, _) = ctx_callback(false);
    c.on_reclaim_finalized(
        &e,
        acc(TLA),
        "alice".to_string(),
        acc(ALICE),
        Err(PromiseError::Failed),
    );
    assert!(!c.is_name_re_rentable(acc(TLA), "alice".to_string()));
    assert_eq!(c.get_stats().sub_account_count, 1);
}

#[test]
fn a_failed_owner_swap_does_not_complete_a_re_rent() {
    let (mut c, _) = deploy_with_open_tla();
    rent_alice_sub(&mut c, "alice");
    let (e, _) = ctx_callback(true);
    c.on_reclaim_finalized(&e, acc(TLA), "alice".to_string(), acc(ALICE), Ok(true));
    let rent = c
        .get_rent_price(&e, acc(TLA), "alice".to_string())
        .unwrap()
        .rent_yocto;
    let e = ctx(BOB, rent, 3);
    let _ = c
        .rent_sub_account(&e, acc(TLA), "alice".to_string(), None)
        .unwrap();
    let (e, _) = ctx_callback(true);
    let _ = c.on_sub_account_re_rented(&e, settled("alice", BOB, BOB, rent, rent), Ok(false));
    assert!(c.is_name_re_rentable(acc(TLA), "alice".to_string()));
    assert!(c.get_sub_account(&e, acc(TLA), "alice".to_string()).is_none());
}

#[test]
fn double_reclaim_does_not_double_decrement() {
    let (mut c, _) = deploy_with_open_tla();
    rent_alice_sub(&mut c, "alice");
    assert_eq!(c.get_stats().sub_account_count, 1);
    let (e, _) = ctx_callback(true);
    c.on_reclaim_finalized(&e, acc(TLA), "alice".to_string(), acc(ALICE), Ok(true));
    assert_eq!(c.get_stats().sub_account_count, 0);
    let (e, _) = ctx_callback(true);
    c.on_reclaim_finalized(&e, acc(TLA), "alice".to_string(), acc(ALICE), Ok(true));
    assert_eq!(c.get_stats().sub_account_count, 0);
}

#[test]
fn concurrent_reclaim_blocked_until_finalized() {
    let (mut c, _) = deploy_with_open_tla();
    let e = rent_alice_sub(&mut c, "alice");
    let expires = c
        .get_sub_account(&e, acc(TLA), "alice".to_string())
        .unwrap()
        .expires_at;
    let e = ctx(BOB, 0, expires + GRACE_NS + DAY_NS);
    let _ = c
        .reclaim_finalize(&e, acc(TLA), "alice".to_string())
        .expect("first reclaim dispatches and takes the in-progress lock");
    assert!(matches!(
        c.reclaim_finalize(&e, acc(TLA), "alice".to_string()),
        Err(ContractError::ReclaimInProgress)
    ));
    let (e, _) = ctx_callback(true);
    c.on_reclaim_finalized(&e, acc(TLA), "alice".to_string(), acc(ALICE), Ok(true));
    assert!(c.is_name_re_rentable(acc(TLA), "alice".to_string()));
}

#[test]
fn admin_can_clear_reclaim_pending() {
    let (mut c, _) = deploy_with_open_tla();
    let e = rent_alice_sub(&mut c, "alice");
    let expires = c
        .get_sub_account(&e, acc(TLA), "alice".to_string())
        .unwrap()
        .expires_at;
    let e = ctx(BOB, 0, expires + GRACE_NS + DAY_NS);
    let _ = c
        .reclaim_finalize(&e, acc(TLA), "alice".to_string())
        .expect("reclaim takes the in-progress lock");
    assert!(c.is_reclaim_in_progress(acc(TLA), "alice".to_string()));
    let e = ctx(ADMIN, 1, 2);
    c.admin_clear_reclaim_pending(&e, acc(TLA), "alice".to_string())
        .unwrap();
    assert!(!c.is_reclaim_in_progress(acc(TLA), "alice".to_string()));
}

#[test]
fn a_pending_reclaim_blocks_every_transfer_path() {
    let (mut c, _) = deploy_with_open_tla();
    rent_alice_sub(&mut c, "alice");
    let key = format!("alice.{TLA}");
    c.reclaim_pending.insert(acc(&key), ());
    let e = ctx(ALICE, 1, 2);
    assert!(matches!(
        c.nft_transfer(&e, acc(BOB), key.clone(), None, None),
        Err(ContractError::ReclaimInProgress)
    ));
    let e = ctx(ALICE, 1, 2);
    assert!(matches!(
        c.nft_transfer_call(&e, acc(BOB), key, None, None, String::new()),
        Err(ContractError::ReclaimInProgress)
    ));
    let e = ctx(ALICE, 1, 2);
    assert!(matches!(
        c.transfer_sub_account(&e, acc(TLA), "alice".to_string(), acc(BOB)),
        Err(ContractError::ReclaimInProgress)
    ));
}

#[test]
fn claim_refund_requires_pending() {
    let (mut c, _) = deploy();
    let e = ctx(ALICE, 0, 1);
    assert!(matches!(
        c.claim_refund(&e),
        Err(ContractError::NoPendingRefund)
    ));
}

#[test]
fn a_refund_cannot_be_claimed_twice() {
    let (mut c, _) = deploy();
    c.add_pending_refund(&acc(ALICE), 500);
    assert_eq!(c.get_pending_refund(acc(ALICE)), 500);

    let e = ctx(ALICE, 0, 1);
    assert!(c.claim_refund(&e).is_ok());
    assert_eq!(
        c.get_pending_refund(acc(ALICE)),
        0,
        "the entry has to clear before the transfer, or a second call in the same block \
         pays the same refund again"
    );
    assert_eq!(c.total_pending_refunds, 0);

    let e = ctx(ALICE, 0, 1);
    assert!(matches!(
        c.claim_refund(&e),
        Err(ContractError::NoPendingRefund)
    ));
}

#[test]
fn a_failed_refund_transfer_restores_the_entry() {
    let (mut c, _) = deploy();
    c.add_pending_refund(&acc(ALICE), 500);
    let e = ctx(ALICE, 0, 1);
    assert!(c.claim_refund(&e).is_ok());
    assert_eq!(c.get_pending_refund(acc(ALICE)), 0);

    let (_, ok) = ctx_callback(false);
    c.on_claim_refund_settled(acc(ALICE), 500, ok);
    assert_eq!(
        c.get_pending_refund(acc(ALICE)),
        500,
        "a refund whose transfer failed must remain claimable"
    );
}

#[test]
fn withdraw_capped_by_revenue() {
    let (mut c, _) = deploy();
    let e = ctx(ADMIN, 1, 1);
    assert!(matches!(
        c.withdraw(&e, 1),
        Err(ContractError::InsufficientRevenue)
    ));
}

#[test]
fn pause_blocks_rent() {
    let (mut c, _) = deploy_with_open_tla();
    let e = ctx(ADMIN, 1, 1);
    c.pause(&e).unwrap();
    let e = ctx(ALICE, rent_total(&e, &c, "alice"), 1);
    assert!(matches!(
        c.rent_sub_account(&e, acc(TLA), "alice".to_string(), None),
        Err(ContractError::Paused)
    ));
}

#[test]
fn allowlist_roundtrip() {
    let (mut c, _) = deploy();
    let e = ctx(ADMIN, 1, 1);
    c.add_ft_allowlist(&e, acc("token.testnet")).unwrap();
    assert_eq!(c.get_ft_allowlist(), vec![acc("token.testnet")]);
    c.remove_ft_allowlist(&e, acc("token.testnet")).unwrap();
    assert!(c.get_ft_allowlist().is_empty());
}

#[test]
fn relisting_a_token_never_exhausts_the_sweep_ceiling() {
    let (mut c, _) = deploy();
    let token = acc("usdc.testnet");
    for _ in 0..200 {
        let e = ctx(ADMIN, 1, 1);
        c.add_ft_allowlist(&e, token.clone()).unwrap();
        c.remove_ft_allowlist(&e, token.clone()).unwrap();
    }
    let e = ctx(ADMIN, 1, 1);
    c.add_ft_allowlist(&e, token.clone()).unwrap();
    assert_eq!(
        c.get_ft_allowlist(),
        vec![token],
        "a token already known to the sweeper must be re-listable forever"
    );
    assert!(
        c.add_ft_allowlist(&e, acc("other.testnet")).is_ok(),
        "and churning one token must not consume another's capacity"
    );
}

#[test]
fn fee_config_guards() {
    let (mut c, _) = deploy();
    let e = ctx(ADMIN, 1, 1);
    let mut config = c.get_fee_config();
    config.max_rate_move_bps = 10_001;
    assert!(matches!(
        c.update_fee_config(&e, config),
        Err(ContractError::InvalidRateBounds)
    ));
}

#[test]
fn rent_tiers_must_not_price_a_short_name_below_a_long_one() {
    let (mut c, _) = deploy();
    let e = ctx(ADMIN, 1, 1);
    let mut config = c.get_fee_config();
    config.rent_tier_5_usd_micro = 1;
    config.rent_tier_12plus_usd_micro = 1_000;
    assert!(matches!(
        c.update_fee_config(&e, config),
        Err(ContractError::RentTiersNotDescending)
    ));
}

#[test]
fn a_partner_can_be_given_a_namespace_for_nothing() {
    let (mut c, _) = deploy_priced();
    registered_business(&mut c);
    let e = ctx(COUNCIL, 1, 0);
    c.set_tla_terms(&e, acc(TLA), terms(Some(0), Some(0), Some(0)))
        .unwrap();

    let e = ctx(ALICE, 0, 0);
    assert!(
        c.activate_tla(&e, acc(TLA)).is_ok(),
        "a negotiated free namespace must not need the standard allocation fee"
    );
}

#[test]
fn a_negotiated_rate_is_charged_instead_of_the_schedule() {
    let (mut c, _) = deploy_priced();
    registered_business(&mut c);
    let e = ctx(COUNCIL, 1, 0);
    c.set_tla_terms(
        &e,
        acc(TLA),
        terms(
            Some(7 * USD_MICRO_PER_DOLLAR),
            Some(0),
            None,
        ),
    )
    .unwrap();

    let owed = usd_to_near(7 * USD_MICRO_PER_DOLLAR);
    let e = ctx(ALICE, owed.saturating_sub(1), 0);
    assert!(
        matches!(
            c.activate_tla(&e, acc(TLA)),
            Err(ContractError::InsufficientPayment)
        ),
        "the deal price is still a price, not a waiver"
    );
    let e = ctx(ALICE, owed, 0);
    assert!(c.activate_tla(&e, acc(TLA)).is_ok());
}

#[test]
fn a_tla_on_standard_terms_pays_the_schedule() {
    let (mut c, _) = deploy_priced();
    registered_business(&mut c);
    let scheduled = usd_to_near(
        c.get_fee_config().tla_allocation_fee_usd_micro
            + fees::base_rent(TLA.len() as u8, &c.get_fee_config()),
    );
    let e = ctx(ALICE, scheduled.saturating_sub(1), 0);
    assert!(matches!(
        c.activate_tla(&e, acc(TLA)),
        Err(ContractError::InsufficientPayment)
    ));
    let e = ctx(ALICE, scheduled, 0);
    assert!(c.activate_tla(&e, acc(TLA)).is_ok());
}

#[test]
fn a_per_name_rate_overrides_the_global_business_fee() {
    let (mut c, _) = deploy_priced();
    registered_business(&mut c);
    let e = ctx(COUNCIL, 1, 0);
    c.set_tla_terms(&e, acc(TLA), terms(Some(0), Some(0), None))
        .unwrap();
    let e = ctx(ALICE, 0, 0);
    c.activate_tla(&e, acc(TLA)).unwrap();
    let scheduled = c
        .get_rent_price(&e, acc(TLA), "staff".to_string())
        .unwrap()
        .rent_yocto;
    assert!(scheduled > 0, "the schedule must charge something to start");

    let e = ctx(COUNCIL, 1, 0);
    c.set_tla_terms(&e, acc(TLA), terms(Some(0), Some(0), Some(0)))
        .unwrap();
    assert_eq!(
        c.get_rent_price(&e, acc(TLA), "staff".to_string())
            .unwrap()
            .rent_yocto,
        0,
        "the quote must follow the agreement, not the fee schedule"
    );
}

#[test]
fn clearing_the_terms_returns_the_tla_to_the_schedule() {
    let (mut c, _) = deploy_priced();
    registered_business(&mut c);
    let e = ctx(COUNCIL, 1, 0);
    c.set_tla_terms(&e, acc(TLA), terms(Some(0), Some(0), Some(0)))
        .unwrap();
    let e = ctx(COUNCIL, 1, 0);
    c.set_tla_terms(&e, acc(TLA), terms(None, None, None)).unwrap();

    assert!(
        !c.tla_terms.contains_key(&acc(TLA)),
        "a cleared agreement must leave no override row behind to pay storage on"
    );
    assert!(c.get_tla_terms(acc(TLA)).is_standard());
    let e = ctx(ALICE, 0, 0);
    assert!(matches!(
        c.activate_tla(&e, acc(TLA)),
        Err(ContractError::InsufficientPayment)
    ));
}

#[test]
fn only_the_council_may_write_a_partner_agreement() {
    let (mut c, _) = deploy_priced();
    registered_business(&mut c);
    let e = ctx(ALICE, 1, 0);
    assert!(
        matches!(
            c.set_tla_terms(&e, acc(TLA), terms(Some(0), Some(0), Some(0))),
            Err(ContractError::OnlyCouncil)
        ),
        "a licensee must not be able to price their own agreement"
    );
}

#[test]
fn a_per_name_rate_is_refused_on_an_open_tla_that_would_ignore_it() {
    let (mut c, _) = deploy_with_open_tla();
    let e = ctx(COUNCIL, 1, 0);
    assert!(
        matches!(
            c.set_tla_terms(&e, acc(TLA), terms(None, None, Some(0))),
            Err(ContractError::NotBusinessTla)
        ),
        "an open TLA prices names by length tier, so a per-name rate set here \
         would read as applied and never be charged"
    );
    let e = ctx(COUNCIL, 1, 0);
    assert!(
        c.set_tla_terms(&e, acc(TLA), terms(Some(0), Some(0), None))
            .is_ok(),
        "the allocation and rent halves still apply to an open TLA"
    );
}

#[test]
fn terms_cannot_be_written_for_a_tla_that_does_not_exist() {
    let (mut c, _) = deploy_priced();
    let e = ctx(COUNCIL, 1, 0);
    assert!(matches!(
        c.set_tla_terms(&e, acc("nosuch.testnet"), terms(Some(0), None, None)),
        Err(ContractError::TlaNotFound)
    ));
}

#[test]
fn a_partner_rate_is_still_bound_by_the_fee_ceiling() {
    let (mut c, _) = deploy_priced();
    registered_business(&mut c);
    let e = ctx(COUNCIL, 1, 0);
    assert!(matches!(
        c.set_tla_terms(
            &e,
            acc(TLA),
            terms(Some(MAX_USD_MICRO + 1), None, None),
        ),
        Err(ContractError::FeeExceedsCap)
    ));
}

#[test]
fn a_renewal_follows_the_agreement_the_activation_used() {
    let (mut c, _) = deploy_priced();
    registered_business(&mut c);
    let e = ctx(COUNCIL, 1, 0);
    c.set_tla_terms(&e, acc(TLA), terms(Some(0), Some(0), None))
        .unwrap();
    let e = ctx(ALICE, 0, 0);
    c.activate_tla(&e, acc(TLA)).unwrap();

    let e = ctx(ALICE, 0, 1);
    assert!(
        c.renew_tla(&e, acc(TLA)).is_ok(),
        "a partner on free terms must not be billed the schedule at renewal"
    );
}

#[test]
fn an_unbound_authority_cannot_mint_under_a_business_tla() {
    let (mut c, _) = deploy_with_business_tla();
    let creation = c.get_fee_config().account_creation_deposit_yocto;
    let e = ctx(ADMIN, 1, 1);
    c.add_payment_authority(&e, acc(CAROL)).unwrap();
    let e = ctx(CAROL, creation, 1);
    assert!(
        matches!(
            c.rent_sub_account_paid(
                &e,
                acc(TLA),
                "staff".to_string(),
                acc(BOB),
                acc(ALICE),
                "ord-unbound".to_string(),
            ),
            Err(ContractError::AuthorityNotBoundToTla)
        ),
        "naming the licensee as payout_account is not authorisation from them"
    );
    assert!(c.get_sub_account(&e, acc(TLA), "staff".to_string()).is_none());
}

#[test]
fn a_paid_mint_that_never_landed_leaves_its_order_spendable_again() {
    let (mut c, _) = bound_relay();
    let creation = c.get_fee_config().account_creation_deposit_yocto;

    let e = ctx(CAROL, creation, 1);
    let _ = c
        .rent_sub_account_paid(
            &e,
            acc(TLA),
            "staff".to_string(),
            acc(BOB),
            acc(ALICE),
            "ord-1".to_string(),
        )
        .unwrap();
    let (e, _) = ctx_callback(false);
    c.on_sub_account_created_paid(
        &e,
        settled_for_order("staff", BOB, CAROL, "ord-1"),
        Ok(MintOutcome::CreationFailed),
    ).unwrap();

    let e = ctx(CAROL, creation, 2);
    assert!(
        c.rent_sub_account_paid(
            &e,
            acc(TLA),
            "staff".to_string(),
            acc(BOB),
            acc(ALICE),
            "ord-1".to_string(),
        )
        .is_ok(),
        "the customer paid for this order once and the mint never happened, so it must be retryable"
    );
}

#[test]
fn a_paid_mint_that_landed_can_never_be_spent_twice() {
    let (mut c, _) = bound_relay();
    let creation = c.get_fee_config().account_creation_deposit_yocto;

    let e = ctx(CAROL, creation, 1);
    let _ = c
        .rent_sub_account_paid(
            &e,
            acc(TLA),
            "staff".to_string(),
            acc(BOB),
            acc(ALICE),
            "ord-2".to_string(),
        )
        .unwrap();
    let (e, _) = ctx_callback(true);
    c.on_sub_account_created_paid(
        &e,
        settled_for_order("staff", BOB, CAROL, "ord-2"),
        Ok(MintOutcome::Active),
    ).unwrap();

    let e = ctx(CAROL, creation, 2);
    assert!(
        matches!(
            c.rent_sub_account_paid(
                &e,
                acc(TLA),
                "other".to_string(),
                acc(BOB),
                acc(BOB),
                "ord-2".to_string(),
            ),
            Err(ContractError::PaidOrderAlreadySettled)
        ),
        "one settled payment must never buy a second name"
    );
}

#[test]
fn an_order_in_flight_blocks_a_second_attempt_on_the_same_order() {
    let (mut c, _) = bound_relay();
    let creation = c.get_fee_config().account_creation_deposit_yocto;

    let e = ctx(CAROL, creation, 1);
    let _ = c
        .rent_sub_account_paid(
            &e,
            acc(TLA),
            "staff".to_string(),
            acc(BOB),
            acc(ALICE),
            "ord-3".to_string(),
        )
        .unwrap();

    let e = ctx(CAROL, creation, 1);
    assert!(
        matches!(
            c.rent_sub_account_paid(
                &e,
                acc(TLA),
                "other".to_string(),
                acc(BOB),
                acc(BOB),
                "ord-3".to_string(),
            ),
            Err(ContractError::PaidOrderAlreadySettled)
        ),
        "two mints in one block must not both draw on the same order"
    );
}

#[test]
fn the_admin_hatch_frees_a_stuck_order_but_never_a_settled_one() {
    let (mut c, _) = bound_relay();
    let creation = c.get_fee_config().account_creation_deposit_yocto;

    let e = ctx(CAROL, creation, 1);
    let _ = c
        .rent_sub_account_paid(
            &e,
            acc(TLA),
            "staff".to_string(),
            acc(BOB),
            acc(ALICE),
            "ord-4".to_string(),
        )
        .unwrap();

    let e = ctx(BOB, 1, 2);
    assert!(
        c.admin_release_paid_order(&e, "ord-4".to_string()).is_err(),
        "the hatch is admin only"
    );

    let e = ctx(ADMIN, 1, 2);
    assert!(
        matches!(
            c.admin_release_paid_order(&e, "ord-4".to_string()),
            Err(ContractError::PaidOrderStillInFlight)
        ),
        "an order may not be released while an honest callback could still land"
    );

    let e = ctx(ADMIN, 1, MANUAL_ORDER_RELEASE_AFTER_NS + 1);
    assert!(c.admin_release_paid_order(&e, "ord-4".to_string()).is_ok());
    assert!(
        matches!(
            c.admin_release_paid_order(&e, "ord-4".to_string()),
            Err(ContractError::PaidOrderNotFound)
        ),
        "releasing twice must not pretend to have done something"
    );

    let e = ctx(CAROL, creation, 3);
    let _ = c
        .rent_sub_account_paid(
            &e,
            acc(TLA),
            "staff2".to_string(),
            acc(BOB),
            acc(ALICE),
            "ord-4".to_string(),
        )
        .unwrap();
    let (e, _) = ctx_callback(true);
    c.on_sub_account_created_paid(
        &e,
        settled_for_order("staff2", BOB, CAROL, "ord-4"),
        Ok(MintOutcome::Active),
    ).unwrap();

    let e = ctx(ADMIN, 1, 4);
    assert!(
        matches!(
            c.admin_release_paid_order(&e, "ord-4".to_string()),
            Err(ContractError::PaidOrderAlreadySettled)
        ),
        "the hatch must never reopen a payment that already bought a name"
    );
}

#[test]
fn a_paid_re_rent_pays_the_licensee_rather_than_the_incoming_owner() {
    let (mut c, _) = bound_relay();
    parked_business_name(&mut c, "staff");

    let e = ctx(CAROL, 0, 2);
    let _ = c
        .rent_sub_account_paid(
            &e,
            acc(TLA),
            "staff".to_string(),
            acc(BOB),
            acc(ALICE),
            "ord-rr".to_string(),
        )
        .unwrap();
    let (e, _) = ctx_callback(true);
    let _ =
        c.on_sub_account_re_rented(&e, settled_for_order("staff", BOB, CAROL, "ord-rr"), Ok(true));

    assert_eq!(
        c.get_sub_account(&e, acc(TLA), "staff".to_string())
            .unwrap()
            .owner,
        acc(BOB)
    );
    assert_eq!(
        payout_of(&e, &c, "staff"),
        acc(ALICE),
        "a re-rent that repointed the payout at the renter would divert the licensee's revenue"
    );

    let e = ctx(CAROL, 0, 3);
    assert!(
        matches!(
            c.rent_sub_account_paid(
                &e,
                acc(TLA),
                "staff2".to_string(),
                acc(BOB),
                acc(ALICE),
                "ord-rr".to_string(),
            ),
            Err(ContractError::PaidOrderAlreadySettled)
        ),
        "a settled re-rent order must be as spent as a settled mint order"
    );
}

#[test]
fn a_failed_paid_re_rent_returns_both_the_order_and_the_mint_slot() {
    let (mut c, _) = bound_relay();
    parked_business_name(&mut c, "staff");

    let e = ctx(CAROL, 0, 2);
    let _ = c
        .rent_sub_account_paid(
            &e,
            acc(TLA),
            "staff".to_string(),
            acc(BOB),
            acc(ALICE),
            "ord-rr".to_string(),
        )
        .unwrap();
    assert_eq!(c.payment_authority_used(acc(CAROL), acc(TLA)), 1);

    let (e, _) = ctx_callback(true);
    let _ =
        c.on_sub_account_re_rented(&e, settled_for_order("staff", BOB, CAROL, "ord-rr"), Ok(false));

    assert_eq!(
        c.payment_authority_used(acc(CAROL), acc(TLA)),
        0,
        "a re-rent the wallet refused must not burn an allowance slot the relay never spent"
    );
    assert!(c.is_name_re_rentable(acc(TLA), "staff".to_string()));

    let e = ctx(CAROL, 0, 3);
    assert!(
        c.rent_sub_account_paid(
            &e,
            acc(TLA),
            "staff".to_string(),
            acc(BOB),
            acc(ALICE),
            "ord-rr".to_string(),
        )
        .is_ok(),
        "the customer's payment bought nothing, so the order must be spendable again"
    );
}

#[test]
fn a_late_failure_callback_cannot_release_the_order_that_replaced_it() {
    let (mut c, _) = bound_relay();
    let creation = c.get_fee_config().account_creation_deposit_yocto;
    let past_hatch = MANUAL_ORDER_RELEASE_AFTER_NS + 1;

    let e = ctx(CAROL, creation, 1);
    let _ = c
        .rent_sub_account_paid(
            &e,
            acc(TLA),
            "staff".to_string(),
            acc(BOB),
            acc(ALICE),
            "ord-5".to_string(),
        )
        .unwrap();
    assert_eq!(c.payment_authority_used(acc(CAROL), acc(TLA)), 1);

    let e = ctx(ADMIN, 1, past_hatch);
    c.admin_release_paid_order(&e, "ord-5".to_string()).unwrap();
    assert_eq!(
        c.payment_authority_used(acc(CAROL), acc(TLA)),
        0,
        "the hatch frees an order whose mint will never land, so it must free the \
         allowance slot that order took as well"
    );

    let e = ctx(CAROL, creation, past_hatch + 1);
    let _ = c
        .rent_sub_account_paid(
            &e,
            acc(TLA),
            "staff2".to_string(),
            acc(BOB),
            acc(ALICE),
            "ord-5".to_string(),
        )
        .unwrap();
    assert_eq!(c.payment_authority_used(acc(CAROL), acc(TLA)), 1);

    let (e, _) = ctx_callback(false);
    c.on_sub_account_created_paid(
        &e,
        settled_for_order("staff", BOB, CAROL, "ord-5"),
        Ok(MintOutcome::CreationFailed),
    ).unwrap();

    assert_eq!(
        c.payment_authority_used(acc(CAROL), acc(TLA)),
        1,
        "the stale callback belongs to a reservation that is already gone, so it \
         must not free the slot the live reservation is holding"
    );
    let e = ctx(CAROL, creation, past_hatch + 2);
    assert!(
        matches!(
            c.rent_sub_account_paid(
                &e,
                acc(TLA),
                "other".to_string(),
                acc(BOB),
                acc(ALICE),
                "ord-5".to_string(),
            ),
            Err(ContractError::PaidOrderAlreadySettled)
        ),
        "the live reservation must still hold the order id after the stale callback"
    );
}

#[test]
fn unbinding_stops_a_relay_that_was_previously_allowed() {
    let (mut c, _) = deploy_with_business_tla();
    let creation = c.get_fee_config().account_creation_deposit_yocto;
    let e = ctx(ADMIN, 1, 1);
    c.add_payment_authority(&e, acc(CAROL)).unwrap();
    c.bind_payment_authority_tla(&e, acc(CAROL), acc(TLA), 50)
        .unwrap();
    assert!(c.is_payment_authority_bound(acc(CAROL), acc(TLA)));
    let e = ctx(ADMIN, 1, 1);
    c.unbind_payment_authority_tla(&e, acc(CAROL), acc(TLA))
        .unwrap();
    assert!(!c.is_payment_authority_bound(acc(CAROL), acc(TLA)));
    let e = ctx(CAROL, creation, 1);
    assert!(matches!(
        c.rent_sub_account_paid(
            &e,
            acc(TLA),
            "staff".to_string(),
            acc(BOB),
            acc(ALICE),
            "ord-unbound-2".to_string(),
        ),
        Err(ContractError::AuthorityNotBoundToTla)
    ));
}

#[test]
fn a_bound_relay_cannot_mint_past_its_allowance() {
    let (mut c, _) = deploy_with_business_tla();
    let creation = c.get_fee_config().account_creation_deposit_yocto;
    let e = ctx(ADMIN, 1, 1);
    c.add_payment_authority(&e, acc(CAROL)).unwrap();
    c.bind_payment_authority_tla(&e, acc(CAROL), acc(TLA), 1)
        .unwrap();

    let e = ctx(CAROL, creation, 1);
    let _ = c
        .rent_sub_account_paid(
            &e,
            acc(TLA),
            "one".to_string(),
            acc(BOB),
            acc(ALICE),
            "ord-one".to_string(),
        )
        .expect("the first mint is inside the allowance");
    assert_eq!(c.payment_authority_used(acc(CAROL), acc(TLA)), 1);

    let e = ctx(CAROL, creation, 1);
    assert!(
        matches!(
            c.rent_sub_account_paid(
                &e,
                acc(TLA),
                "two".to_string(),
                acc(BOB),
                acc(ALICE),
                "ord-two".to_string(),
            ),
            Err(ContractError::AuthorityMintAllowanceSpent)
        ),
        "a compromised relay cannot squat the namespace past what the council allowed"
    );
    assert!(c.get_sub_account(&e, acc(TLA), "two".to_string()).is_none());
}

#[test]
fn a_relay_bound_with_no_allowance_is_refused_rather_than_left_unlimited() {
    let (mut c, _) = deploy_with_business_tla();
    let e = ctx(ADMIN, 1, 1);
    c.add_payment_authority(&e, acc(CAROL)).unwrap();
    assert!(
        matches!(
            c.bind_payment_authority_tla(&e, acc(CAROL), acc(TLA), 0),
            Err(ContractError::AuthorityMintAllowanceZero)
        ),
        "zero must not read as an uncapped bind"
    );
    assert!(!c.is_payment_authority_bound(acc(CAROL), acc(TLA)));
}

#[test]
fn one_settled_order_cannot_be_replayed_into_a_second_name() {
    let (mut c, _) = deploy_with_business_tla();
    let creation = c.get_fee_config().account_creation_deposit_yocto;
    let e = ctx(ADMIN, 1, 1);
    c.add_payment_authority(&e, acc(CAROL)).unwrap();
    c.bind_payment_authority_tla(&e, acc(CAROL), acc(TLA), 50)
        .unwrap();

    let e = ctx(CAROL, creation, 1);
    let _ = c
        .rent_sub_account_paid(
            &e,
            acc(TLA),
            "first".to_string(),
            acc(BOB),
            acc(ALICE),
            "ord-7".to_string(),
        )
        .expect("the order settles the first name");

    let e = ctx(CAROL, creation, 1);
    assert!(
        matches!(
            c.rent_sub_account_paid(
                &e,
                acc(TLA),
                "second".to_string(),
                acc(BOB),
                acc(ALICE),
                "ord-7".to_string(),
            ),
            Err(ContractError::PaidOrderAlreadySettled)
        ),
        "one payment must buy one name"
    );
    assert!(c.get_sub_account(&e, acc(TLA), "second".to_string()).is_none());
}

#[test]
fn a_paid_mint_must_name_the_order_it_settles() {
    let (mut c, _) = deploy_with_business_tla();
    let creation = c.get_fee_config().account_creation_deposit_yocto;
    let e = ctx(ADMIN, 1, 1);
    c.add_payment_authority(&e, acc(CAROL)).unwrap();
    c.bind_payment_authority_tla(&e, acc(CAROL), acc(TLA), 50)
        .unwrap();
    let e = ctx(CAROL, creation, 1);
    assert!(matches!(
        c.rent_sub_account_paid(
            &e,
            acc(TLA),
            "first".to_string(),
            acc(BOB),
            acc(ALICE),
            String::new(),
        ),
        Err(ContractError::InvalidOrderId)
    ));
    let e = ctx(CAROL, creation, 1);
    assert!(
        matches!(
            c.rent_sub_account_paid(
                &e,
                acc(TLA),
                "first".to_string(),
                acc(BOB),
                acc(ALICE),
                "x".repeat(MAX_ORDER_ID_LEN + 1),
            ),
            Err(ContractError::InvalidOrderId)
        ),
        "an unbounded identifier is storage a relay can spend for free"
    );
}

#[test]
fn the_licensee_can_retract_an_account_an_employee_owns() {
    let (mut c, _) = deploy_with_business_tla();
    let e = rent_employee_sub(&mut c, "staff", BOB);
    assert_eq!(
        c.get_sub_account(&e, acc(TLA), "staff".to_string())
            .unwrap()
            .owner,
        acc(BOB),
        "the employee holds it so their wallet can sign as the account"
    );
    let e = ctx(ALICE, 1, 2);
    let _ = c
        .schedule_retraction(&e, acc(TLA), "staff".to_string())
        .unwrap();
    assert!(c.get_retraction_at(acc(TLA), "staff".to_string()).is_some());
    let e = ctx(ALICE, 1, 3);
    let _ = c.cancel_retraction(&e, acc(TLA), "staff".to_string()).unwrap();
    assert!(
        c.get_retraction_at(acc(TLA), "staff".to_string()).is_some(),
        "the registry must not clear the retraction until the wallet lease is restored"
    );
    let (_, ok) = ctx_callback(true);
    c.on_retraction_canceled(acc_key("staff"), acc(ALICE), ok);
    assert!(c.get_retraction_at(acc(TLA), "staff".to_string()).is_none());
}

#[test]
fn a_cancel_the_wallet_refuses_leaves_the_retraction_standing() {
    let (mut c, _) = deploy_with_business_tla();
    rent_employee_sub(&mut c, "staff", BOB);
    let e = ctx(ALICE, 1, 2);
    let _ = c
        .schedule_retraction(&e, acc(TLA), "staff".to_string())
        .unwrap();
    let (_, ok) = ctx_callback(true);
    c.on_retraction_scheduled(acc_key("staff"), acc(ALICE), ok);
    let e = ctx(ALICE, 1, 3);
    let _ = c.cancel_retraction(&e, acc(TLA), "staff".to_string()).unwrap();
    let (_, ok) = ctx_callback(false);
    c.on_retraction_canceled(acc_key("staff"), acc(ALICE), ok);
    assert!(
        c.get_retraction_at(acc(TLA), "staff".to_string()).is_some(),
        "a failed lease restore must not leave the registry claiming the lease is safe"
    );
}

#[test]
fn a_schedule_the_wallet_refuses_rolls_the_registry_back() {
    let (mut c, _) = deploy_with_business_tla();
    rent_employee_sub(&mut c, "staff", BOB);
    let e = ctx(ALICE, 1, 2);
    let _ = c
        .schedule_retraction(&e, acc(TLA), "staff".to_string())
        .unwrap();
    assert!(c.get_retraction_at(acc(TLA), "staff".to_string()).is_some());
    let (_, ok) = ctx_callback(false);
    c.on_retraction_scheduled(acc_key("staff"), acc(ALICE), ok);
    assert!(
        c.get_retraction_at(acc(TLA), "staff".to_string()).is_none(),
        "a failed lease shortening must not leave a retraction the wallet never applied"
    );
}

#[test]
fn an_elapsed_retraction_reads_reclaimable_to_a_client() {
    let (mut c, _) = deploy_with_business_tla();
    rent_employee_sub(&mut c, "staff", BOB);
    let e = ctx(ALICE, 1, 2);
    let _ = c
        .schedule_retraction(&e, acc(TLA), "staff".to_string())
        .unwrap();

    let notice = c.get_fee_config().retraction_notice_ns;
    let after = (2 + notice).max(GRACE_NS) + 1;
    let e = ctx(BOB, 0, after);
    let view = c.get_sub_account(&e, acc(TLA), "staff".to_string()).unwrap();
    assert!(
        matches!(view.lifecycle, LifecycleStatus::Reclaimable),
        "the view must report what assert_sellable and resolve_reclaimable enforce"
    );
    assert!(
        view.expires_at > after,
        "its own term has not run, so only the retraction explains the status"
    );
}

#[test]
fn a_stranger_still_cannot_retract_a_business_account() {
    let (mut c, _) = deploy_with_business_tla();
    rent_employee_sub(&mut c, "staff", BOB);
    let e = ctx("mallory.testnet", 1, 2);
    assert!(matches!(
        c.schedule_retraction(&e, acc(TLA), "staff".to_string()),
        Err(ContractError::OnlyLicensee)
    ));
}

#[test]
fn an_employee_cannot_schedule_their_own_retraction() {
    let (mut c, _) = deploy_with_business_tla();
    rent_employee_sub(&mut c, "staff", BOB);
    let e = ctx(BOB, 1, 2);
    assert!(
        matches!(
            c.schedule_retraction(&e, acc(TLA), "staff".to_string()),
            Err(ContractError::OnlyLicensee)
        ),
        "scheduling and cancelling must sit with the same party: an employee who could start \
         the notice period but not stop it can lose the name to a licensee who never looks"
    );
}

#[test]
fn a_business_employee_cannot_redirect_the_licensee_payout() {
    let (mut c, _) = deploy_with_business_tla();
    let creation = c.get_fee_config().account_creation_deposit_yocto;
    let e = ctx(ADMIN, 1, 1);
    c.add_payment_authority(&e, acc(CAROL)).unwrap();
    c.bind_payment_authority_tla(&e, acc(CAROL), acc(TLA), 50)
        .unwrap();
    let e = ctx(CAROL, creation, 1);
    let _ = c
        .rent_sub_account_paid(
            &e,
            acc(TLA),
            "staff".to_string(),
            acc(BOB),
            acc(ALICE),
            "ord-staff".to_string(),
        )
        .unwrap();
    assert_eq!(payout_of(&e, &c, "staff"), acc(ALICE));

    let e = ctx(BOB, 1, 2);
    assert!(
        matches!(
            c.set_payout_account(&e, acc(TLA), "staff".to_string(), acc(BOB)),
            Err(ContractError::OnlyLicensee)
        ),
        "the employee holds the name but the licence pays for it"
    );
    let e = ctx(ALICE, 1, 2);
    assert!(c
        .set_payout_account(&e, acc(TLA), "staff".to_string(), acc(CAROL))
        .is_ok());
}

#[test]
fn only_licensee_rents_business_subs() {
    let (mut c, _) = deploy_with_business_tla();
    let total = c.get_fee_config().sub_fee_per_account_usd_micro
        + c.get_fee_config().account_creation_deposit_yocto;
    let e = ctx(BOB, total, 1);
    assert!(matches!(
        c.rent_sub_account(&e, acc(TLA), "staff".to_string(), None),
        Err(ContractError::OnlyLicensee)
    ));
}

#[test]
fn business_cap_view_reflects_override_then_falls_back() {
    let (mut c, _) = deploy_with_business_tla();
    let default_cap = c.get_fee_config().business_max_subs;
    assert_eq!(c.get_business_sub_cap(acc(TLA)), default_cap);
    assert_eq!(c.get_business_sub_count(acc(TLA)), 0);
    let e = ctx(ADMIN, 1, 1);
    c.set_business_sub_cap(&e, acc(TLA), Some(7)).unwrap();
    assert_eq!(c.get_business_sub_cap(acc(TLA)), 7);
    let e = ctx(ADMIN, 1, 1);
    c.set_business_sub_cap(&e, acc(TLA), None).unwrap();
    assert_eq!(
        c.get_business_sub_cap(acc(TLA)),
        default_cap,
        "clearing the override must fall back to the configured default"
    );
}

#[test]
fn business_renewal_cost_quotes_the_tla_rent_only() {
    let (mut c, e) = deploy_with_business_tla();
    let view = c.get_business_renewal_cost(&e, acc(TLA)).unwrap();
    assert_eq!(view.tla_id, acc(TLA));
    assert!(view.tla_rent_yocto > 0);

    let e = rent_business_sub(&mut c, "staff");
    let with_a_sub = c.get_business_renewal_cost(&e, acc(TLA)).unwrap();
    assert_eq!(
        with_a_sub.tla_rent_yocto, view.tla_rent_yocto,
        "renew_tla charges base rent alone, so the quote cannot move with the sub-account count"
    );
}

#[test]
fn business_renewal_cost_rejects_an_open_tla() {
    let (c, e) = deploy_with_open_tla();
    assert!(matches!(
        c.get_business_renewal_cost(&e, acc(TLA)),
        Err(ContractError::NotBusinessTla)
    ));
}

#[test]
fn business_cap_enforced() {
    let (mut c, _) = deploy_with_business_tla();
    let e = ctx(ADMIN, 1, 1);
    c.set_business_sub_cap(&e, acc(TLA), Some(0)).unwrap();
    let total = usd_to_near(c.get_fee_config().sub_fee_per_account_usd_micro)
        + c.get_fee_config().account_creation_deposit_yocto;
    let e = ctx(ALICE, total, 1);
    assert!(matches!(
        c.rent_sub_account(&e, acc(TLA), "staff".to_string(), None),
        Err(ContractError::MaxBusinessSubsReached)
    ));
}

#[test]
fn retraction_schedule_and_cancel() {
    let (mut c, _) = deploy_with_business_tla();
    let rent_near = usd_to_near(c.get_fee_config().sub_fee_per_account_usd_micro);
    let total = rent_near + c.get_fee_config().account_creation_deposit_yocto;
    let e = ctx(ALICE, total, 1);
    let _ = c
        .rent_sub_account(&e, acc(TLA), "staff".to_string(), None)
        .unwrap();
    let (e, _) = ctx_callback(true);
    c.on_sub_account_created(
        &e,
        settled("staff", ALICE, ALICE, rent_near, total),
        Ok(MintOutcome::Active),
    ).unwrap();
    let e = ctx(ALICE, 1, 2);
    let _ = c
        .schedule_retraction(&e, acc(TLA), "staff".to_string())
        .unwrap();
    assert!(c.get_retraction_at(acc(TLA), "staff".to_string()).is_some());
    let e = ctx(ALICE, 1, 3);
    let _ = c.cancel_retraction(&e, acc(TLA), "staff".to_string()).unwrap();
    let (_, ok) = ctx_callback(true);
    c.on_retraction_canceled(acc_key("staff"), acc(ALICE), ok);
    assert!(c.get_retraction_at(acc(TLA), "staff".to_string()).is_none());
}

#[test]
fn a_business_sub_cannot_be_traded_by_any_path() {
    let (mut c, _) = deploy_with_business_tla();
    rent_business_sub(&mut c, "staff");
    let key = format!("staff.{TLA}");
    let e = ctx(ALICE, 1, 2);
    assert!(matches!(
        c.nft_transfer(&e, acc(BOB), key.clone(), None, None),
        Err(ContractError::BusinessSubNotResellable)
    ));
    let e = ctx(ALICE, 1, 2);
    assert!(matches!(
        c.nft_transfer_call(&e, acc(BOB), key, None, None, String::new()),
        Err(ContractError::BusinessSubNotResellable)
    ));
    let e = ctx(ALICE, 1, 2);
    assert!(matches!(
        c.transfer_sub_account(&e, acc(TLA), "staff".to_string(), acc(BOB)),
        Err(ContractError::BusinessSubNotResellable)
    ));
}

#[test]
fn oracle_defaults_to_admin_and_rate_starts_unset() {
    let (c, _) = deploy();
    assert_eq!(c.get_price_oracle(), acc(ADMIN));
    assert_eq!(c.get_near_usd_rate(), 0);
    assert_eq!(c.get_rate_meta().sequence, 0);
}

#[test]
fn admin_initializes_rate_and_stamps_sequence() {
    let (c, _) = deploy_initialized();
    assert_eq!(c.get_near_usd_rate(), dollars(5));
    let meta = c.get_rate_meta();
    assert_eq!(meta.updated_at, 1);
    assert_eq!(meta.sequence, 1);
}

#[test]
fn keeper_cannot_bootstrap_uninitialized_rate() {
    let (mut c, _) = deploy();
    let e = ctx(ADMIN, 1, 0);
    c.set_price_oracle(&e, acc(KEEPER)).unwrap();
    let e = ctx(KEEPER, 0, 1);
    assert!(matches!(
        c.set_near_usd_rate(&e, dollars(5)),
        Err(ContractError::RateNotInitialized)
    ));
}

#[test]
fn initial_rate_rejected_outside_absolute_bounds() {
    let (mut c, _) = deploy();
    let e = ctx(ADMIN, 1, 1);
    assert!(matches!(
        c.admin_set_initial_rate(&e, dollars(1_000)),
        Err(ContractError::RateOutOfBounds)
    ));
}

#[test]
fn initial_rate_cannot_be_set_twice() {
    let (mut c, _) = deploy_initialized();
    let e = ctx(ADMIN, 1, 1);
    assert!(matches!(
        c.admin_set_initial_rate(&e, dollars(6)),
        Err(ContractError::RateAlreadyInitialized)
    ));
}

#[test]
fn keeper_moves_rate_within_band_after_cooldown() {
    let (mut c, _) = deploy_initialized();
    let e = ctx(KEEPER, 0, 1 + COOLDOWN);
    c.set_near_usd_rate(&e, dollars(5) * 11_000 / 10_000)
        .unwrap();
    assert_eq!(c.get_near_usd_rate(), dollars(5) * 11_000 / 10_000);
    assert_eq!(c.get_rate_meta().sequence, 2);
}

#[test]
fn keeper_update_before_cooldown_rejected() {
    let (mut c, _) = deploy_initialized();
    let e = ctx(KEEPER, 0, 1 + COOLDOWN - 1);
    assert!(matches!(
        c.set_near_usd_rate(&e, dollars(5) * 11_000 / 10_000),
        Err(ContractError::RateCooldown)
    ));
}

#[test]
fn non_oracle_cannot_set_rate() {
    let (mut c, _) = deploy_initialized();
    let e = ctx(ADMIN, 1, 1 + COOLDOWN);
    assert!(matches!(
        c.set_near_usd_rate(&e, dollars(5)),
        Err(ContractError::OnlyPriceOracle)
    ));
}

#[test]
fn rate_move_beyond_band_rejected() {
    let (mut c, _) = deploy_initialized();
    let e = ctx(KEEPER, 0, 1 + COOLDOWN);
    assert!(matches!(
        c.set_near_usd_rate(&e, dollars(5) * 12_001 / 10_000),
        Err(ContractError::RateOutOfBounds)
    ));
}

#[test]
fn compromised_keeper_cannot_zero_or_floor_the_rate() {
    let (mut c, _) = deploy_initialized();
    let e = ctx(KEEPER, 0, 1 + COOLDOWN);
    assert!(matches!(
        c.set_near_usd_rate(&e, 0),
        Err(ContractError::RateOutOfBounds)
    ));
    let e = ctx(KEEPER, 0, 1 + COOLDOWN);
    assert!(matches!(
        c.set_near_usd_rate(&e, 1),
        Err(ContractError::RateOutOfBounds)
    ));
    assert_eq!(c.get_near_usd_rate(), dollars(5));
}

#[test]
fn ratchet_to_ceiling_is_bounded_by_absolute_max() {
    let (mut c, _) = deploy_initialized();
    let mut ts = 1 + COOLDOWN;
    let mut rate = dollars(5);
    for _ in 0..200 {
        let target = (rate * 12_000 / 10_000).min(dollars(100));
        let e = ctx(KEEPER, 0, ts);
        if c.set_near_usd_rate(&e, target).is_err() {
            break;
        }
        rate = target;
        ts += COOLDOWN;
    }
    assert!(c.get_near_usd_rate() <= dollars(100));
    assert_eq!(c.get_near_usd_rate(), dollars(100));
}

#[test]
fn a_stale_rate_stops_pricing() {
    let (mut c, _) = deploy_initialized();
    let e = ctx(ADMIN, 1, 1);
    c.register_tla(&e, acc(TLA), TlaType::Open, PremiumCategory::Standard, None)
        .unwrap();
    let max_age = c.get_fee_config().max_rate_age_ns;
    let e = ctx(ALICE, 0, 1 + max_age);
    assert!(
        c.get_rent_price(&e, acc(TLA), "alice".to_string()).is_ok(),
        "a rate exactly at the age limit is still usable"
    );
    let e = ctx(ALICE, 0, 2 + max_age);
    assert!(matches!(
        c.get_rent_price(&e, acc(TLA), "alice".to_string()),
        Err(ContractError::RateStale)
    ));
}

#[test]
fn pricing_rejects_a_stored_rate_outside_the_configured_band() {
    let (mut c, _) = deploy_initialized();
    let e = ctx(ADMIN, 1, 1);
    c.register_tla(&e, acc(TLA), TlaType::Open, PremiumCategory::Standard, None)
        .unwrap();
    c.fee_config.max_near_usd_rate_micro = dollars(2);
    let e = ctx(ALICE, 0, 2);
    assert!(
        matches!(
            c.get_rent_price(&e, acc(TLA), "alice".to_string()),
            Err(ContractError::RateOutOfBounds)
        ),
        "a stored rate must be re-checked against the band at point of use"
    );
}

#[test]
fn config_cannot_strand_the_live_rate_outside_the_new_band() {
    let (mut c, _) = deploy_initialized();
    let mut config = c.get_fee_config();
    config.min_near_usd_rate_micro = dollars(1);
    config.max_near_usd_rate_micro = dollars(2);
    let e = ctx(ADMIN, 1, 1);
    assert!(
        matches!(
            c.update_fee_config(&e, config),
            Err(ContractError::RateOutOfBounds)
        ),
        "a band that excludes the live rate halts pricing with no oracle move able to recover"
    );
}

#[test]
fn config_rejects_unsafe_operational_values() {
    let (mut c, _) = deploy();
    let base = c.get_fee_config();

    let mut zero_cap = base.clone();
    zero_cap.business_max_subs = 0;
    let e = ctx(ADMIN, 1, 1);
    assert!(matches!(
        c.update_fee_config(&e, zero_cap),
        Err(ContractError::InvalidBusinessCap)
    ));

    let mut short_notice = base.clone();
    short_notice.retraction_notice_ns = 1;
    let e = ctx(ADMIN, 1, 1);
    assert!(matches!(
        c.update_fee_config(&e, short_notice),
        Err(ContractError::RetractionNoticeTooShort)
    ));

    let mut age_below_cooldown = base.clone();
    age_below_cooldown.max_rate_age_ns = 1;
    let e = ctx(ADMIN, 1, 1);
    assert!(matches!(
        c.update_fee_config(&e, age_below_cooldown),
        Err(ContractError::InvalidRateBounds)
    ));

    let mut no_cooldown = base.clone();
    no_cooldown.rate_update_cooldown_ns = 0;
    let e = ctx(ADMIN, 1, 1);
    assert!(matches!(
        c.update_fee_config(&e, no_cooldown),
        Err(ContractError::InvalidRateBounds)
    ));

    let mut huge_fee = base;
    huge_fee.rent_tier_5_usd_micro = MAX_USD_MICRO + 1;
    let e = ctx(ADMIN, 1, 1);
    assert!(matches!(
        c.update_fee_config(&e, huge_fee),
        Err(ContractError::FeeExceedsCap)
    ));
}

#[test]
fn config_rejects_inverted_rate_bounds() {
    let (mut c, _) = deploy();
    let e = ctx(ADMIN, 1, 1);
    let mut config = c.get_fee_config();
    config.min_near_usd_rate_micro = dollars(50);
    config.max_near_usd_rate_micro = dollars(10);
    assert!(matches!(
        c.update_fee_config(&e, config),
        Err(ContractError::InvalidRateBounds)
    ));
}

#[test]
fn config_rejects_out_of_range_bps() {
    let (mut c, _) = deploy();
    let e = ctx(ADMIN, 1, 1);
    let mut config = c.get_fee_config();
    config.max_rate_move_bps = 10_001;
    assert!(matches!(
        c.update_fee_config(&e, config),
        Err(ContractError::InvalidRateBounds)
    ));
}

#[test]
fn quote_is_buffered_and_charge_refunds_the_buffer() {
    let (mut c, e) = deploy_with_open_tla();
    let rent_near = rent_near_open(&c, "alice");
    let deposit = c.get_fee_config().account_creation_deposit_yocto;
    let quote = c.get_rent_price(&e, acc(TLA), "alice".to_string()).unwrap();
    assert!(
        quote.rent_yocto > rent_near,
        "quote must carry the slippage buffer above the exact charge"
    );
    assert_eq!(quote.rent_yocto, rent_near * 10_527 / 10_000);
    assert_eq!(quote.total_yocto, quote.rent_yocto + deposit);

    let attached = quote.total_yocto;
    let e = ctx(ALICE, attached, 1);
    let _ = c
        .rent_sub_account(&e, acc(TLA), "alice".to_string(), None)
        .unwrap();
    let (e, _) = ctx_callback(true);
    c.on_sub_account_created(
        &e,
        settled("alice", ALICE, ALICE, rent_near, attached),
        Ok(MintOutcome::Active),
    ).unwrap();
    assert_eq!(c.get_stats().total_revenue_yocto, rent_near);
    assert_eq!(
        c.get_pending_refund(acc(ALICE)),
        attached - rent_near - deposit
    );
}

#[test]
fn charge_fails_closed_when_rate_uninitialized() {
    let (mut c, _) = deploy();
    let e = ctx(ADMIN, 1, 0);
    c.register_tla(&e, acc(TLA), TlaType::Open, PremiumCategory::Standard, None)
        .unwrap();
    c.activate_open_tla(&e, acc(TLA)).unwrap();
    assert!(matches!(
        c.get_rent_price(&e, acc(TLA), "alice".to_string()),
        Err(ContractError::RateNotInitialized)
    ));
    let e = ctx(ALICE, 100_000_000_000_000_000_000_000_000, 1);
    assert!(matches!(
        c.rent_sub_account(&e, acc(TLA), "alice".to_string(), None),
        Err(ContractError::RateNotInitialized)
    ));
}

#[test]
fn an_operations_admin_cannot_escalate_itself() {
    let (mut c, _) = deploy_split();
    let e = ctx(ADMIN, 1, 0);
    assert!(matches!(
        c.add_admin(&e, acc(BOB)),
        Err(ContractError::OnlyCouncil)
    ));
}

#[test]
fn an_operations_admin_cannot_move_the_fee_model_or_release_revenue() {
    let (mut c, _) = deploy_split();
    let e = ctx(ADMIN, 1, 0);
    let config = c.get_fee_config();
    assert!(matches!(
        c.update_fee_config(&e, config),
        Err(ContractError::OnlyCouncil)
    ));
    assert!(matches!(
        c.withdraw(&e, 1),
        Err(ContractError::OnlyTreasuryOrCouncil)
    ));
}

#[test]
fn the_treasury_releases_revenue_without_a_council_vote() {
    let (mut c, _) = deploy_split();
    c.total_revenue = 500;
    let e = ctx(TREASURY, 1, 1);
    c.withdraw(&e, 500).unwrap();
    assert_eq!(
        c.get_pending_refund(acc(TREASURY)),
        500,
        "the treasury must be able to release its own revenue on its own authority"
    );
    assert_eq!(c.get_stats().total_revenue_yocto, 0);
}

#[test]
fn revenue_still_only_ever_lands_on_the_treasury() {
    let (mut c, _) = deploy_split();
    c.total_revenue = 500;
    let e = ctx(OTHER_COUNCIL, 1, 1);
    c.withdraw(&e, 500).unwrap();
    assert_eq!(
        c.get_pending_refund(acc(TREASURY)),
        500,
        "a council withdrawal credits the treasury, never the caller"
    );
    assert_eq!(c.get_pending_refund(acc(OTHER_COUNCIL)), 0);
}

#[test]
fn an_outsider_cannot_release_revenue() {
    let (mut c, _) = deploy_split();
    c.total_revenue = 500;
    let e = ctx(BOB, 1, 1);
    assert!(matches!(
        c.withdraw(&e, 500),
        Err(ContractError::OnlyTreasuryOrCouncil)
    ));
    assert_eq!(c.get_stats().total_revenue_yocto, 500);
}

#[test]
fn a_rotation_takes_effect_only_once_the_incoming_treasury_claims_it() {
    let (mut c, _) = deploy_split();
    let e = ctx(OTHER_COUNCIL, 1, 1);
    c.approve_treasury_rotation(&e, acc(BOB)).unwrap();
    assert_eq!(
        c.get_treasury(),
        acc(TREASURY),
        "approving a rotation must not move the destination on its own"
    );
    assert_eq!(c.pending_treasury(), Some(acc(BOB)));
    let e = ctx(BOB, 1, 1);
    c.commit_treasury_rotation(&e).unwrap();
    assert_eq!(c.get_treasury(), acc(BOB));
    assert_eq!(c.pending_treasury(), None);
}

#[test]
fn an_address_that_cannot_sign_never_becomes_the_treasury() {
    let (mut c, _) = deploy_split();
    let e = ctx(OTHER_COUNCIL, 1, 1);
    c.approve_treasury_rotation(&e, acc(BOB)).unwrap();
    let e = ctx(OTHER_COUNCIL, 1, 1);
    assert!(matches!(
        c.commit_treasury_rotation(&e),
        Err(ContractError::OnlyPendingTreasury)
    ));
    let e = ctx(ADMIN, 1, 1);
    assert!(matches!(
        c.commit_treasury_rotation(&e),
        Err(ContractError::OnlyPendingTreasury)
    ));
    assert_eq!(c.get_treasury(), acc(TREASURY));
}

#[test]
fn the_council_can_cancel_a_rotation_before_it_is_claimed() {
    let (mut c, _) = deploy_split();
    let e = ctx(OTHER_COUNCIL, 1, 1);
    c.approve_treasury_rotation(&e, acc(BOB)).unwrap();
    c.cancel_treasury_rotation(&e).unwrap();
    assert_eq!(c.pending_treasury(), None);
    let e = ctx(BOB, 1, 1);
    assert!(matches!(
        c.commit_treasury_rotation(&e),
        Err(ContractError::NoTreasuryRotationPending)
    ));
    assert_eq!(c.get_treasury(), acc(TREASURY));
}

#[test]
fn the_treasury_cannot_rotate_itself() {
    let (mut c, _) = deploy_split();
    let e = ctx(TREASURY, 1, 1);
    assert!(matches!(
        c.approve_treasury_rotation(&e, acc(BOB)),
        Err(ContractError::OnlyCouncil)
    ));
    assert_eq!(
        c.get_treasury(),
        acc(TREASURY),
        "withdrawing freely must not let the treasury move the destination"
    );
}

#[test]
fn an_operations_admin_cannot_rotate_the_treasury() {
    let (mut c, _) = deploy_split();
    let e = ctx(ADMIN, 1, 1);
    assert!(matches!(
        c.approve_treasury_rotation(&e, acc(BOB)),
        Err(ContractError::OnlyCouncil)
    ));
}

#[test]
fn the_treasury_cannot_be_rotated_to_a_no_op_or_to_the_registry() {
    let (mut c, _) = deploy_split();
    let e = ctx(OTHER_COUNCIL, 1, 1);
    assert!(matches!(
        c.approve_treasury_rotation(&e, acc(TREASURY)),
        Err(ContractError::TreasuryUnchanged)
    ));
    assert!(matches!(
        c.approve_treasury_rotation(&e, acc("registry.testnet")),
        Err(ContractError::TreasuryIsSelf)
    ));
}

#[test]
fn revenue_released_after_a_rotation_lands_on_the_new_treasury() {
    let (mut c, _) = deploy_split();
    c.total_revenue = 500;
    rotate_treasury_to(&mut c, BOB);
    let e = ctx(BOB, 1, 1);
    c.withdraw(&e, 500).unwrap();
    assert_eq!(c.get_pending_refund(acc(BOB)), 500);
    assert_eq!(
        c.get_pending_refund(acc(TREASURY)),
        0,
        "the outgoing treasury must not be credited after it is rotated out"
    );
}

#[test]
fn the_outgoing_treasury_can_no_longer_release_revenue() {
    let (mut c, _) = deploy_split();
    c.total_revenue = 500;
    rotate_treasury_to(&mut c, BOB);
    let e = ctx(TREASURY, 1, 1);
    assert!(matches!(
        c.withdraw(&e, 500),
        Err(ContractError::OnlyTreasuryOrCouncil)
    ));
}

#[test]
fn an_operations_admin_cannot_grant_authorities_or_open_a_tla() {
    let (mut c, _) = deploy_split();
    let e = ctx(ADMIN, 1, 0);
    assert!(matches!(
        c.add_payment_authority(&e, acc(BOB)),
        Err(ContractError::OnlyCouncil)
    ));
    assert!(matches!(
        c.add_recovery_authority(&e, acc(BOB)),
        Err(ContractError::OnlyCouncil)
    ));
    assert!(matches!(
        c.register_tla(&e, acc(TLA), TlaType::Open, PremiumCategory::Standard, None),
        Err(ContractError::OnlyCouncil)
    ));
}

#[test]
fn the_council_holds_those_powers() {
    let (mut c, _) = deploy_split();
    let e = ctx(OTHER_COUNCIL, 1, 0);
    c.add_admin(&e, acc(BOB)).unwrap();
    c.add_payment_authority(&e, acc(BOB)).unwrap();
    c.register_tla(&e, acc(TLA), TlaType::Open, PremiumCategory::Standard, None)
        .unwrap();
}

#[test]
fn operations_keeps_pause_and_unpause_so_an_incident_needs_no_multisig() {
    let (mut c, _) = deploy_split();
    let e = ctx(ADMIN, 1, 0);
    c.pause(&e).unwrap();
    assert!(c.is_paused(&e));
    c.unpause(&e).unwrap();
    assert!(!c.is_paused(&e));
}

#[test]
fn the_council_cannot_run_operations() {
    let (mut c, _) = deploy_split();
    let e = ctx(OTHER_COUNCIL, 1, 0);
    assert!(matches!(c.pause(&e), Err(ContractError::OnlyAdmin)));
}

#[test]
fn only_the_council_removes_an_admin_and_never_the_last_one() {
    let (mut c, _) = deploy_split();
    let e = ctx(OTHER_COUNCIL, 1, 0);
    c.add_admin(&e, acc(BOB)).unwrap();

    let e = ctx(ADMIN, 1, 0);
    assert!(
        matches!(c.remove_admin(&e, acc(BOB)), Err(ContractError::OnlyCouncil)),
        "an admin who can strip the admin set can lock the council out of its own operations"
    );

    let e = ctx(OTHER_COUNCIL, 1, 0);
    c.remove_admin(&e, acc(BOB)).unwrap();
    assert!(matches!(
        c.remove_admin(&e, acc(ADMIN)),
        Err(ContractError::CannotRemoveLastAdmin)
    ));
    assert_eq!(c.get_admins(), vec![acc(ADMIN)]);
}

#[test]
fn only_an_admin_unsuspends_a_tla() {
    let (mut c, _) = deploy_with_open_tla();
    let e = ctx(ADMIN, 1, 1);
    c.suspend_tla(&e, acc(TLA)).unwrap();

    let e = ctx("mallory.testnet", 1, 1);
    assert!(matches!(
        c.unsuspend_tla(&e, acc(TLA)),
        Err(ContractError::OnlyAdmin)
    ));

    let e = ctx(ADMIN, 1, 1);
    c.unsuspend_tla(&e, acc(TLA)).unwrap();
    assert!(matches!(
        c.unsuspend_tla(&e, acc(TLA)),
        Err(ContractError::TlaNotSuspended)
    ));
    assert_eq!(c.get_suspension_expiry(acc(TLA)), 0);
}

#[test]
fn a_paused_marketplace_refuses_a_new_deposit() {
    let (mut c, _) = deploy_with_open_tla();
    rent_alice_sub(&mut c, "alice");
    pause_market(&mut c);
    let e = ctx(ALICE, 1, 2);
    assert!(matches!(
        c.nft_transfer_call(&e, acc(BOB), format!("alice.{TLA}"), None, None, String::new()),
        Err(ContractError::MarketplacePaused)
    ));
}

#[test]
fn a_paused_marketplace_never_traps_a_deposited_name() {
    let (mut c, _) = deploy_with_open_tla();
    rent_alice_sub(&mut c, "alice");
    settle_transfer(&mut c, "alice", ALICE, BOB);
    pause_market(&mut c);
    let e = ctx(BOB, 1, 2);
    assert!(
        c.nft_transfer(&e, acc(ALICE), format!("alice.{TLA}"), None, None)
            .is_ok(),
        "a market pause must never block the exit, or a holder cannot return a name"
    );
}

#[test]
fn a_paused_marketplace_still_allows_a_direct_transfer() {
    let (mut c, _) = deploy_with_open_tla();
    rent_alice_sub(&mut c, "alice");
    pause_market(&mut c);
    let e = ctx(ALICE, 1, 2);
    assert!(
        c.transfer_sub_account(&e, acc(TLA), "alice".to_string(), acc(BOB))
            .is_ok(),
        "the registry pause, not the market pause, gates a direct transfer"
    );
}

#[test]
fn the_registry_pause_stops_every_path_including_the_exit() {
    let (mut c, _) = deploy_with_open_tla();
    rent_alice_sub(&mut c, "alice");
    let e = ctx(ADMIN, 1, 2);
    c.pause(&e).unwrap();
    let e = ctx(ALICE, 1, 3);
    assert!(matches!(
        c.nft_transfer(&e, acc(BOB), format!("alice.{TLA}"), None, None),
        Err(ContractError::Paused)
    ));
}

#[test]
fn renting_still_works_while_the_marketplace_is_paused() {
    let (mut c, _) = deploy_with_open_tla();
    pause_market(&mut c);
    let e = rent_alice_sub(&mut c, "alice");
    assert!(c.get_sub_account(&e, acc(TLA), "alice".to_string()).is_some());
}

#[test]
fn unpausing_restores_trading() {
    let (mut c, _) = deploy_with_open_tla();
    rent_alice_sub(&mut c, "alice");
    pause_market(&mut c);
    let e = ctx(ADMIN, 1, 2);
    c.unpause_marketplace(&e).unwrap();
    let e = ctx(ALICE, 1, 2);
    assert!(c
        .nft_transfer(&e, acc(BOB), format!("alice.{TLA}"), None, None)
        .is_ok());
}

#[test]
fn the_marketplace_pause_is_separate_from_the_registry_pause() {
    let (mut c, _) = deploy_with_open_tla();
    let e = pause_market(&mut c);
    assert!(c.is_marketplace_paused());
    assert!(!c.is_paused(&e));
}

#[test]
fn only_an_admin_can_pause_the_marketplace() {
    let (mut c, _) = deploy_with_open_tla();
    let e = ctx(ALICE, 0, 2);
    assert!(matches!(
        c.pause_marketplace(&e),
        Err(ContractError::OnlyAdmin)
    ));
}

#[test]
fn a_pause_lapses_by_itself_at_the_ceiling() {
    let (mut c, _) = deploy_with_open_tla();
    let e = ctx(ADMIN, 1, 1);
    c.pause(&e).unwrap();
    assert!(c.is_paused(&e));
    let e = ctx(ALICE, 0, 1 + WEEK_NS + 1);
    assert!(
        !c.is_paused(&e),
        "an admin must not be able to hold a pause open indefinitely"
    );
}

#[test]
fn a_suspension_lapses_by_itself_at_the_ceiling() {
    let (mut c, _) = deploy_with_open_tla();
    let e = ctx(ADMIN, 1, 1);
    c.suspend_tla(&e, acc(TLA)).unwrap();
    let e = ctx(BOB, rent_total(&e, &c, "bob"), 2);
    assert!(matches!(
        c.rent_sub_account(&e, acc(TLA), "bob".to_string(), None),
        Err(ContractError::TlaNotAcceptingRentals)
    ));
    let after = 1 + WEEK_NS + 1;
    let e = refresh_rate(&mut c, after);
    let e = ctx(BOB, rent_total(&e, &c, "bob"), after);
    assert!(
        c.rent_sub_account(&e, acc(TLA), "bob".to_string(), None)
            .is_ok(),
        "a suspension must not block a namespace indefinitely"
    );
}

#[test]
fn a_holder_can_still_renew_and_keep_their_name() {
    let (mut c, _) = deploy_with_open_tla();
    let e = rent_alice_sub(&mut c, "alice");
    let rent = c
        .get_rent_price(&e, acc(TLA), "alice".to_string())
        .unwrap()
        .rent_yocto;
    let e = ctx(ADMIN, 1, 2);
    c.pause(&e).unwrap();
    let e = ctx(ALICE, rent, 2);
    assert!(
        c.renew_sub_account(&e, acc(TLA), "alice".to_string()).is_ok(),
        "a pause must never let a name lapse that its holder is paying to keep"
    );
}

#[test]
fn a_holder_can_still_sweep_their_own_balance_home() {
    let (mut c, _) = deploy_with_open_tla();
    let e = rent_alice_sub(&mut c, "alice");
    let expires = c
        .get_sub_account(&e, acc(TLA), "alice".to_string())
        .unwrap()
        .expires_at;
    let e = ctx(ADMIN, 1, 2);
    c.pause(&e).unwrap();
    let e = ctx(ALICE, 1, expires + GRACE_NS + 1);
    assert!(
        c.reclaim_sweep_near(&e, acc(TLA), "alice".to_string()).is_ok(),
        "a pause must never hold a user's own balance in an expired account"
    );
}

#[test]
fn a_delisted_token_is_still_sweepable_home() {
    let (mut c, _) = deploy_with_open_tla();
    rent_alice_sub(&mut c, "alice");
    let token = acc("usdc.testnet");
    let e = ctx(ADMIN, 1, 1);
    c.add_ft_allowlist(&e, token.clone()).unwrap();
    c.remove_ft_allowlist(&e, token.clone()).unwrap();
    let expires = c
        .get_sub_account(&e, acc(TLA), "alice".to_string())
        .unwrap()
        .expires_at;
    let e = ctx(
        ALICE,
        SWEEP_ATTACHED_REQUIRED,
        expires + GRACE_NS + DAY_NS,
    );
    assert!(
        c.reclaim_sweep_ft(&e, acc(TLA), "alice".to_string(), token)
            .is_ok(),
        "de-listing a token must not strand balances already held in accounts"
    );
}

#[test]
fn a_pause_still_stops_new_rentals() {
    let (mut c, _) = deploy_with_open_tla();
    let e = ctx(ADMIN, 1, 1);
    c.pause(&e).unwrap();
    let e = ctx(BOB, rent_total(&e, &c, "bob"), 1);
    assert!(matches!(
        c.rent_sub_account(&e, acc(TLA), "bob".to_string(), None),
        Err(ContractError::Paused)
    ));
}

#[test]
fn sub_accounts_page_and_carry_their_name_and_tla() {
    let (mut c, _) = deploy_with_open_tla();
    rent_alice_sub(&mut c, "alice");
    let e = rent_alice_sub(&mut c, "bob");
    let page = full_names(c.list_sub_accounts(&e, 0, 10));
    assert_eq!(page.len(), 2);
    assert!(page.contains(&format!("alice.{TLA}")));
    assert!(page.contains(&format!("bob.{TLA}")));
}

#[test]
fn sub_account_paging_respects_offset_and_limit() {
    let (mut c, _) = deploy_with_open_tla();
    rent_alice_sub(&mut c, "alice");
    let e = rent_alice_sub(&mut c, "bob");
    assert_eq!(c.list_sub_accounts(&e, 0, 1).len(), 1);
    assert_eq!(c.list_sub_accounts(&e, 1, 10).len(), 1);
    assert_eq!(c.list_sub_accounts(&e, 2, 10).len(), 0);
}

#[test]
fn tokens_are_enumerable_by_owner() {
    let (mut c, _) = deploy_with_open_tla();
    rent_alice_sub(&mut c, "alice");
    rent_alice_sub(&mut c, "bob");
    assert_eq!(c.nft_total_supply(), 2);
    assert_eq!(c.nft_supply_for_owner(acc(ALICE)), 2);
    let held = c.nft_tokens_for_owner(acc(ALICE), None, None);
    assert_eq!(held.len(), 2);
    assert!(held.iter().all(|t| t.owner_id == acc(ALICE)));
}

#[test]
fn token_enumeration_respects_offset_and_limit() {
    let (mut c, _) = deploy_with_open_tla();
    rent_alice_sub(&mut c, "alice");
    rent_alice_sub(&mut c, "bob");
    assert_eq!(c.nft_tokens(None, Some(1)).len(), 1);
    assert_eq!(c.nft_tokens(Some(1), Some(10)).len(), 1);
    assert_eq!(c.nft_tokens(Some(2), Some(10)).len(), 0);
}

#[test]
fn token_enumeration_refuses_an_unbounded_scan() {
    let (mut c, _) = deploy_with_open_tla();
    for i in 0..3 {
        rent_alice_sub(&mut c, &format!("name{i}"));
    }
    assert_eq!(
        c.nft_tokens(None, Some(u64::MAX)).len(),
        3,
        "an oversized limit is clamped, not honoured"
    );
    assert_eq!(
        c.nft_tokens_for_owner(acc(ALICE), None, Some(u64::MAX))
            .len(),
        3
    );
}

#[test]
fn the_collection_answers_nep177_from_the_moment_it_exists() {
    let (c, _) = deploy_with_open_tla();
    let meta = c.nft_metadata();
    assert_eq!(
        meta.spec, NFT_SPEC,
        "a wallet that validates the spec must accept it"
    );
    assert!(!meta.name.is_empty(), "a nameless collection is skipped");
    assert!(!meta.symbol.is_empty());
}

#[test]
fn admin_branding_replaces_the_placeholder() {
    let (mut c, _) = deploy_with_open_tla();
    let e = ctx(ADMIN, 1, 1);
    c.admin_set_nft_metadata(
        &e,
        "collection".to_string(),
        "sym".to_string(),
        None,
        None,
        None,
    )
    .unwrap();
    let meta = c.nft_metadata();
    assert_eq!(meta.name, "collection");
    assert_eq!(meta.symbol, "sym");
    assert_eq!(meta.spec, NFT_SPEC, "the spec is not the admin's to change");
}

#[test]
fn every_token_carries_metadata_a_wallet_can_render() {
    let (mut c, _) = deploy_with_open_tla();
    let e = rent_alice_sub(&mut c, "alice");
    let key = format!("alice.{TLA}");

    let token = c.nft_token(key.clone()).unwrap();
    let meta = token.metadata.expect("a nameless token renders blank");
    assert_eq!(
        meta.title,
        Some(key.clone()),
        "the title is the name itself"
    );
    assert_eq!(meta.copies, Some(1), "each name is one of one");

    let extra: near_sdk::serde_json::Value =
        near_sdk::serde_json::from_str(&meta.extra.expect("lease timing travels in extra"))
            .unwrap();
    let sub = c.get_sub_account(&e, acc(TLA), "alice".to_string()).unwrap();
    assert_eq!(extra["expires_at"], sub.expires_at.to_string());

    for listed in [
        c.nft_tokens(None, None),
        c.nft_tokens_for_owner(acc(ALICE), None, None),
    ] {
        assert!(
            listed.iter().all(|t| t.metadata.is_some()),
            "enumeration must carry the same metadata a single read does"
        );
    }
}

#[test]
fn token_metadata_follows_a_renewal_rather_than_going_stale() {
    let (mut c, _) = deploy_with_open_tla();
    let e = rent_alice_sub(&mut c, "alice");
    let key = format!("alice.{TLA}");
    let before = c.nft_token(key.clone()).unwrap().metadata.unwrap().extra;
    let expires_before = c
        .get_sub_account(&e, acc(TLA), "alice".to_string())
        .unwrap()
        .expires_at;

    let rent = c
        .get_rent_price(&e, acc(TLA), "alice".to_string())
        .unwrap()
        .rent_yocto;
    let e = ctx(ALICE, rent, 2);
    let _ = c.renew_sub_account(&e, acc(TLA), "alice".to_string()).unwrap();
    let (e, ok) = ctx_callback(true);
    c.on_sub_account_renewed(
        &e,
        acc(TLA),
        "alice".to_string(),
        expires_before + ONE_YEAR_NS,
        acc(ALICE),
        rent,
        ok,
    );

    let after = c.nft_token(key).unwrap().metadata.unwrap().extra;
    assert_ne!(
        before, after,
        "expiry is derived on read, so a renewal shows up without a write"
    );
}

#[test]
fn empty_registry_pages_are_empty_not_missing() {
    let (c, e) = deploy_with_open_tla();
    assert_eq!(c.list_sub_accounts(&e, 0, 10).len(), 0);
    assert_eq!(c.nft_total_supply(), 0);
    assert!(c.nft_tokens(None, None).is_empty());
    assert!(c.nft_tokens_for_owner(acc(ALICE), None, None).is_empty());
    assert!(owned(&e, &c, ALICE).is_empty());
}

#[test]
fn a_page_carries_the_lifecycle_state_so_no_second_call_is_needed() {
    let (mut c, _) = deploy_with_open_tla();
    let e = rent_alice_sub(&mut c, "alice");
    let page = c.list_sub_accounts(&e, 0, 10);
    assert_eq!(page[0].sub_account.full_name, acc_key("alice"));
    assert_eq!(page[0].sub_account.owner, acc(ALICE));
    assert!(page[0].retraction_at.is_none());
}

#[test]
fn renting_indexes_the_name_under_its_owner() {
    let (mut c, _) = deploy_with_open_tla();
    let e = rent_alice_sub(&mut c, "alice");
    assert_eq!(owned(&e, &c, ALICE), vec![format!("alice.{TLA}")]);
    assert!(owned(&e, &c, BOB).is_empty());
}

#[test]
fn a_sponsored_rent_indexes_the_named_owner_not_the_payer() {
    let (mut c, e) = deploy_with_open_tla();
    let creation = c.get_fee_config().account_creation_deposit_yocto;
    let rent = c
        .get_rent_price(&e, acc(TLA), "alice".to_string())
        .unwrap()
        .rent_yocto;
    let e = ctx(ADMIN, 1, 1);
    c.add_payment_authority(&e, acc(BOB)).unwrap();
    c.bind_payment_authority_tla(&e, acc(BOB), acc(TLA), 50)
        .unwrap();
    let e = ctx(BOB, creation, 1);
    let _ = c
        .rent_sub_account_paid(
            &e,
            acc(TLA),
            "alice".to_string(),
            acc(ALICE),
            acc(ALICE),
            "ord-paid-alice".to_string(),
        )
        .unwrap();
    c.on_sub_account_created_paid(
        &e,
        settled("alice", ALICE, BOB, rent, creation),
        Ok(MintOutcome::Active),
    ).unwrap();
    assert_eq!(owned(&e, &c, ALICE), vec![format!("alice.{TLA}")]);
    assert!(owned(&e, &c, BOB).is_empty());
}

#[test]
fn a_failed_mint_leaves_nothing_in_the_index() {
    let (mut c, _) = deploy_with_open_tla();
    let rent = rent_near_open(&c, "alice");
    let deposit = c.get_fee_config().account_creation_deposit_yocto;
    let total = rent + deposit;
    let e = ctx(ALICE, total, 1);
    let _ = c
        .rent_sub_account(&e, acc(TLA), "alice".to_string(), None)
        .unwrap();
    let (e, _) = ctx_callback(true);
    c.on_sub_account_created(
        &e,
        settled("alice", ALICE, ALICE, rent, total),
        Ok(MintOutcome::CreationFailed),
    ).unwrap();
    assert!(owned(&e, &c, ALICE).is_empty());
}

#[test]
fn reclaiming_a_name_drops_it_from_the_index() {
    let (mut c, _) = deploy_with_open_tla();
    rent_alice_sub(&mut c, "alice");
    let (e, _) = ctx_callback(true);
    c.on_reclaim_finalized(&e, acc(TLA), "alice".to_string(), acc(ALICE), Ok(true));
    assert!(owned(&e, &c, ALICE).is_empty());
    assert!(c.list_sub_accounts(&e, 0, 10).is_empty());
}

#[test]
fn transferring_moves_the_name_between_owners() {
    let (mut c, _) = deploy_with_open_tla();
    rent_alice_sub(&mut c, "alice");
    let e = ctx(ALICE, 0, 2);
    c.on_sub_account_transferred(
        &e,
        acc(TLA),
        "alice".to_string(),
        acc(ALICE),
        acc(BOB),
        RotationCause::Transfer,
        Ok(true),
    );
    assert!(owned(&e, &c, ALICE).is_empty());
    assert_eq!(owned(&e, &c, BOB), vec![format!("alice.{TLA}")]);
}

#[test]
fn a_failed_transfer_leaves_the_index_with_the_original_owner() {
    let (mut c, _) = deploy_with_open_tla();
    rent_alice_sub(&mut c, "alice");
    let e = ctx(ALICE, 0, 2);
    c.on_sub_account_transferred(
        &e,
        acc(TLA),
        "alice".to_string(),
        acc(ALICE),
        acc(BOB),
        RotationCause::Transfer,
        Ok(false),
    );
    assert_eq!(owned(&e, &c, ALICE), vec![format!("alice.{TLA}")]);
    assert!(owned(&e, &c, BOB).is_empty());
}

#[test]
fn recovering_moves_the_name_between_owners() {
    let (mut c, _) = deploy_with_open_tla();
    rent_alice_sub(&mut c, "alice");
    let e = ctx(CAROL, 0, 2);
    c.on_sub_account_recovered(
        &e,
        acc(TLA),
        "alice".to_string(),
        acc(ALICE),
        acc(BOB),
        Ok(true),
    );
    assert!(owned(&e, &c, ALICE).is_empty());
    assert_eq!(owned(&e, &c, BOB), vec![format!("alice.{TLA}")]);
}

#[test]
fn a_settled_nft_transfer_moves_the_name_to_the_buyer() {
    let (mut c, _) = deploy_with_open_tla();
    rent_alice_sub(&mut c, "alice");
    let (e, _) = ctx_callback(true);
    c.nft_on_rotation_resolved(
        &e,
        NftRotation {
            tla_id: acc(TLA),
            name: "alice".to_string(),
            from: acc(ALICE),
            to: acc(BOB),
            memo: None,
            cause: RotationCause::Transfer,
        },
        Ok(true),
    ).unwrap();
    assert!(owned(&e, &c, ALICE).is_empty());
    assert_eq!(owned(&e, &c, BOB), vec![format!("alice.{TLA}")]);
    assert_eq!(
        c.nft_token(format!("alice.{TLA}")).unwrap().owner_id,
        acc(BOB)
    );
}

#[test]
fn owner_paging_respects_offset_and_limit() {
    let (mut c, _) = deploy_with_open_tla();
    rent_alice_sub(&mut c, "alice");
    rent_alice_sub(&mut c, "bob");
    let e = rent_alice_sub(&mut c, "carol");
    assert_eq!(c.list_sub_accounts_by_owner(&e, acc(ALICE), 0, 2).len(), 2);
    assert_eq!(c.list_sub_accounts_by_owner(&e, acc(ALICE), 2, 10).len(), 1);
    assert_eq!(c.list_sub_accounts_by_owner(&e, acc(ALICE), 3, 10).len(), 0);
}

#[test]
fn an_owner_with_no_names_pages_empty() {
    let (c, e) = deploy_with_open_tla();
    assert!(c.list_sub_accounts_by_owner(&e, acc(BOB), 0, 10).is_empty());
}

#[test]
fn activity_records_newest_first() {
    let (mut c, _) = deploy_with_open_tla();
    rent_alice_sub(&mut c, "alice");
    settle_transfer(&mut c, "alice", ALICE, BOB);
    let feed = c.list_recent_activity(0, 10, None);
    assert_eq!(feed[0].event.label(), "sub_account_transferred");
    assert_eq!(feed[0].account, acc_key("alice"));
    assert_eq!(feed[1].event.label(), "sub_account_rented");
}

#[test]
fn activity_paging_respects_offset_and_limit() {
    let (mut c, _) = deploy_with_open_tla();
    rent_alice_sub(&mut c, "alice");
    settle_transfer(&mut c, "alice", ALICE, BOB);
    assert_eq!(c.list_recent_activity(0, 1, None).len(), 1);
    assert_eq!(c.list_recent_activity(1, 10, None).len(), 1);
    assert_eq!(c.list_recent_activity(2, 10, None).len(), 0);
}

#[test]
fn an_untouched_registry_has_an_empty_feed() {
    let (c, _) = deploy_with_open_tla();
    assert!(c.list_recent_activity(0, 10, None).is_empty());
}

#[test]
fn a_scoped_feed_returns_a_full_page_for_that_account() {
    let (mut c, _) = deploy_with_open_tla();
    rent_alice_sub(&mut c, "alice");
    rent_alice_sub(&mut c, "bob");
    let e = settle_transfer(&mut c, "alice", ALICE, BOB);
    let alice = format!("alice.{TLA}");
    let scoped = c.list_recent_activity(0, 10, Some(alice.clone()));
    assert_eq!(scoped.len(), 2, "both of alice's events, none of bob's");
    assert!(scoped.iter().all(|e| e.account.text() == alice));
    assert_eq!(
        c.list_recent_activity(0, 1, Some(alice)).len(),
        1,
        "the limit applies after filtering, so a page is never short"
    );
}

#[test]
fn a_scoped_feed_for_an_unknown_account_is_empty() {
    let (mut c, _) = deploy_with_open_tla();
    rent_alice_sub(&mut c, "alice");
    assert!(c
        .list_recent_activity(0, 10, Some("nobody.near".to_string()))
        .is_empty());
}

#[test]
fn the_feed_wraps_and_keeps_the_newest_entries() {
    let (mut c, _) = deploy_with_open_tla();
    rent_alice_sub(&mut c, "alice");
    for i in 0..ACTIVITY_CAPACITY + 5 {
        let (from, to) = if i % 2 == 0 {
            (ALICE, BOB)
        } else {
            (BOB, ALICE)
        };
        let e = settle_transfer(&mut c, "alice", from, to);
    }
    let feed = c.list_recent_activity(0, ACTIVITY_CAPACITY as u64 + 50, None);
    assert_eq!(
        feed.len(),
        ACTIVITY_CAPACITY as usize,
        "the buffer stays bounded"
    );
    assert_eq!(
        feed[0].event.label(), "sub_account_transferred",
        "the newest entry survives the wrap"
    );
    assert!(
        !feed.iter().any(|e| e.event.label() == "sub_account_rented"),
        "the oldest entry is overwritten once the buffer wraps"
    );
}

#[test]
fn names_are_indexed_under_their_namespace() {
    let (mut c, _) = deploy_with_open_tla();
    rent_alice_sub(&mut c, "alice");
    let e = rent_alice_sub(&mut c, "bob");
    let page = full_names(c.list_sub_accounts_by_tla(&e, acc(TLA), 0, 10));
    assert_eq!(page.len(), 2);
    assert!(page.contains(&format!("alice.{TLA}")));
}

#[test]
fn a_transfer_leaves_the_namespace_index_alone() {
    let (mut c, _) = deploy_with_open_tla();
    rent_alice_sub(&mut c, "alice");
    let e = ctx(ALICE, 0, 2);
    c.on_sub_account_transferred(
        &e,
        acc(TLA),
        "alice".to_string(),
        acc(ALICE),
        acc(BOB),
        RotationCause::Transfer,
        Ok(true),
    );
    assert_eq!(
        full_names(c.list_sub_accounts_by_tla(&e, acc(TLA), 0, 10)),
        vec![format!("alice.{TLA}")],
        "a name never leaves its namespace, only its owner changes"
    );
}

#[test]
fn reclaiming_drops_the_name_from_the_namespace_index() {
    let (mut c, _) = deploy_with_open_tla();
    rent_alice_sub(&mut c, "alice");
    let (e, _) = ctx_callback(true);
    c.on_reclaim_finalized(&e, acc(TLA), "alice".to_string(), acc(ALICE), Ok(true));
    assert!(c.list_sub_accounts_by_tla(&e, acc(TLA), 0, 10).is_empty());
}

#[test]
fn namespace_paging_respects_offset_and_limit() {
    let (mut c, _) = deploy_with_open_tla();
    rent_alice_sub(&mut c, "alice");
    let e = rent_alice_sub(&mut c, "bob");
    assert_eq!(c.list_sub_accounts_by_tla(&e, acc(TLA), 0, 1).len(), 1);
    assert_eq!(c.list_sub_accounts_by_tla(&e, acc(TLA), 2, 10).len(), 0);
}

#[test]
fn the_council_can_ship_code_without_any_key_on_the_account() {
    let (mut c, _) = deploy();
    let e = ctx(COUNCIL, 1, 0);
    c.approve_upgrade(&e, hash()).unwrap();
    assert_eq!(c.approved_upgrade_hash(), Some(hash()));
    let e = ctx(COUNCIL, 1, UPGRADE_DELAY_NS + 1);
    assert!(c.upgrade(&e, code()).is_ok());
    assert_eq!(c.approved_upgrade_hash(), None, "an approval is spent once");
}

#[test]
fn nobody_but_the_council_may_approve() {
    let (mut c, _) = deploy();
    let e = ctx(ALICE, 1, 0);
    assert!(matches!(
        c.approve_upgrade(&e, hash()),
        Err(ContractError::OnlyCouncil)
    ));
}

#[test]
fn code_that_does_not_match_the_approval_is_refused() {
    let (mut c, _) = deploy();
    let e = ctx(COUNCIL, 1, 0);
    c.approve_upgrade(&e, hash()).unwrap();
    let e = ctx(COUNCIL, 1, UPGRADE_DELAY_NS + 1);
    assert!(matches!(
        c.upgrade(&e, vec![9u8; 32]),
        Err(ContractError::HashMismatch)
    ));
}

#[test]
fn an_approval_must_serve_the_delay() {
    let (mut c, _) = deploy();
    let e = ctx(COUNCIL, 1, 0);
    c.approve_upgrade(&e, hash()).unwrap();
    let e = ctx(COUNCIL, 1, UPGRADE_DELAY_NS - 1);
    assert!(matches!(
        c.upgrade(&e, code()),
        Err(ContractError::ApprovalTooYoung)
    ));
}

#[test]
fn upgrading_without_an_approval_is_refused() {
    let (mut c, _) = deploy();
    let e = ctx(COUNCIL, 1, UPGRADE_DELAY_NS + 1);
    assert!(matches!(
        c.upgrade(&e, code()),
        Err(ContractError::NoApprovedHash)
    ));
}

#[test]
fn sealing_the_registry_is_refused_until_an_upgrade_has_run() {
    let (mut c, _) = deploy();
    let e = ctx(COUNCIL, 1, 0);
    assert!(matches!(
        c.seal(&e, a_key()),
        Err(ContractError::UpgradeNotProven)
    ));
}

#[test]
fn a_council_that_cannot_call_cannot_remove_the_key() {
    let (mut c, _) = deploy();
    let e = ctx(BOB, 1, 0);
    assert!(matches!(c.seal(&e, a_key()), Err(ContractError::OnlyCouncil)));
}

#[test]
fn releasing_revenue_needs_a_full_access_signature() {
    let (mut c, _) = deploy();
    let e = ctx(COUNCIL, 0, 0);
    assert!(matches!(
        c.withdraw(&e, 1),
        Err(ContractError::RequiresOneYocto)
    ));
}

#[test]
fn granting_the_recovery_role_needs_a_full_access_signature() {
    let (mut c, _) = deploy();
    let e = ctx(COUNCIL, 0, 0);
    assert!(matches!(
        c.add_recovery_authority(&e, acc(BOB)),
        Err(ContractError::RequiresOneYocto)
    ));
}

#[test]
fn adding_an_admin_needs_a_full_access_signature() {
    let (mut c, _) = deploy();
    let e = ctx(COUNCIL, 0, 0);
    assert!(matches!(
        c.add_admin(&e, acc(BOB)),
        Err(ContractError::RequiresOneYocto)
    ));
}

#[test]
fn changing_fees_needs_a_full_access_signature() {
    let (mut c, _) = deploy();
    let config = c.get_fee_config();
    let e = ctx(COUNCIL, 0, 0);
    assert!(matches!(
        c.update_fee_config(&e, config),
        Err(ContractError::RequiresOneYocto)
    ));
}

#[test]
fn sealing_the_registry_needs_a_full_access_signature() {
    let (mut c, _) = deploy();
    let e = ctx(COUNCIL, 0, 0);
    assert!(matches!(
        c.seal(&e, a_key()),
        Err(ContractError::RequiresOneYocto)
    ));
}

#[test]
fn seeding_the_rate_needs_a_full_access_signature() {
    let (mut c, _) = deploy();
    let e = ctx(COUNCIL, 0, 0);
    assert!(matches!(
        c.admin_set_initial_rate(&e, NEAR_USD_MICRO),
        Err(ContractError::RequiresOneYocto)
    ));
}

#[test]
fn rotating_the_price_oracle_needs_a_full_access_signature() {
    let (mut c, _) = deploy();
    let e = ctx(COUNCIL, 0, 0);
    assert!(matches!(
        c.set_price_oracle(&e, acc(BOB)),
        Err(ContractError::RequiresOneYocto)
    ));
}

#[test]
fn widening_the_asset_gate_needs_a_full_access_signature() {
    let (mut c, _) = deploy();
    let e = ctx(ADMIN, 0, 0);
    assert!(matches!(
        c.add_ft_allowlist(&e, acc("token.testnet")),
        Err(ContractError::RequiresOneYocto)
    ));
}

#[test]
fn narrowing_the_asset_gate_needs_a_full_access_signature() {
    let (mut c, _) = deploy();
    let e = ctx(ADMIN, 0, 0);
    assert!(matches!(
        c.remove_ft_allowlist(&e, acc("token.testnet")),
        Err(ContractError::RequiresOneYocto)
    ));
}

#[test]
fn opening_a_tla_needs_a_full_access_signature() {
    let (mut c, _) = deploy();
    let e = ctx(ADMIN, 0, 0);
    assert!(matches!(
        c.activate_open_tla(&e, acc(TLA)),
        Err(ContractError::RequiresOneYocto)
    ));
}

#[test]
fn clearing_a_stuck_reclaim_needs_a_full_access_signature() {
    let (mut c, _) = deploy();
    let e = ctx(ADMIN, 0, 0);
    assert!(matches!(
        c.admin_clear_reclaim_pending(&e, acc(TLA), "alice".to_string()),
        Err(ContractError::RequiresOneYocto)
    ));
}

#[test]
fn omitting_the_lease_term_takes_the_production_year() {
    let (c, _) = deploy_with_terms(None, GRACE_NS);
    assert_eq!(c.lease_term_ns, ONE_YEAR_NS);
}

#[test]
fn a_test_grade_lease_reports_the_deployment_not_ready() {
    let (c, e) = deploy_with_terms(Some(MINUTE_NS), GRACE_NS);
    let readiness = c.deployment_readiness(&e);
    assert!(
        !readiness.production_terms,
        "a one minute lease must not pass as production"
    );
    assert!(
        !readiness.ready,
        "a deployment carrying test-grade terms must never report ready"
    );
}

#[test]
fn a_test_grade_grace_reports_the_deployment_not_ready() {
    let (c, e) = deploy_with_terms(None, MINUTE_NS);
    assert!(
        !c.deployment_readiness(&e).production_terms,
        "a one minute grace must not pass as production"
    );
}

#[test]
fn production_terms_pass_when_both_meet_the_real_thresholds() {
    let (c, e) = deploy_with_terms(Some(ONE_YEAR_NS), 30 * 24 * 60 * 60 * 1_000_000_000);
    assert!(
        c.deployment_readiness(&e).production_terms,
        "a year lease and a thirty day grace are production grade"
    );
}

#[test]
fn a_stranger_cannot_sweep_during_the_grace_period() {
    let (mut c, _) = deploy_with_open_tla();
    let e = rent_alice_sub(&mut c, "alice");
    let expires = c
        .get_sub_account(&e, acc(TLA), "alice".to_string())
        .unwrap()
        .expires_at;
    let e = ctx(BOB, 1, expires + 1);
    assert!(
        matches!(
            c.reclaim_sweep_near(&e, acc(TLA), "alice".to_string()),
            Err(ContractError::SubAccountNotReclaimable)
        ),
        "a holder who can still renew must not have their balance swept by a stranger"
    );
}

#[test]
fn the_sweep_opens_once_the_name_is_actually_reclaimable() {
    let (mut c, _) = deploy_with_open_tla();
    let e = rent_alice_sub(&mut c, "alice");
    let expires = c
        .get_sub_account(&e, acc(TLA), "alice".to_string())
        .unwrap()
        .expires_at;
    let e = ctx(BOB, 1, expires + GRACE_NS + DAY_NS);
    assert!(c.reclaim_sweep_near(&e, acc(TLA), "alice".to_string()).is_ok());
}

#[test]
fn a_delisted_token_can_leave_the_sweepable_set() {
    let (mut c, _) = deploy_with_open_tla();
    let token = acc("usdc.testnet");
    let e = ctx(ADMIN, 1, 1);
    c.add_ft_allowlist(&e, token.clone()).unwrap();
    c.remove_ft_allowlist(&e, token.clone()).unwrap();
    let e = ctx(COUNCIL, 1, 1);
    assert!(c.remove_sweepable_token(&e, token.clone()).is_ok());
    let e = ctx(ADMIN, 1, 1);
    assert!(
        c.add_ft_allowlist(&e, token).is_ok(),
        "the balance gate must be reconfigurable after churn"
    );
}

#[test]
fn a_token_still_on_the_gate_cannot_be_made_unsweepable() {
    let (mut c, _) = deploy_with_open_tla();
    let token = acc("usdc.testnet");
    let e = ctx(ADMIN, 1, 1);
    c.add_ft_allowlist(&e, token.clone()).unwrap();
    let e = ctx(COUNCIL, 1, 1);
    assert!(matches!(
        c.remove_sweepable_token(&e, token),
        Err(ContractError::TokenStillAllowlisted)
    ));
}

#[test]
fn the_council_can_shorten_the_lease_term_for_testing() {
    let (mut c, _) = deploy_with_open_tla();
    let e = ctx(COUNCIL, 1, 1);
    assert!(c.set_lease_term_ns(&e, 300 * 1_000_000_000).is_ok());
    assert_eq!(c.lease_term_ns, 300 * 1_000_000_000);
}

#[test]
fn a_shortened_term_applies_to_the_next_rental_only() {
    let (mut c, _) = deploy_with_open_tla();
    rent_alice_sub(&mut c, "before");
    let old = c
        .sub_accounts
        .get(&acc(&format!("before.{TLA}")))
        .unwrap()
        .expires_at;
    let e = ctx(COUNCIL, 1, 1);
    c.set_lease_term_ns(&e, 60 * 1_000_000_000).unwrap();
    rent_alice_sub(&mut c, "after");
    let new = c
        .sub_accounts
        .get(&acc(&format!("after.{TLA}")))
        .unwrap()
        .expires_at;
    assert!(
        new < old,
        "the new rental must expire far sooner than the old one"
    );
    assert_eq!(
        c.sub_accounts
            .get(&acc(&format!("before.{TLA}")))
            .unwrap()
            .expires_at,
        old,
        "an existing name keeps the expiry it was rented with"
    );
}

#[test]
fn only_the_council_may_change_the_lease_term() {
    let (mut c, _) = deploy_with_open_tla();
    let before = c.lease_term_ns;
    let e = ctx(ALICE, 1, 1);
    assert!(matches!(
        c.set_lease_term_ns(&e, 300 * 1_000_000_000),
        Err(ContractError::OnlyCouncil)
    ));
    assert_eq!(
        c.lease_term_ns, before,
        "a refused call must not change the term"
    );
}

#[test]
fn a_lease_term_outside_the_bounds_is_refused() {
    let (mut c, _) = deploy_with_open_tla();
    let e = ctx(COUNCIL, 1, 1);
    assert!(matches!(
        c.set_lease_term_ns(&e, 59 * 1_000_000_000),
        Err(ContractError::LeaseTermTooShort)
    ));
    assert!(matches!(
        c.set_lease_term_ns(&e, 11 * ONE_YEAR_NS),
        Err(ContractError::LeaseTermTooLong)
    ));
    assert!(c.set_lease_term_ns(&e, 60 * 1_000_000_000).is_ok());
    assert!(c.set_lease_term_ns(&e, 10 * ONE_YEAR_NS).is_ok());
}

#[test]
fn the_owner_index_does_not_keep_an_empty_set_forever() {
    let (mut c, _) = deploy_with_open_tla();
    rent_alice_sub(&mut c, "alice");
    let key = acc_key("alice");
    assert!(c.sub_accounts_by_owner.get(&acc(ALICE)).is_some());
    c.sub_account_remove(&key);
    assert!(
        !c.sub_accounts_by_owner.get(&acc(ALICE)).is_some(),
        "an emptied owner set must leave the outer map, or storage grows with every holder"
    );
}

#[test]
fn an_orphaned_name_can_be_parked_back_onto_the_re_rent_path() {
    let (mut c, _) = deploy_with_open_tla();
    let e = ctx(ADMIN, 1, 1);
    assert!(c.admin_force_park(&e, acc(TLA), "orphan".to_string()).is_ok());
    assert!(
        c.is_name_re_rentable(acc(TLA), "orphan".to_string()),
        "a name whose account exists but whose row was dropped must be re-rentable"
    );
}

#[test]
fn force_park_refuses_a_name_that_is_still_held() {
    let (mut c, _) = deploy_with_open_tla();
    rent_alice_sub(&mut c, "alice");
    let e = ctx(ADMIN, 1, 1);
    assert!(matches!(
        c.admin_force_park(&e, acc(TLA), "alice".to_string()),
        Err(ContractError::SubAccountNameTaken)
    ));
}

#[test]
fn force_park_refuses_an_unknown_tla() {
    let (mut c, _) = deploy_with_open_tla();
    let e = ctx(ADMIN, 1, 1);
    assert!(matches!(
        c.admin_force_park(&e, acc("nosuch.testnet"), "orphan".to_string()),
        Err(ContractError::TlaNotFound)
    ));
}

#[test]
fn a_parked_name_that_still_holds_other_names_cannot_be_re_rented() {
    let (mut c, _) = deploy_with_open_tla();
    rent_alice_sub(&mut c, "acme");
    let holder = acc_key("acme");
    let held = acc_key("invoices");
    c.sub_account_insert(
        held,
        SubAccountEntry {
            owner: holder.clone(),
            tla_id: acc(TLA),
            payout_account: holder.clone(),
            rented_at: 1,
            expires_at: GRACE_NS,
            retraction_at: None,
        },
    );
    let e = ctx(ADMIN, 1, 2);
    c.sub_account_remove(&acc(&format!("acme.{TLA}")));
    assert!(c.admin_force_park(&e, acc(TLA), "acme".to_string()).is_ok());
    assert!(
        !c.is_name_re_rentable(acc(TLA), "acme".to_string()),
        "the view has to agree with the balance gate or the checkout offers a name it cannot sell"
    );

    let rent = rent_near_open(&c, "acme");
    let e = ctx(BOB, rent, 2);
    assert!(
        matches!(
            c.rent_sub_account(&e, acc(TLA), "acme".to_string(), None),
            Err(ContractError::NameStillHoldsNames)
        ),
        "re-renting a name that owns other names would hand the buyer everything it holds"
    );
}

#[test]
fn a_parked_name_holding_nothing_re_rents_as_before() {
    let (mut c, _) = deploy_with_open_tla();
    rent_alice_sub(&mut c, "acme");
    let e = ctx(ADMIN, 1, 2);
    c.sub_account_remove(&acc(&format!("acme.{TLA}")));
    assert!(c.admin_force_park(&e, acc(TLA), "acme".to_string()).is_ok());
    assert!(c.is_name_re_rentable(acc(TLA), "acme".to_string()));
}

#[test]
fn a_rotation_that_lands_after_the_name_moved_leaves_it_where_it_is() {
    let (mut c, _) = deploy_with_open_tla();
    rent_alice_sub(&mut c, "alice");
    let key = acc_key("alice");
    assert!(c.sub_account_reassign(&key, &acc(CAROL), &acc(CAROL)));
    let e = ctx("registry.testnet", 0, 2);
    c.on_sub_account_transferred(
        &e,
        acc(TLA),
        "alice".to_string(),
        acc(ALICE),
        acc(BOB),
        RotationCause::Transfer,
        Ok(true),
    );
    assert_eq!(
        c.get_sub_account(&e, acc(TLA), "alice".to_string())
            .unwrap()
            .owner,
        acc(CAROL),
        "a transfer approved against an owner who has since moved on must not \
         overwrite whoever holds the name now"
    );
}

#[test]
fn a_recovery_that_lands_after_the_name_moved_leaves_it_where_it_is() {
    let (mut c, _) = deploy_with_open_tla();
    rent_alice_sub(&mut c, "alice");
    let key = acc_key("alice");
    assert!(c.sub_account_reassign(&key, &acc(CAROL), &acc(CAROL)));
    let e = ctx("registry.testnet", 0, 2);
    c.on_sub_account_recovered(
        &e,
        acc(TLA),
        "alice".to_string(),
        acc(ALICE),
        acc(BOB),
        Ok(true),
    );
    assert_eq!(
        c.get_sub_account(&e, acc(TLA), "alice".to_string())
            .unwrap()
            .owner,
        acc(CAROL),
        "the wallet and the ledger must agree on who the name left, or a sale \
         racing a recovery splits them"
    );
}

#[test]
fn a_holders_supply_does_not_walk_their_whole_key_set() {
    let (mut c, _) = deploy_with_open_tla();
    for name in ["one", "two", "three"] {
        rent_alice_sub(&mut c, name);
    }
    assert_eq!(c.nft_supply_for_owner(acc(ALICE)), 3);
    c.sub_account_remove(&acc(&format!("two.{TLA}")));
    assert_eq!(
        c.nft_supply_for_owner(acc(ALICE)),
        2,
        "the set carries its own length, and removal must be reflected in it"
    );
    c.sub_account_remove(&acc(&format!("one.{TLA}")));
    c.sub_account_remove(&acc(&format!("three.{TLA}")));
    assert_eq!(
        c.nft_supply_for_owner(acc(ALICE)),
        0,
        "an owner whose set was dropped reports nothing, not a stale count"
    );
}

#[test]
fn a_rotation_installs_the_new_council_once_the_delay_has_run() {
    let (mut c, _) = deploy();
    let delay = c.upgrade_delay_ns;
    let e = ctx(COUNCIL, 1, 0);
    c.approve_council_rotation(&e, acc(NEW_COUNCIL)).unwrap();
    assert_eq!(c.pending_council(), Some((acc(NEW_COUNCIL), 0)));
    let e = ctx(NEW_COUNCIL, 1, delay);
    c.commit_council_rotation(&e).unwrap();
    assert_eq!(c.get_council(), acc(NEW_COUNCIL));
    assert!(c.pending_council().is_none());
}

#[test]
fn the_outgoing_council_cannot_seat_an_account_that_never_signed() {
    let (mut c, _) = deploy();
    let delay = c.upgrade_delay_ns;
    let e = ctx(COUNCIL, 1, 0);
    c.approve_council_rotation(&e, acc(NEW_COUNCIL)).unwrap();
    let e = ctx(COUNCIL, 1, delay);
    assert!(
        matches!(
            c.commit_council_rotation(&e),
            Err(ContractError::OnlyPendingCouncil)
        ),
        "a mistyped council must cost a cancelled rotation, not the contract"
    );
    assert_eq!(c.get_council(), acc(COUNCIL));
}

#[test]
fn a_rotation_cannot_commit_inside_its_delay() {
    let (mut c, _) = deploy();
    let delay = c.upgrade_delay_ns;
    let e = ctx(COUNCIL, 1, 0);
    c.approve_council_rotation(&e, acc(NEW_COUNCIL)).unwrap();
    let e = ctx(NEW_COUNCIL, 1, delay - 1);
    assert!(
        matches!(
            c.commit_council_rotation(&e),
            Err(ContractError::CouncilRotationTooYoung)
        ),
        "the window is what lets anyone watching object before the door moves"
    );
    assert_eq!(c.get_council(), acc(COUNCIL));
}

#[test]
fn an_approval_can_be_withdrawn_before_it_commits() {
    let (mut c, _) = deploy();
    let delay = c.upgrade_delay_ns;
    let e = ctx(COUNCIL, 1, 0);
    c.approve_council_rotation(&e, acc(NEW_COUNCIL)).unwrap();
    let e = ctx(COUNCIL, 1, 1);
    c.cancel_council_rotation(&e).unwrap();
    assert!(c.pending_council().is_none());
    let e = ctx(COUNCIL, 1, delay);
    assert!(matches!(
        c.commit_council_rotation(&e),
        Err(ContractError::NoCouncilRotationPending)
    ));
    assert_eq!(c.get_council(), acc(COUNCIL));
}

#[test]
fn only_the_council_can_move_the_council() {
    let (mut c, _) = deploy();
    let e = ctx(BOB, 1, 0);
    assert!(matches!(
        c.approve_council_rotation(&e, acc(NEW_COUNCIL)),
        Err(ContractError::OnlyCouncil)
    ));
    let e = ctx(COUNCIL, 1, 0);
    c.approve_council_rotation(&e, acc(NEW_COUNCIL)).unwrap();
    let e = ctx(BOB, 1, 1);
    assert!(matches!(
        c.cancel_council_rotation(&e),
        Err(ContractError::OnlyCouncil)
    ));
    let e = ctx(BOB, 1, c.upgrade_delay_ns);
    assert!(matches!(
        c.commit_council_rotation(&e),
        Err(ContractError::OnlyPendingCouncil)
    ));
}

#[test]
fn the_rotation_refuses_a_council_that_would_end_the_gate() {
    let (mut c, _) = deploy();
    let e = ctx(COUNCIL, 1, 0);
    assert!(matches!(
        c.approve_council_rotation(&e, acc(COUNCIL)),
        Err(ContractError::CouncilUnchanged)
    ));
    let e = ctx(COUNCIL, 1, 0);
    assert!(
        matches!(
            c.approve_council_rotation(&e, acc("registry.testnet")),
            Err(ContractError::CouncilIsSelf)
        ),
        "this account ends with no keys, so naming it council closes every gate for good"
    );
}

#[test]
fn moving_the_council_takes_a_full_access_signature() {
    let (mut c, _) = deploy();
    let e = ctx(COUNCIL, 0, 0);
    assert!(matches!(
        c.approve_council_rotation(&e, acc(NEW_COUNCIL)),
        Err(ContractError::RequiresOneYocto)
    ));
}

#[test]
fn the_new_council_gates_what_the_old_one_used_to() {
    let (mut c, _) = deploy();
    let delay = c.upgrade_delay_ns;
    let e = ctx(COUNCIL, 1, 0);
    c.approve_council_rotation(&e, acc(NEW_COUNCIL)).unwrap();
    let e = ctx(NEW_COUNCIL, 1, delay);
    c.commit_council_rotation(&e).unwrap();

    let e = ctx(COUNCIL, 1, delay);
    assert!(
        matches!(
            c.register_tla(&e, acc("gone"), TlaType::Open, PremiumCategory::Standard, None),
            Err(ContractError::OnlyCouncil)
        ),
        "the outgoing council must lose the door it handed over"
    );
    let e = ctx(NEW_COUNCIL, 1, delay);
    assert!(c
        .register_tla(&e, acc("held"), TlaType::Open, PremiumCategory::Standard, None)
        .is_ok());
}

#[test]
fn a_parked_name_can_still_have_its_balance_swept() {
    let (mut c, _) = deploy_with_open_tla();
    let e = rent_alice_sub(&mut c, "alice");
    let key = acc_key("alice");
    let expires = c
        .get_sub_account(&e, acc(TLA), "alice".to_string())
        .unwrap()
        .expires_at;
    let e = ctx(BOB, 1, expires + GRACE_NS + DAY_NS);
    let _ = c.reclaim_finalize(&e, acc(TLA), "alice".to_string()).unwrap();
    let (e, _) = ctx_callback(true);
    c.on_reclaim_finalized(&e, acc(TLA), "alice".to_string(), acc(TREASURY), Ok(true));
    assert!(
        c.get_sub_account(&e, acc(TLA), "alice".to_string()).is_none(),
        "the park has to have removed the row for this to prove anything"
    );
    assert!(c.parked_names.contains_key(&key.text()));

    let e = ctx(BOB, 1, expires + GRACE_NS + DAY_NS);
    assert!(
        c.reclaim_sweep_near(&e, acc(TLA), "alice".to_string()).is_ok(),
        "a parked name keeps receiving tokens, so refusing the sweep strands \
         every balance that lands after the park"
    );
}

#[test]
fn a_name_that_is_neither_parked_nor_reclaimable_is_still_refused() {
    let (mut c, _) = deploy_with_open_tla();
    rent_alice_sub(&mut c, "alice");
    let e = ctx(BOB, 1, 2);
    assert!(
        matches!(
            c.reclaim_sweep_near(&e, acc(TLA), "alice".to_string()),
            Err(ContractError::SubAccountNotReclaimable)
        ),
        "opening the sweep to parked names must not open it to live ones"
    );
    let e = ctx(BOB, 1, 2);
    assert!(matches!(
        c.reclaim_sweep_near(&e, acc(TLA), "ghost".to_string()),
        Err(ContractError::SubAccountNotFound)
    ));
}

#[test]
fn a_lapsed_tla_serves_notice_before_it_takes_a_live_sub() {
    let (mut c, _) = deploy_with_open_tla();
    let e = rent_alice_sub(&mut c, "alice");
    let at = lapse_the_tla(&mut c);
    let key = acc_key("alice");
    assert!(
        c.get_sub_account(&e, acc(TLA), "alice".to_string())
            .unwrap()
            .expires_at
            > at,
        "the sub's own term must still be live or this proves nothing"
    );

    let e = ctx(BOB, 0, at);
    assert!(
        c.reclaim_finalize(&e, acc(TLA), "alice".to_string()).is_ok(),
        "the first call serves the notice rather than rotating"
    );
    assert!(
        c.sub_accounts.get(&key).unwrap().retraction_at.is_some(),
        "the notice has to be recorded or the wait is unenforceable"
    );

    let e = ctx(BOB, 0, at + 1);
    assert!(
        matches!(
            c.reclaim_finalize(&e, acc(TLA), "alice".to_string()),
            Err(ContractError::RetractionPending)
        ),
        "a lapsed parent must not take a paid-up name before the notice runs"
    );
}

#[test]
fn the_reclaim_completes_once_the_notice_has_run() {
    let (mut c, _) = deploy_with_open_tla();
    rent_alice_sub(&mut c, "alice");
    let at = lapse_the_tla(&mut c);
    let e = ctx(BOB, 0, at);
    let _ = c.reclaim_finalize(&e, acc(TLA), "alice".to_string()).unwrap();

    let notice = c.get_fee_config().retraction_notice_ns;
    let e = ctx(BOB, 0, at + notice);
    assert!(c.reclaim_finalize(&e, acc(TLA), "alice".to_string()).is_ok());
}

#[test]
fn an_expired_sub_is_reclaimed_without_any_extra_wait() {
    let (mut c, _) = deploy_with_open_tla();
    let e = rent_alice_sub(&mut c, "alice");
    let expires = c
        .get_sub_account(&e, acc(TLA), "alice".to_string())
        .unwrap()
        .expires_at;
    let e = ctx(BOB, 0, expires + GRACE_NS + DAY_NS);
    assert!(c.reclaim_finalize(&e, acc(TLA), "alice".to_string()).is_ok());
    let key = acc_key("alice");
    assert!(
        c.reclaim_pending.contains_key(&key),
        "a term that ran on its own must rotate on the first call"
    );
}

#[test]
fn a_cursor_page_walks_a_holders_names_without_an_offset() {
    let (mut c, _) = deploy_with_open_tla();
    for n in ["one", "two", "three", "four", "five"] {
        rent_alice_sub(&mut c, n);
    }
    let first = c
        .nft_tokens_for_owner_page(acc(ALICE), None, Some(2))
        .unwrap();
    assert_eq!(first.tokens.len(), 2);
    let cursor = first.next.expect("more names remain");

    let second = c
        .nft_tokens_for_owner_page(acc(ALICE), Some(cursor.text()), Some(2))
        .unwrap();
    assert_eq!(second.tokens.len(), 2);
    let third = c
        .nft_tokens_for_owner_page(acc(ALICE), second.next.map(|id| id.text()), Some(2))
        .unwrap();
    assert_eq!(third.tokens.len(), 1);
    assert!(third.next.is_none(), "the last page ends the walk");

    let mut seen: Vec<String> = first
        .tokens
        .iter()
        .chain(second.tokens.iter())
        .chain(third.tokens.iter())
        .map(|t| t.token_id.text())
        .collect();
    seen.sort();
    seen.dedup();
    assert_eq!(
        seen.len(),
        5,
        "every name appears exactly once across pages"
    );
}

#[test]
fn a_cursor_page_for_a_holder_with_nothing_is_empty() {
    let (c, _) = deploy_with_open_tla();
    let page = c.nft_tokens_for_owner_page(acc(BOB), None, None).unwrap();
    assert!(page.tokens.is_empty());
    assert!(page.next.is_none());
}

#[test]
fn a_cursor_naming_a_name_the_holder_no_longer_has_is_refused() {
    let (mut c, _) = deploy_with_open_tla();
    for n in ["one", "two", "three"] {
        rent_alice_sub(&mut c, n);
    }
    let first = c
        .nft_tokens_for_owner_page(acc(ALICE), None, Some(1))
        .unwrap();
    let cursor = first.next.expect("more names remain");
    assert!(
        c.nft_tokens_for_owner_page(acc(ALICE), Some(cursor.text()), Some(1))
            .is_ok(),
        "the cursor resumes while the name it points at is still held"
    );

    c.sub_account_remove(&cursor);

    let Err(err) = c.nft_tokens_for_owner_page(acc(ALICE), Some(cursor.text()), Some(1)) else {
        panic!("a cursor that no longer exists cannot silently end the walk");
    };
    assert!(matches!(err, ContractError::UnknownCursor));
}

#[test]
fn a_holder_who_moved_every_name_gets_a_refusal_rather_than_an_empty_last_page() {
    let (mut c, _) = deploy_with_open_tla();
    rent_alice_sub(&mut c, "one");
    rent_alice_sub(&mut c, "two");
    let first = c
        .nft_tokens_for_owner_page(acc(ALICE), None, Some(1))
        .unwrap();
    let cursor = first.next.expect("more names remain");

    c.sub_account_remove(&acc_key("one"));
    c.sub_account_remove(&acc_key("two"));

    let Err(err) = c.nft_tokens_for_owner_page(acc(ALICE), Some(cursor.text()), Some(1)) else {
        panic!("an emptied index must not read as the end of the walk");
    };
    assert!(matches!(err, ContractError::UnknownCursor));
}

#[test]
fn a_zero_limit_still_hands_back_a_usable_cursor() {
    let (mut c, _) = deploy_with_open_tla();
    rent_alice_sub(&mut c, "one");
    rent_alice_sub(&mut c, "two");
    let page = c
        .nft_tokens_for_owner_page(acc(ALICE), None, Some(0))
        .unwrap();
    assert_eq!(
        page.tokens.len(),
        1,
        "a page of nothing with no cursor cannot say whether more remain"
    );
    assert!(page.next.is_some(), "the walk can still be resumed");
}

#[test]
fn the_pushed_notice_clears_the_wallet_floor_at_the_shortest_legal_setting() {
    let (mut c, _) = deploy_with_open_tla();
    let mut fees = c.get_fee_config();
    fees.retraction_notice_ns = 24 * 60 * 60 * 1_000_000_000;
    let e = ctx(COUNCIL, 1, 1);
    c.update_fee_config(&e, fees).unwrap();

    let notice = c.get_fee_config().retraction_notice_ns;
    assert!(
        notice > MIN_LEASE_RETRACT_NOTICE_NS,
        "the registry pushes now plus {notice} and the wallet re-checks it a block \
         later against its own floor, so the two must not be equal"
    );
}

#[test]
fn the_whole_launch_seed_registers_and_opens_at_the_measured_batch_size() {
    let (mut c, _) = deploy();
    let all: Vec<String> = (0..LAUNCH_SEED).map(seed_name).collect();

    let mut register_calls = 0;
    for chunk in all.chunks(PER_CALL) {
        let e = ctx(COUNCIL, 1, 0);
        register_open(&e, &mut c, chunk.iter().map(|n| acc(n)).collect()).unwrap();
        register_calls += 1;
    }

    let mut open_calls = 0;
    for chunk in all.chunks(PER_CALL) {
        let e = ctx(ADMIN, 1, 1);
        c.activate_open_tlas(&e, chunk.iter().map(|n| acc(n)).collect())
            .unwrap();
        open_calls += 1;
    }

    assert_eq!(
        (register_calls, open_calls),
        (CALLS_PER_PASS, CALLS_PER_PASS)
    );
    let e = ctx(ADMIN, 1, 1);
    for index in [0, LAUNCH_SEED / 2, LAUNCH_SEED - 1] {
        let view = c.get_tla(&e, acc(&seed_name(index))).unwrap();
        assert!(
            matches!(view.lifecycle, LifecycleStatus::Active),
            "{} did not come out open",
            seed_name(index)
        );
    }
    assert!(c.is_name_available(acc(&seed_name(LAUNCH_SEED - 1)), "alice".to_string()));
}

#[test]
fn a_payload_that_would_overrun_the_log_budget_is_refused() {
    let (mut c, _) = deploy();
    let e = ctx(COUNCIL, 1, 0);
    let too_many: Vec<AccountId> = (0..1_900).map(|i| acc(&seed_name(i))).collect();
    assert!(matches!(
        register_open(&e, &mut c, too_many),
        Err(ContractError::BatchTooLarge)
    ));
    assert!(c.get_tla(&e, acc(&seed_name(0))).is_none());
}

#[test]
fn the_council_registers_a_whole_batch_in_one_call() {
    let (mut c, _) = deploy();
    let e = ctx(COUNCIL, 1, 0);
    register_open(&e, &mut c, seed_names(PER_CALL)).unwrap();
    assert!(c.get_tla(&e, acc("seed0")).is_some());
    assert!(c.get_tla(&e, acc(&format!("seed{}", PER_CALL - 1))).is_some());
}

#[test]
fn one_bad_name_rolls_the_whole_batch_back() {
    let (mut c, _) = deploy();
    let e = ctx(COUNCIL, 1, 0);
    register_open(&e, &mut c, vec![acc("taken")]).unwrap();

    let e = ctx(COUNCIL, 1, 0);
    assert!(matches!(
        register_open(&e, &mut c, vec![acc("fresh"), acc("taken")]),
        Err(ContractError::TlaAlreadyRegistered)
    ));
    assert!(
        c.get_tla(&e, acc("fresh")).is_none(),
        "a batch that fails part way must leave nothing behind, or a re-run of the \
         same proposal payload trips on the names the failed run already wrote"
    );
}

#[test]
fn a_batch_past_the_cap_is_refused_before_it_runs_out_of_gas() {
    let (mut c, _) = deploy();
    let e = ctx(COUNCIL, 1, 0);
    assert!(matches!(
        register_open(&e, &mut c, seed_names(MAX_TLA_BATCH + 1)),
        Err(ContractError::BatchTooLarge)
    ));
    assert!(c.get_tla(&e, acc("seed0")).is_none());
}

#[test]
fn the_same_name_twice_in_one_payload_is_caught() {
    let (mut c, _) = deploy();
    let e = ctx(COUNCIL, 1, 0);
    assert!(
        matches!(
            register_open(&e, &mut c, vec![acc("twice"), acc("other"), acc("twice")]),
            Err(ContractError::DuplicateInBatch)
        ),
        "a generated seed list of thousands is exactly where a repeat hides"
    );
    assert!(c.get_tla(&e, acc("other")).is_none());
}

#[test]
fn an_empty_batch_is_refused_rather_than_passing_silently() {
    let (mut c, _) = deploy();
    let e = ctx(COUNCIL, 1, 0);
    assert!(matches!(
        register_open(&e, &mut c, vec![]),
        Err(ContractError::EmptyBatch)
    ));
}

#[test]
fn a_batch_registration_still_needs_one_yocto() {
    let (mut c, _) = deploy();
    let e = ctx(COUNCIL, 0, 0);
    assert!(register_open(&e, &mut c, seed_names(1)).is_err());
}

#[test]
fn admin_opens_a_batch_and_the_names_become_rentable() {
    let (mut c, _) = deploy();
    let e = ctx(COUNCIL, 1, 0);
    register_open(&e, &mut c, seed_names(3)).unwrap();

    let e = ctx(ADMIN, 1, 1);
    c.activate_open_tlas(&e, vec![acc("seed0"), acc("seed1"), acc("seed2")])
        .unwrap();
    for i in 0..3 {
        let view = c.get_tla(&e, acc(&format!("seed{i}"))).unwrap();
        assert!(matches!(view.lifecycle, LifecycleStatus::Active));
    }
    assert!(c.is_name_available(acc("seed0"), "alice".to_string()));
}

#[test]
fn opening_a_batch_rolls_back_when_one_was_never_registered() {
    let (mut c, _) = deploy();
    let e = ctx(COUNCIL, 1, 0);
    register_open(&e, &mut c, seed_names(1)).unwrap();

    let e = ctx(ADMIN, 1, 1);
    assert!(matches!(
        c.activate_open_tlas(&e, vec![acc("seed0"), acc("missing")]),
        Err(ContractError::TlaNotFound)
    ));
    let view = c.get_tla(&e, acc("seed0")).unwrap();
    assert!(!matches!(view.lifecycle, LifecycleStatus::Active));
}

#[test]
fn the_single_call_paths_still_work_alongside_the_batches() {
    let (mut c, _) = deploy();
    let e = ctx(COUNCIL, 1, 0);
    c.register_tla(&e, acc("solo"), TlaType::Open, PremiumCategory::Standard, None)
        .unwrap();
    let e = ctx(ADMIN, 1, 1);
    c.activate_open_tla(&e, acc("solo")).unwrap();
    let view = c.get_tla(&e, acc("solo")).unwrap();
    assert!(matches!(view.lifecycle, LifecycleStatus::Active));
}

#[test]
fn a_recovery_tells_nep171_that_the_token_moved() {
    let (mut c, _) = deploy_with_open_tla();
    rent_alice_sub(&mut c, "alice");
    let (e, _) = ctx_callback(true);
    let events = c
        .on_sub_account_recovered(&e, acc(TLA), "alice".to_string(), acc(ALICE), acc(BOB), Ok(true));
    let moves: Vec<(AccountId, AccountId)> = events
        .iter()
        .filter_map(|event| match event {
            Event::NftTransfer { old_owner_id, new_owner_id, .. } => Some((*old_owner_id, *new_owner_id)),
            _ => None,
        })
        .collect();
    assert_eq!(
        moves.len(),
        1,
        "a wallet tracking nep171 must see recovery move the token"
    );
    assert_eq!(moves[0].0, acc(ALICE));
    assert_eq!(moves[0].1, acc(BOB));
}

#[test]
fn a_direct_transfer_tells_nep171_that_the_token_moved() {
    let (mut c, _) = deploy_with_open_tla();
    rent_alice_sub(&mut c, "alice");
    let (e, _) = ctx_callback(true);
    let events = c
        .on_sub_account_transferred(
            &e,
            acc(TLA),
            "alice".to_string(),
            acc(ALICE),
            acc(BOB),
            RotationCause::Transfer,
            Ok(true),
        );
    let moves = events
        .iter()
        .filter(|event| matches!(event, Event::NftTransfer { .. }))
        .count();
    assert_eq!(moves, 1);
}

#[test]
fn register_tla_emits_nep297_event() {
    let (mut c, _) = deploy();
    let e = ctx(ADMIN, 1, 0);
    let reply = c
        .register_tla(&e, acc(TLA), TlaType::Open, PremiumCategory::Standard, None)
        .unwrap();
    assert_eq!(reply.events.len(), 1);
    match &reply.events[0] {
        Event::TlaRegistered { tla_id, tla_type, premium_category, licensee } => {
            assert_eq!(*tla_id, acc(TLA));
            assert!(matches!(tla_type, TlaType::Open));
            assert!(matches!(premium_category, PremiumCategory::Standard));
            assert!(licensee.is_none());
        }
        other => panic!("the registration was logged as {other:?}"),
    }
}

#[test]
fn a_wallet_that_refused_a_lease_update_says_so_out_loud() {
    let (mut c, _) = deploy_with_open_tla();
    let (_, ok) = ctx_callback(false);
    let events = c.on_lease_synced(acc_key("alice"), LeaseIntent::Retract, ok);
    assert!(
        events.iter().any(|event| matches!(event, Event::LeaseSyncFailed { .. })),
        "the registry and the wallet each hold a copy of the term, so a refused update has \
         to be visible rather than leaving the two silently disagreeing, got {events:?}"
    );
}

#[test]
fn a_wallet_that_took_the_lease_update_stays_quiet() {
    let (mut c, _) = deploy_with_open_tla();
    let (_, ok) = ctx_callback(true);
    let events = c.on_lease_synced(acc_key("alice"), LeaseIntent::Retract, ok);
    assert!(
        !events.iter().any(|event| matches!(event, Event::LeaseSyncFailed { .. })),
        "a successful push must not raise the alarm"
    );
}

#[test]
fn a_seal_that_did_not_remove_the_key_is_not_reported_as_sealed() {
    let (mut c, _) = deploy_with_open_tla();
    let (_, ok) = ctx_callback(false);
    let reply = c.after_seal("ed25519:key".to_string(), acc(COUNCIL), ok);
    assert!(!reply.value);
    assert!(reply.events.iter().any(|event| matches!(event, Event::SealFailed { .. })));
    assert!(
        !reply.events.iter().any(|event| matches!(event, Event::Sealed { .. })),
        "the launch decision reads this log, so a key that survived must never read as sealed"
    );
}

#[test]
#[should_panic(expected = "grace period too short")]
fn new_rejects_short_grace_period() {
    let _ = init(0, COUNCIL, None).unwrap_or_else(|e| panic!("{}", e.message()));
}

#[test]
fn stale_reclaim_callback_aborts_when_no_longer_reclaimable() {
    let (mut c, _) = deploy_with_open_tla();
    rent_alice_sub(&mut c, "alice");
    let key = acc_key("alice");
    c.reclaim_pending.insert(key, ());
    let e = ctx("registry.testnet", 0, 2);
    let out = c
        .on_balances_checked(&e, acc(TLA), "alice".to_string(), acc(ALICE), vec![], vec![]);
    assert!(matches!(out.value, PromiseOrValue::Value(())));
    assert!(!c.reclaim_pending.contains_key(&key));
    assert!(c.get_sub_account(&e, acc(TLA), "alice".to_string()).is_some());
}

#[test]
fn a_relay_nearing_its_ceiling_says_so_on_chain() {
    let (mut c, _) = deploy_with_business_tla();
    let creation = c.get_fee_config().account_creation_deposit_yocto;
    let e = ctx(ADMIN, 1, 1);
    c.add_payment_authority(&e, acc(CAROL)).unwrap();
    c.bind_payment_authority_tla(&e, acc(CAROL), acc(TLA), 5)
        .unwrap();

    let e = ctx(CAROL, creation, 1);
    let reply = c
        .rent_sub_account_paid(
            &e,
            acc(TLA),
            "first".to_string(),
            acc(BOB),
            acc(ALICE),
            "ord-a".to_string(),
        )
        .unwrap();
    assert!(
        reply
            .events
            .iter()
            .any(|event| matches!(event, Event::PaymentAuthorityAllowanceLow { .. })),
        "the council has to see a relay running out before it stops minting"
    );
}

#[test]
fn the_oracle_can_recover_a_rate_stranded_outside_the_band() {
    let (mut c, _) = deploy_initialized();
    c.fee_config.max_near_usd_rate_micro = dollars(2);
    let e = ctx(KEEPER, 0, 1 + COOLDOWN);
    let reply = c
        .set_near_usd_rate(&e, dollars(2))
        .expect("an out-of-band baseline must not veto a move back inside the band");
    assert_eq!(c.get_near_usd_rate(), dollars(2));
    assert!(
        reply
            .events
            .iter()
            .any(|event| matches!(event, Event::RateRecoveredFromOutOfBand { .. })),
        "recovering from a stranded rate must be observable, not silent"
    );
}

#[test]
fn an_ordinary_rate_move_is_not_reported_as_a_recovery() {
    let (mut c, _) = deploy_initialized();
    let e = ctx(KEEPER, 0, 1 + COOLDOWN);
    let reply = c
        .set_near_usd_rate(&e, dollars(5) * 11_000 / 10_000)
        .unwrap();
    assert!(
        !reply
            .events
            .iter()
            .any(|event| matches!(event, Event::RateRecoveredFromOutOfBand { .. })),
        "the recovery signal must stay rare enough to mean something"
    );
}

#[test]
fn a_name_cannot_lapse_while_the_contract_is_paused() {
    let (c, expires) = expired_and_paused("alice");
    let e = ctx(ALICE, 0, expires + GRACE_NS + 1);
    assert!(
        matches!(status_of(&e, &c, "alice"), LifecycleStatus::Grace),
        "a pause must hold a name in grace rather than let it become reclaimable"
    );
}

#[test]
fn a_holder_gets_a_fresh_grace_window_after_the_pause_lifts() {
    let (mut c, expires) = expired_and_paused("alice");
    let long_after = expires + GRACE_NS + 2;
    let e = ctx(ADMIN, 1, long_after);
    c.unpause(&e).unwrap();
    let e = ctx(ALICE, 0, long_after + 1);
    assert!(
        matches!(status_of(&e, &c, "alice"), LifecycleStatus::Grace),
        "the grace window must restart when the pause lifts"
    );
    let e = ctx(ALICE, 0, long_after + GRACE_NS + 2);
    assert!(matches!(
        status_of(&e, &c, "alice"),
        LifecycleStatus::Reclaimable
    ));
}

#[test]
#[should_panic(expected = "state version")]
fn migrate_refuses_a_state_version_it_does_not_understand() {
    let _ = legacy::choose_state(Some(STATE_VERSION + 1), None, None)
        .unwrap_or_else(|e| panic!("{}", e.message()));
}

#[test]
#[should_panic(expected = "state version")]
fn the_current_reader_is_not_offered_a_shape_it_cannot_read() {
    let (c, _) = deploy();
    let mut old = as_v1(c);
    old.state_version = 9;
    let _ = legacy::choose_state(Some(old.state_version), None, None)
        .unwrap_or_else(|e| panic!("{}", e.message()));
}

#[test]
fn a_state_left_at_version_one_migrates_through_its_own_reader() {
    let (mut c, _) = deploy();
    let e = ctx(COUNCIL, 1, 0);
    c.register_tla(&e, acc(TLA), TlaType::Open, PremiumCategory::Standard, None)
        .unwrap();
    let council = c.get_council();
    let old = as_v1(c);
    let e = ctx("registry.testnet", 0, 0);
    assert!(matches!(
        legacy::reader_for(Some(old.state_version)),
        Ok(legacy::StateReader::V1)
    ));

    let migrated = legacy::migrate(&e, legacy::StoredState::V1(old));
    assert_eq!(migrated.state_version, STATE_VERSION);
    assert_eq!(migrated.council, council);
    assert!(
        migrated.tlas.contains_key(&acc(TLA)),
        "the shape changed, the data did not"
    );
    assert_eq!(migrated.lease_term_ns, PRODUCTION_LEASE_TERM_NS);
    assert!(migrated.pending_council.is_none());
}

#[test]
fn the_deployed_shape_migrates_and_starts_with_no_rotation_pending() {
    let (mut c, _) = deploy();
    let e = ctx(COUNCIL, 1, 0);
    c.register_tla(&e, acc(TLA), TlaType::Open, PremiumCategory::Standard, None)
        .unwrap();
    c.total_revenue = 500;
    let treasury = c.get_treasury();
    let old = as_v4(c);
    let e = ctx("registry.testnet", 0, 0);
    assert!(matches!(
        legacy::reader_for(Some(old.state_version)),
        Ok(legacy::StateReader::V4)
    ));

    let migrated = legacy::migrate(&e, legacy::StoredState::V4(old));
    assert_eq!(migrated.state_version, STATE_VERSION);
    assert_eq!(migrated.treasury, treasury, "the destination must survive");
    assert_eq!(migrated.total_revenue, 500, "revenue must survive");
    assert!(migrated.tlas.contains_key(&acc(TLA)));
    assert!(
        migrated.pending_treasury.is_none(),
        "an upgrade must not arrive with a rotation already half-committed"
    );
}

#[test]
fn the_council_can_seal_the_registry_once_the_upgrade_path_is_proven() {
    let (mut c, _) = deploy();
    c.upgrade_proven = true;
    let e = ctx(COUNCIL, 1, 0);
    let reply = c.seal(&e, a_key()).unwrap();
    match reply.value.call {
        Call::DeleteKey { account, public_key } => {
            assert_eq!(account, acc("registry.testnet"));
            assert_eq!(
                public_key,
                a_key(),
                "the launch turns on this account ending with no key, so the seal has to \
                 schedule the removal rather than only report one"
            );
        }
        other => panic!("sealing asked for {other:?}"),
    }
}

#[test]
#[should_panic(expected = "council must not be the registry")]
fn init_rejects_a_council_that_is_the_registry_itself() {
    let _ = init(GRACE_NS, "registry.testnet", None).unwrap_or_else(|e| panic!("{}", e.message()));
}

#[test]
#[should_panic(expected = "lease term too short")]
fn a_lease_term_under_the_floor_is_refused() {
    let _ = deploy_with_terms(Some(MINUTE_NS - 1), GRACE_NS);
}

#[test]
#[should_panic(expected = "lease term too long")]
fn a_lease_term_over_the_ceiling_is_refused() {
    let _ = deploy_with_terms(Some(11 * ONE_YEAR_NS), GRACE_NS);
}

#[test]
fn an_operations_admin_cannot_register_a_batch() {
    let (mut c, _) = deploy_split();
    let e = ctx(ADMIN, 1, 0);
    assert!(matches!(
        register_open(&e, &mut c, seed_names(2)),
        Err(ContractError::OnlyCouncil)
    ));
}

fn total_owed(c: &TlaRegistry, accounts: &[&str]) -> u128 {
    accounts.iter().map(|a| c.get_pending_refund(acc(a))).sum()
}

#[test]
fn what_is_owed_in_total_is_what_everyone_is_owed_together() {
    let (mut c, _) = deploy_with_open_tla();
    let everyone = [ALICE, BOB, CAROL, TREASURY];
    c.add_pending_refund(&acc(ALICE), 500);
    c.add_pending_refund(&acc(BOB), 70);
    c.add_pending_refund(&acc(ALICE), 30);
    assert_eq!(c.get_pending_refund(acc(ALICE)), 530);
    assert_eq!(c.get_total_pending_refunds(), 600);
    assert_eq!(total_owed(&c, &everyone), 600);

    let e = ctx(ALICE, 0, 1);
    let reply = c.claim_refund(&e).unwrap();
    assert_eq!(reply.value.deposit, 530);
    assert_eq!(c.get_total_pending_refunds(), 70);
    assert_eq!(total_owed(&c, &everyone), 70);

    c.on_claim_refund_settled(acc(ALICE), 530, false);
    assert_eq!(c.get_total_pending_refunds(), 600);
    assert_eq!(total_owed(&c, &everyone), 600);
}

#[test]
fn a_withdrawal_never_reaches_into_what_users_are_owed() {
    let (mut c, _) = deploy();
    let spendable = ctx(TREASURY, 1, 1).available_balance();
    assert_eq!(spendable, 100_000_000_000_000_000_000_000_000 - 3_072_000_000_000_000_000_000_000);
    c.total_revenue = spendable;
    c.add_pending_refund(&acc(ALICE), 1);
    let e = ctx(TREASURY, 1, 1);
    assert!(matches!(
        c.withdraw(&e, spendable),
        Err(ContractError::InsufficientContractBalance)
    ));
    assert!(matches!(c.withdraw(&e, 0), Err(ContractError::WithdrawalAmountZero)));
    c.withdraw(&e, spendable - 1).unwrap();
    assert_eq!(c.get_pending_refund(acc(ALICE)), 1);
    assert_eq!(c.get_pending_refund(acc(TREASURY)), spendable - 1);
}

#[test]
fn a_refund_waits_until_the_account_can_pay_it() {
    let (mut c, _) = deploy();
    let e = ctx(ALICE, 0, 1);
    c.add_pending_refund(&acc(ALICE), e.available_balance() + 1);
    assert!(matches!(
        c.claim_refund(&e),
        Err(ContractError::InsufficientContractBalance)
    ));
    assert_eq!(c.get_pending_refund(acc(ALICE)), e.available_balance() + 1);
}

#[test]
fn a_late_renewal_answer_never_shortens_a_lease() {
    let (mut c, _) = deploy_with_open_tla();
    let e = rent_alice_sub(&mut c, "alice");
    let before = c
        .get_sub_account(&e, acc(TLA), "alice".to_string())
        .unwrap()
        .expires_at;
    c.on_sub_account_renewed(&e, acc(TLA), "alice".to_string(), before - 1, acc(ALICE), 7, true);
    let after = c
        .get_sub_account(&e, acc(TLA), "alice".to_string())
        .unwrap()
        .expires_at;
    assert_eq!(after, before);
}

#[test]
fn a_renewal_of_a_name_that_is_gone_pays_the_rent_back() {
    let (mut c, e) = deploy_with_open_tla();
    let events = c.on_sub_account_renewed(&e, acc(TLA), "ghost".to_string(), 9, acc(BOB), 7, true);
    assert!(matches!(events[0], Event::RefundPending { amount_yocto: 7, .. }));
    assert_eq!(c.get_pending_refund(acc(BOB)), 7);
    assert_eq!(c.get_stats().total_revenue_yocto, 0);
}

fn deposited(c: &mut TlaRegistry) -> AccountId {
    rent_alice_sub(c, "alice");
    let venue = acc("venue.testnet");
    let e = ctx(COUNCIL, 1, 1);
    c.add_venue(&e, venue).unwrap();
    let e = ctx("registry.testnet", 0, 2);
    c.on_sub_account_transferred(
        &e,
        acc(TLA),
        "alice".to_string(),
        acc(ALICE),
        venue,
        RotationCause::Deposit,
        Ok(true),
    );
    venue
}

#[test]
fn a_venue_holds_the_name_and_the_seller_keeps_the_payout() {
    let (mut c, e) = deploy_with_open_tla();
    let venue = deposited(&mut c);
    assert_eq!(c.nft_token(format!("alice.{TLA}")).unwrap().owner_id, venue);
    assert_eq!(payout_of(&e, &c, "alice"), acc(ALICE));
}

#[test]
fn taking_a_name_out_of_a_venue_is_gated_by_nothing() {
    let (mut c, _) = deploy_with_open_tla();
    let venue = deposited(&mut c);
    let e = ctx(ADMIN, 1, 2);
    c.add_ft_allowlist(&e, acc("usdc.testnet")).unwrap();
    c.suspend_tla(&e, acc(TLA)).unwrap();
    c.pause_marketplace(&e).unwrap();
    c.pause(&e).unwrap();
    edit_row(
        &mut c,
        "alice",
        |row, at| SubAccountEntry { retraction_at: Some(at), expires_at: 2, ..row },
        1,
    );
    let e = ctx(&venue.text(), 1, 3);
    let reply = c
        .nft_transfer(&e, acc(BOB), format!("alice.{TLA}"), None, None)
        .unwrap();
    match reply.value.call {
        Call::ForceTransfer { wallet, new_owner, cause, expected, .. } => {
            assert_eq!(wallet, acc_key("alice"));
            assert_eq!(new_owner, Some(acc(BOB)));
            assert!(matches!(cause, RotationCause::Transfer));
            assert_eq!(expected, Some(venue));
        }
        other => panic!("the exit asked for {other:?}"),
    }
    assert!(c
        .transfer_sub_account(&e, acc(TLA), "alice".to_string(), acc(BOB))
        .is_ok());
}

#[test]
fn a_name_with_tokens_on_it_is_held_at_the_entrance() {
    let (mut c, _) = deploy_with_open_tla();
    rent_alice_sub(&mut c, "alice");
    let e = ctx(ADMIN, 1, 2);
    let token = acc("usdc.testnet");
    c.add_ft_allowlist(&e, token).unwrap();
    let e = ctx(ALICE, 1, 2);
    let reply = c
        .transfer_sub_account(&e, acc(TLA), "alice".to_string(), acc(BOB))
        .unwrap();
    assert!(matches!(reply.value.call, Call::FtBalances { .. }));

    let held = c.on_transfer_balances_checked(
        acc_key("alice"),
        acc(TLA),
        "alice".to_string(),
        acc(ALICE),
        acc(BOB),
        RotationCause::Transfer,
        vec![token],
        vec![Ok(1)],
    );
    assert!(matches!(held.value, Err(ContractError::SubAccountHoldsTokens)));
    assert!(matches!(held.events[0], Event::TransferBlockedByBalance { .. }));

    let silent = c.on_transfer_balances_checked(
        acc_key("alice"),
        acc(TLA),
        "alice".to_string(),
        acc(ALICE),
        acc(BOB),
        RotationCause::Transfer,
        vec![token],
        vec![Err(PromiseError::Failed)],
    );
    assert!(
        matches!(silent.value, Err(ContractError::SubAccountHoldsTokens)),
        "a token that does not answer cannot be taken for an empty one"
    );

    let clear = c.on_transfer_balances_checked(
        acc_key("alice"),
        acc(TLA),
        "alice".to_string(),
        acc(ALICE),
        acc(BOB),
        RotationCause::Transfer,
        vec![token],
        vec![Ok(0)],
    );
    assert!(matches!(
        clear.value.unwrap().call,
        Call::ForceTransfer { .. }
    ));
}

#[test]
fn a_re_rent_blocked_by_a_balance_is_undone_and_refunded() {
    let (mut c, _) = deploy_with_open_tla();
    let e = rent_alice_sub(&mut c, "alice");
    c.on_reclaim_finalized(&e, acc(TLA), "alice".to_string(), acc(ALICE), Ok(true));
    let admin = ctx(ADMIN, 1, 2);
    let token = acc("usdc.testnet");
    c.add_ft_allowlist(&admin, token).unwrap();
    let rent = c
        .get_rent_price(&e, acc(TLA), "alice".to_string())
        .unwrap()
        .rent_yocto;
    let bob = ctx(BOB, rent, 3);
    let reply = c
        .rent_sub_account(&bob, acc(TLA), "alice".to_string(), None)
        .unwrap();
    let pending = match reply.value.callback {
        Callback::ReRentBalancesChecked(pending) => pending,
        other => panic!("the re-rent waits for {other:?}"),
    };
    c.on_re_rent_balances_checked(&e, pending, vec![token], vec![Ok(5)]);
    assert_eq!(c.get_pending_refund(acc(BOB)), rent);
    assert!(c.get_sub_account(&e, acc(TLA), "alice".to_string()).is_none());
    assert!(c.is_name_re_rentable(acc(TLA), "alice".to_string()));
}

#[test]
fn a_failed_business_mint_gives_the_place_back() {
    let (mut c, _) = deploy_with_business_tla();
    let e = ctx(ADMIN, 1, 1);
    c.set_business_sub_cap(&e, acc(TLA), Some(1)).unwrap();
    let rent_near = usd_to_near(c.get_fee_config().sub_fee_per_account_usd_micro);
    let total = rent_near + c.get_fee_config().account_creation_deposit_yocto;
    let e = ctx(ALICE, total, 1);
    let _ = c
        .rent_sub_account(&e, acc(TLA), "staff".to_string(), None)
        .unwrap();
    assert_eq!(c.get_business_sub_count(acc(TLA)), 1);
    let (back, _) = ctx_callback(true);
    c.on_sub_account_created(
        &back,
        settled("staff", ALICE, ALICE, rent_near, total),
        Ok(MintOutcome::CreationFailed),
    )
    .unwrap();
    assert_eq!(c.get_business_sub_count(acc(TLA)), 0);
    assert!(c
        .rent_sub_account(&e, acc(TLA), "staff".to_string(), None)
        .is_ok());
}

#[test]
fn a_mint_answer_for_a_row_that_is_gone_changes_nothing() {
    let (mut c, e) = deploy_with_open_tla();
    assert!(matches!(
        c.on_sub_account_created(&e, settled("ghost", ALICE, ALICE, 1, 9), Ok(MintOutcome::Active)),
        Err(ContractError::SubAccountNotFound)
    ));
    c.on_sub_account_created(&e, settled("ghost", ALICE, ALICE, 1, 9), Err(PromiseError::Failed))
        .unwrap();
    assert_eq!(c.get_pending_refund(acc(ALICE)), 0);
    assert!(c.is_name_available(acc(TLA), "ghost".to_string()));
}

#[test]
fn a_mint_answer_for_a_name_that_is_no_account_finds_no_row() {
    let (mut c, e) = deploy_with_open_tla();
    let named = |order: Option<&str>| MintSettlement {
        order_id: order.map(|id| id.to_string()),
        ..settled("No Name", ALICE, ALICE, 1, 9)
    };
    assert!(matches!(
        c.on_sub_account_created(&e, named(None), Ok(MintOutcome::Active)),
        Err(ContractError::SubAccountNotFound)
    ));
    assert!(matches!(
        c.on_sub_account_re_rented(&e, named(None), Ok(true)),
        Err(ContractError::SubAccountNotFound)
    ));
    for outcome in [Ok(MintOutcome::CreationFailed), Err(PromiseError::Failed)] {
        let events = c.on_sub_account_created_paid(&e, named(Some("order")), outcome).unwrap();
        match &events[..] {
            [Event::PaidRentalOrderStale { order_id, full_name }] => {
                assert_eq!(order_id, "order");
                assert_eq!(full_name.text(), format!("No Name.{TLA}"));
            }
            other => panic!("the order was not reported: {other:?}"),
        }
    }
    assert!(c
        .on_sub_account_re_rented(&e, named(None), Ok(false))
        .unwrap()
        .events
        .is_empty());
    assert_eq!(c.get_pending_refund(acc(ALICE)), 0);
}

#[test]
fn a_callback_for_a_name_that_is_no_account_reports_it() {
    let (mut c, e) = deploy_with_open_tla();
    let name = || "No Name".to_string();
    let text = format!("No Name.{TLA}");
    for swapped in [Ok(true), Ok(false)] {
        let reply = c.nft_on_return_resolved(&e, acc(TLA), name(), acc(ALICE), acc(BOB), swapped);
        assert!(!reply.value);
        assert!(matches!(&reply.events[..], [Event::TransferFailed { full_name, .. }] if full_name.text() == text));
        let events = c.on_sub_account_transferred(
            &e,
            acc(TLA),
            name(),
            acc(ALICE),
            acc(BOB),
            RotationCause::Transfer,
            swapped,
        );
        assert!(matches!(&events[..], [Event::TransferFailed { full_name, .. }] if full_name.text() == text));
        let events = c.on_sub_account_recovered(&e, acc(TLA), name(), acc(ALICE), acc(BOB), swapped);
        assert!(matches!(&events[..], [Event::TransferFailed { full_name, .. }] if full_name.text() == text));
    }
    let events = c.on_payout_set(acc(TLA), name(), acc(BOB), acc(ALICE), true);
    assert!(matches!(
        &events[..],
        [Event::PayoutAccountUpdateFailed { full_name, .. }] if full_name.text() == text
    ));
    let reply = c.on_balances_checked(&e, acc(TLA), name(), acc(ALICE), vec![], vec![]);
    assert!(matches!(
        &reply.events[..],
        [Event::ReclaimFinalizeBlocked { full_name, token: None, reason: BlockReason::NoLongerReclaimable }]
            if full_name.text() == text
    ));
    let events = c.on_reclaim_finalized(&e, acc(TLA), name(), acc(ALICE), Ok(false));
    assert!(matches!(
        &events[..],
        [Event::ReclaimFinalizeBlocked { full_name, reason: BlockReason::ParkFailed, .. }]
            if full_name.text() == text
    ));
    assert!(c
        .on_reclaim_finalized(&e, acc(TLA), name(), acc(ALICE), Ok(true))
        .is_empty());
    let pending = || PendingReRent {
        tla_id: acc(TLA),
        name: name(),
        owner: acc(ALICE),
        payer: acc(ALICE),
        payout_account: acc(ALICE),
        rent: 1,
        attached: 2,
        sub_account: acc_key("alice"),
        order_id: None,
    };
    let blocked = c.on_re_rent_balances_checked(&e, pending(), vec![acc("usdc.testnet")], vec![Ok(1)]);
    assert!(matches!(
        &blocked.events[..],
        [Event::SubAccountSaleBlocked { full_name, .. }] if full_name.text() == text
    ));
    let clear = c.on_re_rent_balances_checked(&e, pending(), vec![acc("usdc.testnet")], vec![Ok(0)]);
    assert!(matches!(clear.value, PromiseOrValue::Promise(_)));
    let cleared = c
        .admin_clear_reclaim_pending(&ctx(ADMIN, 1, 2), acc(TLA), name())
        .unwrap();
    assert!(matches!(
        &cleared.events[..],
        [Event::ReclaimPendingCleared { full_name, .. }] if full_name.text() == text
    ));
}

#[test]
fn a_name_too_long_for_an_account_can_be_parked_and_released() {
    let (mut c, _) = deploy_with_open_tla();
    let admin = ctx(ADMIN, 1, 7);
    let name = "a".repeat(60);
    let text = format!("{name}.{TLA}");
    assert!(AccountId::parse(&text).is_none());
    assert!(c.is_name_available(acc(TLA), name.clone()));
    let forced = c.admin_force_park(&admin, acc(TLA), name.clone()).unwrap();
    assert!(matches!(
        &forced.events[..],
        [Event::ParkForced { full_name, .. }] if full_name.text() == text
    ));
    let parked = c.get_parked_sub_account(acc(TLA), name.clone()).unwrap();
    assert_eq!(parked.full_name, text);
    assert_eq!(parked.parked_at, 7);
    assert!(c.is_name_re_rentable(acc(TLA), name.clone()));
    assert!(!c.is_name_available(acc(TLA), name.clone()));
    assert!(matches!(
        c.admin_force_park(&admin, acc(TLA), name.clone()),
        Err(ContractError::SubAccountNameTaken)
    ));
    assert!(matches!(
        c.reclaim_sweep_near(&ctx(BOB, 1, 8), acc(TLA), name.clone()),
        Err(ContractError::InvalidSubAccountId)
    ));
    let released = c.admin_release_park(&admin, acc(TLA), name.clone()).unwrap();
    assert!(matches!(
        &released.events[..],
        [Event::ParkReleased { full_name, .. }] if full_name.text() == text
    ));
    assert!(matches!(
        c.admin_release_park(&admin, acc(TLA), name),
        Err(ContractError::SubAccountNotParked)
    ));
}

#[test]
fn a_notice_can_be_taken_back_until_it_has_run() {
    let (mut c, _) = deploy_with_business_tla();
    rent_employee_sub(&mut c, "staff", BOB);
    let e = ctx(ALICE, 1, 2);
    assert!(matches!(
        c.cancel_retraction(&e, acc(TLA), "staff".to_string()),
        Err(ContractError::NoRetractionScheduled)
    ));
    let reply = c
        .schedule_retraction(&e, acc(TLA), "staff".to_string())
        .unwrap();
    let notice = c.get_fee_config().retraction_notice_ns;
    match reply.value.call {
        Call::RetractLease { wallet, ends_at, .. } => {
            assert_eq!(wallet, acc_key("staff"));
            assert_eq!(ends_at, 2 + notice);
        }
        other => panic!("the notice asked for {other:?}"),
    }
    assert!(matches!(
        c.schedule_retraction(&e, acc(TLA), "staff".to_string()),
        Err(ContractError::RetractionAlreadyScheduled)
    ));
    let late = ctx(ALICE, 1, 2 + notice);
    assert!(matches!(
        c.cancel_retraction(&late, acc(TLA), "staff".to_string()),
        Err(ContractError::RetractionAlreadyElapsed)
    ));
    let in_time = ctx(ALICE, 1, 1 + notice);
    assert!(c
        .cancel_retraction(&in_time, acc(TLA), "staff".to_string())
        .is_ok());
}

#[test]
fn a_token_carries_its_lease_as_text() {
    let (mut c, _) = deploy_with_open_tla();
    rent_alice_sub(&mut c, "alice");
    let extra = c
        .nft_token(format!("alice.{TLA}"))
        .unwrap()
        .metadata
        .unwrap()
        .extra
        .unwrap();
    assert_eq!(extra, r#"{"rented_at":"1","expires_at":"31536000000000001"}"#);
}

#[test]
fn a_transfer_by_approval_is_refused() {
    let (mut c, _) = deploy_with_open_tla();
    rent_alice_sub(&mut c, "alice");
    let e = ctx(ALICE, 1, 2);
    assert!(matches!(
        c.nft_transfer(&e, acc(BOB), format!("alice.{TLA}"), Some(1), None),
        Err(ContractError::ApprovalsNotSupported)
    ));
}

#[test]
fn a_rotation_that_did_not_land_leaves_the_ledger() {
    let (mut c, e) = deploy_with_open_tla();
    rent_alice_sub(&mut c, "alice");
    let rotation = |name: &str| NftRotation {
        tla_id: acc(TLA),
        name: name.to_string(),
        from: acc(ALICE),
        to: acc(BOB),
        memo: None,
        cause: RotationCause::Transfer,
    };
    assert!(matches!(
        c.nft_on_rotation_resolved(&e, rotation("alice"), Ok(false)),
        Err(ContractError::RotationNotConfirmed)
    ));
    assert!(matches!(
        c.nft_on_rotation_resolved(&e, rotation("ghost"), Ok(true)),
        Err(ContractError::OwnerIndexOutOfSync)
    ));
    assert_eq!(c.nft_token(format!("alice.{TLA}")).unwrap().owner_id, acc(ALICE));
}

#[test]
fn a_transfer_call_goes_on_to_its_receiver_and_can_come_back() {
    let (mut c, _) = deploy_with_open_tla();
    rent_alice_sub(&mut c, "alice");
    let e = ctx(ALICE, 1, 2);
    let reply = c
        .nft_transfer_call(&e, acc(BOB), format!("alice.{TLA}"), None, None, "hi".to_string())
        .unwrap();
    let call = match reply.value.callback {
        Callback::NftRotationResolvedCall(call) => call,
        other => panic!("the transfer waits for {other:?}"),
    };
    let (back, _) = ctx_callback(true);
    let next = c.nft_on_rotation_resolved_call(&back, call, Ok(true)).unwrap();
    match next.value.call {
        Call::NftOnTransfer { receiver, previous_owner_id, token_id, msg, .. } => {
            assert_eq!(receiver, acc(BOB));
            assert_eq!(previous_owner_id, acc(ALICE));
            assert_eq!(token_id, acc_key("alice"));
            assert_eq!(msg, "hi");
        }
        other => panic!("the receiver was not told: {other:?}"),
    }
    assert!(matches!(
        c.nft_resolve_transfer(acc(TLA), "alice".to_string(), acc(ALICE), acc(BOB), Ok(false)),
        PromiseOrValue::Value(true)
    ));
    match c.nft_resolve_transfer(
        acc(TLA),
        "alice".to_string(),
        acc(ALICE),
        acc(BOB),
        Err(PromiseError::Failed),
    ) {
        PromiseOrValue::Promise(dispatch) => match dispatch.call {
            Call::ForceTransfer { new_owner, cause, .. } => {
                assert_eq!(new_owner, Some(acc(ALICE)));
                assert!(matches!(cause, RotationCause::Revert));
            }
            other => panic!("the return asked for {other:?}"),
        },
        PromiseOrValue::Value(_) => panic!("a receiver that failed must give the name back"),
    }
}

#[test]
fn a_lapsed_name_cannot_be_handed_on() {
    let (mut c, _) = deploy_with_open_tla();
    let e = rent_alice_sub(&mut c, "alice");
    let expires = c
        .get_sub_account(&e, acc(TLA), "alice".to_string())
        .unwrap()
        .expires_at;
    let e = ctx(ALICE, 1, expires);
    assert!(matches!(
        c.transfer_sub_account(&e, acc(TLA), "alice".to_string(), acc(BOB)),
        Err(ContractError::SubAccountNotSellable)
    ));
}

#[test]
fn a_row_under_another_account_is_not_touched() {
    let (mut c, _) = deploy_with_open_tla();
    rent_alice_sub(&mut c, "alice");
    edit_row(&mut c, "alice", |row, _| SubAccountEntry { tla_id: acc("other"), ..row }, 0);
    let e = ctx(ALICE, 1, 2);
    assert!(matches!(
        c.transfer_sub_account(&e, acc(TLA), "alice".to_string(), acc(BOB)),
        Err(ContractError::SubAccountTlaMismatch)
    ));
}

#[test]
fn an_unlisted_token_is_not_swept() {
    let (mut c, _) = deploy_with_open_tla();
    rent_alice_sub(&mut c, "alice");
    let e = ctx(BOB, SWEEP_ATTACHED_REQUIRED, 2);
    assert!(matches!(
        c.reclaim_sweep_ft(&e, acc(TLA), "alice".to_string(), acc("usdc.testnet")),
        Err(ContractError::TokenNotInAllowlist)
    ));
}

#[test]
fn a_payout_cannot_point_at_the_account_itself() {
    let (mut c, _) = deploy_with_open_tla();
    rent_alice_sub(&mut c, "alice");
    let e = ctx(ALICE, 1, 2);
    assert!(matches!(
        c.set_payout_account(&e, acc(TLA), "alice".to_string(), acc_key("alice")),
        Err(ContractError::PayoutAccountEqualsSubAccount)
    ));
}

#[test]
fn a_top_level_account_is_activated_once() {
    let (mut c, _) = deploy_with_open_tla();
    let e = ctx(ADMIN, 1, 0);
    assert!(matches!(
        c.activate_open_tla(&e, acc(TLA)),
        Err(ContractError::TlaNotInRegisteredState)
    ));
}

#[test]
fn a_business_account_without_a_licensee_takes_no_rentals() {
    let (mut c, _) = deploy_with_business_tla();
    let mut entry = *c.tlas.get(&acc(TLA)).unwrap();
    entry.licensee = None;
    c.tlas.insert(acc(TLA), entry);
    let e = ctx(ALICE, u128::MAX, 1);
    assert!(matches!(
        c.rent_sub_account(&e, acc(TLA), "staff".to_string(), None),
        Err(ContractError::BusinessTlaMissingLicensee)
    ));
}

#[test]
fn a_name_under_a_lapsed_account_cannot_be_renewed() {
    let (mut c, _) = deploy_with_open_tla();
    rent_alice_sub(&mut c, "alice");
    let at = lapse_the_tla(&mut c);
    let e = ctx(ALICE, u128::MAX, at);
    assert!(matches!(
        c.renew_sub_account(&e, acc(TLA), "alice".to_string()),
        Err(ContractError::TlaPastGracePeriod)
    ));
}

#[test]
fn fees_that_make_no_sense_are_refused() {
    let (mut c, e) = deploy();
    let base = c.get_fee_config();
    let mut free = base;
    free.rent_tier_5_usd_micro = 0;
    free.rent_tier_8_usd_micro = 0;
    free.rent_tier_10_usd_micro = 0;
    free.rent_tier_12plus_usd_micro = 0;
    assert!(matches!(
        c.update_fee_config(&e, free),
        Err(ContractError::AllRentTiersZero)
    ));
    let mut unfunded = base;
    unfunded.account_creation_deposit_yocto = 0;
    assert!(matches!(
        c.update_fee_config(&e, unfunded),
        Err(ContractError::CreationDepositZero)
    ));
    assert!(c.update_fee_config(&e, base).is_ok());
}

#[test]
fn empty_code_is_never_installed() {
    let (mut c, e) = deploy();
    c.approve_upgrade(&e, hash()).unwrap();
    let e = ctx(COUNCIL, 1, UPGRADE_DELAY_NS + 1);
    assert!(matches!(c.upgrade(&e, vec![]), Err(ContractError::EmptyCode)));
    assert!(matches!(
        c.upgrade_with_digest(&e, code(), [1u8; 32]),
        Err(ContractError::HashMismatch)
    ));
    let reply = c.upgrade_with_digest(&e, code(), hash()).unwrap();
    assert!(matches!(reply.value.call, Call::DeployAndMigrate { reserved_tgas: 60, .. }));
}

#[test]
fn a_registry_is_not_set_up_against_itself() {
    let wired_to_itself = TlaRegistry::new(
        &ctx(ADMIN, 1, 0),
        acc(ADMIN),
        acc("registry.testnet"),
        GRACE_NS,
        acc(TREASURY),
        acc(COUNCIL),
        None,
    );
    assert!(matches!(wired_to_itself, Err(InitError::WiringPointsAtRegistry)));
    assert!(matches!(init(0, COUNCIL, None), Err(InitError::GracePeriodTooShort)));
    assert!(matches!(
        init(GRACE_NS, COUNCIL, Some(MINUTE_NS - 1)),
        Err(InitError::LeaseTermTooShort)
    ));
    assert!(matches!(
        init(GRACE_NS, COUNCIL, Some(11 * ONE_YEAR_NS)),
        Err(InitError::LeaseTermTooLong)
    ));
    assert!(matches!(
        init(GRACE_NS, "registry.testnet", None),
        Err(InitError::CouncilIsRegistry)
    ));
}

#[test]
fn each_fault_of_a_label_has_its_reason() {
    assert!(matches!(
        validate_name(""),
        Err(ContractError::InvalidName { reason: NameInvalidReason::LengthOutOfBounds })
    ));
    assert!(matches!(
        validate_name("has.dot"),
        Err(ContractError::InvalidName { reason: NameInvalidReason::DisallowedCharacter })
    ));
    assert!(matches!(
        validate_name("-edge"),
        Err(ContractError::InvalidName { reason: NameInvalidReason::EdgeSeparator })
    ));
}

#[test]
fn account_ids_follow_the_grammar() {
    for good in ["ab", "alice.near", "a-b_c.d", "0x0", &"a".repeat(64)] {
        assert_eq!(AccountId::parse(good).unwrap().text(), good);
    }
    for bad in ["", "a", "Alice", "a..b", ".ab", "ab.", "a-_b", "a b", "caf\u{e9}", &"a".repeat(65)] {
        assert!(AccountId::parse(bad).is_none(), "{bad} is no account id");
    }
    assert_eq!(named_account(&acc(TLA), "alice"), Some(acc_key("alice")));
    assert_eq!(named_account(&acc(TLA), "No Name"), None);
    assert_eq!(sub_account_key(&acc(TLA), "alice"), acc_key("alice").text());
    assert_eq!(sub_account_key(&acc(TLA), "No Name"), format!("No Name.{TLA}"));
}

#[test]
fn a_stored_state_is_read_by_its_version() {
    assert_eq!(state_version(&vec![5, 0, 9, 9]), Some(5));
    assert_eq!(state_version(&vec![1, 2]), Some(513));
    assert_eq!(state_version(&vec![7]), None);
    assert!(matches!(
        legacy::reader_for(Some(STATE_VERSION)),
        Ok(legacy::StateReader::Current)
    ));
    assert!(matches!(legacy::reader_for(None), Err(legacy::MigrationError::NoState)));
    assert!(matches!(
        legacy::reader_for(Some(2)),
        Err(legacy::MigrationError::StateVersionUnknown)
    ));
}

fn as_legacy(
    c: TlaRegistry,
    listings: OrderedMap<AccountId, Listing>,
) -> legacy::LegacyTlaRegistry {
    legacy::LegacyTlaRegistry {
        tlas: c.tlas,
        sub_accounts: c.sub_accounts,
        sub_accounts_by_owner: c.sub_accounts_by_owner,
        sub_accounts_by_tla: c.sub_accounts_by_tla,
        recent_activity: c.recent_activity,
        admins: c.admins,
        fee_config: c.fee_config,
        total_revenue: c.total_revenue,
        sub_account_count: c.sub_account_count,
        paused: c.paused,
        version: c.version,
        pending_refunds: c.pending_refunds,
        total_pending_refunds: c.total_pending_refunds,
        ft_allowlist: c.ft_allowlist,
        business_sub_count: c.business_sub_count,
        business_sub_cap_override: c.business_sub_cap_override,
        parked_names: c.parked_names,
        reclaim_pending: c.reclaim_pending,
        payment_authorities: c.payment_authorities,
        recovery_authorities: c.recovery_authorities,
        hos_extension: c.hos_extension,
        grace_period_ns: c.grace_period_ns,
        price_oracle: c.price_oracle,
        near_usd_rate_micro: c.near_usd_rate_micro,
        rate_updated_at: c.rate_updated_at,
        rate_sequence: c.rate_sequence,
        treasury: c.treasury,
        council: c.council,
        marketplace_paused: c.marketplace_paused,
        paused_until_ns: c.paused_until_ns,
        unpaused_at: c.unpaused_at,
        sweepable_tokens: c.sweepable_tokens,
        suspended_until: c.suspended_until,
        listings,
        accepted_offers: OrderedMap::new(),
    }
}

#[test]
fn the_state_from_before_versions_loses_only_its_listings() {
    let (mut c, e) = deploy_with_open_tla();
    rent_alice_sub(&mut c, "alice");
    let mut listings: OrderedMap<AccountId, Listing> = OrderedMap::new();
    for i in 0..205u64 {
        listings.insert(
            acc(&format!("name{i}.{TLA}")),
            Listing { price: i as u128, settling: false, seller: acc(ALICE) },
        );
    }
    let old = as_legacy(c, listings);
    let (kept, left, _) = legacy::from_legacy(&e, old);
    assert_eq!(left.len(), 5);
    assert!(left.contains_key(&acc(&format!("name204.{TLA}"))));
    assert!(!left.contains_key(&acc(&format!("name0.{TLA}"))));
    assert_eq!(kept.state_version, STATE_VERSION);
    assert_eq!(kept.nft_total_supply(), 1);
    assert_eq!(kept.nft_metadata().name, "registry.testnet");
}

#[test]
fn the_shape_that_could_be_read_is_the_one_that_counts() {
    let (c, _) = deploy();
    let old = as_legacy(c, OrderedMap::new());
    assert!(matches!(
        legacy::choose_state(Some(1), None, Some(old)),
        Ok(legacy::StoredState::Legacy(_))
    ));
    let (c, _) = deploy();
    assert!(matches!(
        legacy::choose_state(Some(STATE_VERSION), Some(legacy::StoredState::Current(c)), None),
        Ok(legacy::StoredState::Current(_))
    ));
    assert!(matches!(
        legacy::choose_state(Some(4), None, None),
        Err(legacy::MigrationError::NoState)
    ));
    assert!(matches!(
        legacy::choose_state(None, None, None),
        Err(legacy::MigrationError::NoState)
    ));
    assert!(matches!(
        legacy::choose_state(Some(9), None, None),
        Err(legacy::MigrationError::StateVersionUnknown)
    ));
}

#[test]
fn a_migrated_registry_can_be_sealed() {
    let (mut c, _) = deploy();
    let e = ctx(COUNCIL, 1, 0);
    assert!(matches!(c.seal(&e, a_key()), Err(ContractError::UpgradeNotProven)));
    let e = ctx("registry.testnet", 0, 0);
    let mut c = legacy::migrate(&e, legacy::StoredState::Current(c));
    let e = ctx(COUNCIL, 1, 0);
    assert!(c.seal(&e, a_key()).is_ok());
}

#[test]
fn a_map_keeps_arrival_order_and_fills_gaps_from_the_end() {
    let mut map: OrderedMap<AccountId, u64> = OrderedMap::new();
    for (i, name) in ["one.x", "two.x", "three.x"].iter().enumerate() {
        assert!(map.insert(acc(name), i as u64).is_none());
    }
    assert_eq!(map.insert(acc("two.x"), 9), Some(1));
    assert_eq!(map.remove(&acc("one.x")), Some(0));
    assert_eq!(map.remove(&acc("one.x")), None);
    assert_eq!(map.len(), 2);
    assert_eq!(*map.key_at(0), acc("three.x"));
    assert_eq!(*map.key_at(1), acc("two.x"));
    assert_eq!(*map.value_at(1), 9);
    assert_eq!(map.position(&acc("two.x")), Some(1));
}

#[test]
fn what_was_set_up_can_be_read_back() {
    let (mut c, e) = deploy_with_open_tla();
    assert_eq!(c.get_version(), 1);
    assert_eq!(c.get_grace_period_ns(), GRACE_NS);
    assert_eq!(c.get_hos_extension(), acc(HOSEXT));
    assert_eq!(c.get_pause_expiry(&e), 0);
    c.pause(&ctx(ADMIN, 1, 5)).unwrap();
    assert_eq!(c.get_pause_expiry(&ctx(ADMIN, 1, 6)), 5 + MAX_AUTHORITY_HOLD_NS);
    assert_eq!(c.get_pause_expiry(&ctx(ADMIN, 1, 5 + MAX_AUTHORITY_HOLD_NS)), 0);
    let page = c.list_tlas(&e, 0, 10);
    assert_eq!(page.len(), 1);
    assert_eq!(page[0].tla_id, acc(TLA));
    assert_eq!(page[0].lifecycle, LifecycleStatus::Active);
    assert!(c.list_tlas(&e, 1, 10).is_empty());
}

#[test]
fn a_parked_name_is_shown_with_its_account() {
    let (mut c, _) = deploy_with_business_tla();
    assert!(c.get_parked_sub_account(acc(TLA), "staff".to_string()).is_none());
    parked_business_name(&mut c, "staff");
    let parked = c.get_parked_sub_account(acc(TLA), "staff".to_string()).unwrap();
    assert_eq!(parked.full_name, format!("staff.{TLA}"));
    assert_eq!(parked.tla_id, acc(TLA));
}

#[test]
fn an_allowance_is_for_one_authority_under_one_account() {
    let (c, _) = bound_relay();
    assert_eq!(c.payment_authority_allowance(acc(CAROL), acc(TLA)), Some(50));
    assert_eq!(c.payment_authority_allowance(acc(CAROL), acc("other")), None);
    assert_eq!(c.payment_authority_allowance(acc(BOB), acc(TLA)), None);
}

#[test]
fn a_gated_token_transfer_goes_on_only_from_an_empty_account() {
    let (mut c, _) = deploy_with_open_tla();
    rent_alice_sub(&mut c, "alice");
    c.add_ft_allowlist(&ctx(ADMIN, 1, 2), acc("usdc.testnet")).unwrap();
    let e = ctx(ALICE, 1, 2);
    let asked = c
        .nft_transfer(&e, acc(BOB), format!("alice.{TLA}"), None, Some("hello".to_string()))
        .unwrap();
    let (tokens, rotation) = match (asked.value.call, asked.value.callback) {
        (Call::FtBalances { tokens, account }, Callback::NftBalancesChecked { sub_account, rotation }) => {
            assert_eq!(account, acc_key("alice"));
            assert_eq!(sub_account, acc_key("alice"));
            (tokens, rotation)
        }
        other => panic!("the transfer skipped the balances: {other:?}"),
    };
    assert_eq!(tokens, vec![acc("usdc.testnet")]);
    let again = NftRotation {
        tla_id: rotation.tla_id,
        name: rotation.name.clone(),
        from: rotation.from,
        to: rotation.to,
        memo: rotation.memo.clone(),
        cause: rotation.cause,
    };
    let held = c.nft_on_balances_checked(acc_key("alice"), again, tokens.clone(), vec![Ok(1)]);
    assert!(matches!(held.value, Err(ContractError::SubAccountHoldsTokens)));
    assert!(matches!(held.events[..], [Event::TransferBlockedByBalance { .. }]));
    let clear = c.nft_on_balances_checked(acc_key("alice"), rotation, tokens, vec![Ok(0)]);
    match clear.value.unwrap().call {
        Call::ForceTransfer { wallet, new_owner, expected, .. } => {
            assert_eq!(wallet, acc_key("alice"));
            assert_eq!(new_owner, Some(acc(BOB)));
            assert_eq!(expected, Some(acc(ALICE)));
        }
        other => panic!("an empty account must be handed over: {other:?}"),
    }
}

#[test]
fn a_gated_transfer_call_keeps_its_message() {
    let (mut c, _) = deploy_with_open_tla();
    rent_alice_sub(&mut c, "alice");
    c.add_ft_allowlist(&ctx(ADMIN, 1, 2), acc("usdc.testnet")).unwrap();
    let e = ctx(ALICE, 1, 2);
    let asked = c
        .nft_transfer_call(&e, acc(BOB), format!("alice.{TLA}"), None, None, "hi".to_string())
        .unwrap();
    let call = match asked.value.callback {
        Callback::NftCallBalancesChecked { call, .. } => call,
        other => panic!("the transfer waits for {other:?}"),
    };
    let again = NftTransferCall {
        tla_id: call.tla_id,
        name: call.name.clone(),
        from: call.from,
        to: call.to,
        memo: None,
        msg: call.msg.clone(),
        cause: call.cause,
    };
    let tokens = vec![acc("usdc.testnet")];
    let unknown = c.nft_on_call_balances_checked(
        acc_key("alice"),
        again,
        tokens.clone(),
        vec![Err(PromiseError::Failed)],
    );
    assert!(matches!(unknown.value, Err(ContractError::SubAccountHoldsTokens)));
    let clear = c.nft_on_call_balances_checked(acc_key("alice"), call, tokens, vec![Ok(0)]);
    match clear.value.unwrap().callback {
        Callback::NftRotationResolvedCall(call) => assert_eq!(call.msg, "hi"),
        other => panic!("the message was lost: {other:?}"),
    }
}

#[test]
fn each_decision_is_logged_under_its_own_name() {
    let (mut c, _) = deploy();
    let e = ctx(ADMIN, 1, 1);
    let logged = |r: Result<Reply<()>, ContractError>| r.unwrap().events;
    assert!(matches!(
        logged(c.admin_set_initial_rate(&e, dollars(5)))[..],
        [Event::NearUsdRateUpdated { previous_micro: 0, new_micro: 5_000_000, .. }]
    ));
    assert!(matches!(
        logged(c.set_price_oracle(&e, acc(KEEPER)))[..],
        [Event::PriceOracleUpdated { .. }]
    ));
    assert!(matches!(
        logged(register_open(&e, &mut c, seed_names(2)))[..],
        [Event::TlasRegistered { .. }]
    ));
    assert!(matches!(
        logged(c.activate_open_tlas(&e, seed_names(2)))[..],
        [Event::TlasActivated { .. }]
    ));
    assert!(matches!(logged(c.suspend_tla(&e, acc("seed0")))[..], [Event::TlaSuspended { .. }]));
    assert!(matches!(logged(c.unsuspend_tla(&e, acc("seed0")))[..], [Event::TlaUnsuspended { .. }]));
    assert!(matches!(logged(c.pause(&e))[..], [Event::ContractPaused { .. }]));
    assert!(matches!(logged(c.unpause(&e))[..], [Event::ContractUnpaused { .. }]));
    assert!(matches!(logged(c.pause_marketplace(&e))[..], [Event::MarketplacePaused { .. }]));
    assert!(matches!(logged(c.unpause_marketplace(&e))[..], [Event::MarketplaceUnpaused { .. }]));
    assert!(matches!(logged(c.add_admin(&e, acc(BOB)))[..], [Event::AdminAdded { .. }]));
    assert!(matches!(logged(c.remove_admin(&e, acc(BOB)))[..], [Event::AdminRemoved { .. }]));
    assert!(matches!(logged(c.add_venue(&e, acc("market.testnet")))[..], [Event::VenueAdded { .. }]));
    assert!(matches!(
        logged(c.remove_venue(&e, acc("market.testnet")))[..],
        [Event::VenueRemoved { .. }]
    ));
    assert!(matches!(
        logged(c.add_ft_allowlist(&e, acc("usdc.testnet")))[..],
        [Event::FtAllowlistAdded { .. }]
    ));
    assert!(matches!(
        logged(c.remove_ft_allowlist(&e, acc("usdc.testnet")))[..],
        [Event::FtAllowlistRemoved { .. }]
    ));
    assert!(matches!(
        logged(c.remove_sweepable_token(&e, acc("usdc.testnet")))[..],
        [Event::SweepableTokenRemoved { .. }]
    ));
    assert!(matches!(logged(c.approve_upgrade(&e, hash()))[..], [Event::UpgradeApproved { .. }]));
    assert!(matches!(
        logged(c.approve_council_rotation(&e, acc(NEW_COUNCIL)))[..],
        [Event::CouncilRotationApproved { .. }]
    ));
    assert!(matches!(
        logged(c.cancel_council_rotation(&e))[..],
        [Event::CouncilRotationCancelled { .. }]
    ));
    let config = c.get_fee_config();
    assert!(matches!(logged(c.update_fee_config(&e, config))[..], [Event::FeeConfigUpdated { .. }]));
}

#[test]
fn a_mint_is_logged_as_a_rental_and_as_a_token() {
    let (mut c, _) = deploy_with_open_tla();
    let rent = rent_near_open(&c, "alice");
    let total = rent + c.get_fee_config().account_creation_deposit_yocto;
    let e = ctx(ALICE, total, 1);
    c.rent_sub_account(&e, acc(TLA), "alice".to_string(), None).unwrap();
    let (back, _) = ctx_callback(true);
    let events = c
        .on_sub_account_created(&back, settled("alice", ALICE, ALICE, rent, total), Ok(MintOutcome::Active))
        .unwrap();
    assert!(events
        .iter()
        .any(|event| matches!(event, Event::SubAccountRented { rent_yocto, .. } if *rent_yocto == rent)));
    assert!(events
        .iter()
        .any(|event| matches!(event, Event::NftMint { token_id, .. } if *token_id == acc_key("alice"))));
}

#[test]
fn a_reclaimed_name_is_logged_as_reclaimed_and_burned() {
    let (mut c, _) = deploy_with_business_tla();
    rent_business_sub(&mut c, "staff");
    let (back, _) = ctx_callback(true);
    let events = c
        .on_reclaim_finalized(&back, acc(TLA), "staff".to_string(), acc(ALICE), Ok(true));
    assert!(events.iter().any(|event| matches!(event, Event::SubAccountReclaimed { .. })));
    assert!(events.iter().any(|event| matches!(event, Event::NftBurn { .. })));
}

#[test]
fn what_is_counted_is_what_is_listed() {
    let (mut c, _) = deploy_with_business_tla();
    let listed = |c: &TlaRegistry| c.list_sub_accounts_by_tla(&ctx(ADMIN, 1, 1), acc(TLA), 0, 100).len() as u32;
    assert_eq!(c.get_business_sub_count(acc(TLA)), listed(&c));
    for name in ["one", "two", "three"] {
        rent_business_sub(&mut c, name);
        assert_eq!(c.get_business_sub_count(acc(TLA)), listed(&c));
    }
    let (e, _) = ctx_callback(true);
    c.on_reclaim_finalized(&e, acc(TLA), "two".to_string(), acc(ALICE), Ok(true));
    assert_eq!(c.get_business_sub_count(acc(TLA)), 2);
    assert_eq!(listed(&c), 2);
}

#[test]
fn the_pages_of_an_owner_join_without_a_gap() {
    let (mut c, _) = deploy_with_open_tla();
    let names = ["one", "two", "three", "four", "five"];
    for name in names {
        rent_alice_sub(&mut c, name);
    }
    let mut seen: Vec<String> = Vec::new();
    let mut from: Option<String> = None;
    loop {
        let page = c
            .nft_tokens_for_owner_page(acc(ALICE), from, Some(2))
            .unwrap();
        assert!(!page.tokens.is_empty());
        seen.extend(page.tokens.into_iter().map(|token| token.token_id.text()));
        match page.next {
            Some(next) => from = Some(next.text()),
            None => break,
        }
    }
    let all: Vec<String> = names.iter().map(|name| format!("{name}.{TLA}")).collect();
    assert_eq!(seen, all);
}

#[test]
fn a_name_leaves_its_venue_through_everything() {
    let (mut c, _) = deploy_with_open_tla();
    rent_alice_sub(&mut c, "alice");
    c.add_venue(&ctx(ADMIN, 1, 2), acc("market.testnet")).unwrap();
    c.add_ft_allowlist(&ctx(ADMIN, 1, 2), acc("usdc.testnet")).unwrap();
    let (back, _) = ctx_callback(true);
    c.nft_on_rotation_resolved(
        &back,
        NftRotation {
            tla_id: acc(TLA),
            name: "alice".to_string(),
            from: acc(ALICE),
            to: acc("market.testnet"),
            memo: None,
            cause: RotationCause::Deposit,
        },
        Ok(true),
    )
    .unwrap();
    assert_eq!(payout_of(&back, &c, "alice"), acc(ALICE));
    let late = c.tlas.get(&acc(TLA)).unwrap().expires_at + 2 * GRACE_NS;
    c.suspend_tla(&ctx(ADMIN, 1, 3), acc(TLA)).unwrap();
    c.pause(&ctx(ADMIN, 1, late)).unwrap();
    c.pause_marketplace(&ctx(ADMIN, 1, late)).unwrap();
    let out = c
        .nft_transfer(&ctx("market.testnet", 1, late + 1), acc(BOB), format!("alice.{TLA}"), None, None)
        .unwrap();
    assert!(matches!(out.value.call, Call::ForceTransfer { .. }));
}
