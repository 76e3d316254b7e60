//! The registry's state, who may call it, its rate, its pause and what it owes.
use vstd::prelude::*;

use crate::account::AccountId;
use crate::activity::ActivityFeed;
use crate::common::MAX_AUTHORITY_HOLD_NS;
use crate::error::{ContractError, InitError};
use crate::events::{Event, RefundReason};
use crate::fees::default_fee_config;
use crate::host::{logged, quiet, Call, Callback, Dispatch, Env, Reply};
use crate::indexes::NameIndex;
use crate::nft::initial_metadata;
use crate::ordered::{OrderedMap, OrderedSet};
use crate::pricing::{quote_with_slippage, rate_is_usable, rate_within_bounds, usd_micro_to_near_yocto, MAX_USD_MICRO};
use crate::types::{
    FeeConfig, LifecycleClock, NftContractMetadata, PaidOrderState, ParkedEntry,
    RateMetaView, SubAccountEntry, TlaEntry, TlaTerms, ONE_YEAR_NS,
};

verus! {

pub const CONTRACT_VERSION: u8 = 1;

/// The version of the state's layout.
pub const STATE_VERSION: u16 = 5;

/// One minute.
pub const MIN_GRACE_PERIOD_NS: u64 = 60_000_000_000;

/// One minute.
pub const MIN_LEASE_TERM_NS: u64 = 60_000_000_000;

/// Ten years.
pub const MAX_LEASE_TERM_NS: u64 = 315_360_000_000_000_000;

/// The lease term of a production deployment: one year.
pub const PRODUCTION_LEASE_TERM_NS: u64 = ONE_YEAR_NS;

/// The grace period of a production deployment: thirty days.
pub const PRODUCTION_GRACE_PERIOD_NS: u64 = 2_592_000_000_000_000;

/// The delay between approving an upgrade or a council and putting it in place: two days.
pub const UPGRADE_DELAY_NS: u64 = 172_800_000_000_000;

pub const CLAIM_REFUND_CB_TGAS: u64 = 10;

pub struct TlaRegistry {
    pub state_version: u16,
    pub tlas: OrderedMap<AccountId, TlaEntry>,
    pub sub_accounts: OrderedMap<AccountId, SubAccountEntry>,
    pub sub_accounts_by_owner: NameIndex,
    pub sub_accounts_by_tla: NameIndex,
    pub recent_activity: ActivityFeed,
    pub admins: OrderedSet<AccountId>,
    pub fee_config: FeeConfig,
    pub total_revenue: u128,
    pub sub_account_count: u64,
    pub paused: bool,
    pub version: u8,
    pub pending_refunds: OrderedMap<AccountId, u128>,
    pub total_pending_refunds: u128,
    pub ft_allowlist: OrderedSet<AccountId>,
    pub business_sub_count: OrderedMap<AccountId, u32>,
    pub business_sub_cap_override: OrderedMap<AccountId, u32>,
    pub tla_terms: OrderedMap<AccountId, TlaTerms>,
    pub parked_names: OrderedMap<String, ParkedEntry>,
    pub reclaim_pending: OrderedSet<AccountId>,
    pub payment_authorities: OrderedSet<AccountId>,
    pub recovery_authorities: OrderedSet<AccountId>,
    pub authority_allowances: OrderedMap<(AccountId, AccountId), u64>,
    pub authority_mints: OrderedMap<(AccountId, AccountId), u64>,
    pub hos_extension: AccountId,
    pub grace_period_ns: u64,
    pub lease_term_ns: u64,
    pub price_oracle: AccountId,
    pub near_usd_rate_micro: u128,
    pub rate_updated_at: u64,
    pub rate_sequence: u64,
    pub treasury: AccountId,
    pub council: AccountId,
    pub marketplace_paused: bool,
    pub paused_until_ns: u64,
    pub unpaused_at: u64,
    pub sweepable_tokens: OrderedSet<AccountId>,
    pub suspended_until: OrderedMap<AccountId, u64>,
    pub nft_contract_metadata: NftContractMetadata,
    pub approved_code_hash: Option<[u8; 32]>,
    pub approved_at: Option<u64>,
    pub upgrade_delay_ns: u64,
    pub venues: OrderedSet<AccountId>,
    pub upgrade_proven: bool,
    pub paid_order_ids: OrderedMap<String, PaidOrderState>,
    pub pending_council: Option<AccountId>,
    pub pending_council_at: Option<u64>,
    pub pending_treasury: Option<AccountId>,
}

/// What `account` is owed once `amount` is added.
pub open spec fn owed_after(
    refunds: crate::ordered::OrderedView<AccountId, u128>,
    account: AccountId,
    amount: u128,
) -> crate::ordered::OrderedView<AccountId, u128> {
    let existing = if refunds.has(account) {
        refunds[account]
    } else {
        0
    };
    refunds.insert(account, crate::common::capped_u128(existing + amount))
}

/// What is owed once `payer` gets back whatever `attached` exceeds `charged` by.
pub open spec fn owed_after_excess(
    refunds: crate::ordered::OrderedView<AccountId, u128>,
    payer: AccountId,
    attached: u128,
    charged: u128,
) -> crate::ordered::OrderedView<AccountId, u128> {
    if attached > charged {
        owed_after(refunds, payer, (attached - charged) as u128)
    } else {
        refunds
    }
}

pub open spec fn excess(attached: u128, charged: u128) -> int {
    crate::common::floored(attached as int, charged as int)
}

/// What stands in the way of setting a registry up.
pub open spec fn init_refusal(env: Env, hos_extension: AccountId, grace_period_ns: u64, council: AccountId, lease_term_ns: Option<u64>) -> Option<InitError> {
    let term = if let Some(t) = lease_term_ns {
        t
    } else {
        PRODUCTION_LEASE_TERM_NS
    };
    if grace_period_ns < MIN_GRACE_PERIOD_NS {
        Some(InitError::GracePeriodTooShort)
    } else if term < MIN_LEASE_TERM_NS {
        Some(InitError::LeaseTermTooShort)
    } else if term > MAX_LEASE_TERM_NS {
        Some(InitError::LeaseTermTooLong)
    } else if council == env.current {
        Some(InitError::CouncilIsRegistry)
    } else if hos_extension == env.current {
        Some(InitError::WiringPointsAtRegistry)
    } else {
        None
    }
}

impl TlaRegistry {
    /// The fee configuration keeps prices and rate moves within a machine word.
    pub open spec fn wf(self) -> bool {
        &&& self.fee_config.quote_slippage_bps <= crate::pricing::BPS_DENOMINATOR
        &&& self.fee_config.max_near_usd_rate_micro <= crate::pricing::MAX_NEAR_USD_RATE_MICRO
    }

    /// Nothing has been registered, rented, owed or approved yet.
    pub open spec fn untouched(self) -> bool {
        &&& self.tlas@ == crate::ordered::OrderedView::<AccountId, TlaEntry>::empty()
        &&& self.sub_accounts@ == crate::ordered::OrderedView::<AccountId, SubAccountEntry>::empty()
        &&& self.sub_accounts_by_owner@ == Map::<AccountId, Seq<AccountId>>::empty()
        &&& self.sub_accounts_by_tla@ == Map::<AccountId, Seq<AccountId>>::empty()
        &&& self.recent_activity@ == Seq::<crate::types::ActivityRecord>::empty()
        &&& self.total_revenue == 0
        &&& self.sub_account_count == 0
        &&& !self.paused
        &&& self.pending_refunds@ == crate::ordered::OrderedView::<AccountId, u128>::empty()
        &&& self.total_pending_refunds == 0
        &&& self.ft_allowlist@ == crate::ordered::OrderedView::<AccountId, ()>::empty()
        &&& self.business_sub_count@ == crate::ordered::OrderedView::<AccountId, u32>::empty()
        &&& self.business_sub_cap_override@ == crate::ordered::OrderedView::<AccountId, u32>::empty()
        &&& self.tla_terms@ == crate::ordered::OrderedView::<AccountId, TlaTerms>::empty()
        &&& self.parked_names@ == crate::ordered::OrderedView::<Seq<char>, ParkedEntry>::empty()
        &&& self.reclaim_pending@ == crate::ordered::OrderedView::<AccountId, ()>::empty()
        &&& self.payment_authorities@ == crate::ordered::OrderedView::<AccountId, ()>::empty()
        &&& self.recovery_authorities@ == crate::ordered::OrderedView::<AccountId, ()>::empty()
        &&& self.authority_allowances@ == crate::ordered::OrderedView::<(AccountId, AccountId), u64>::empty()
        &&& self.authority_mints@ == crate::ordered::OrderedView::<(AccountId, AccountId), u64>::empty()
        &&& self.near_usd_rate_micro == 0
        &&& self.rate_updated_at == 0
        &&& self.rate_sequence == 0
        &&& !self.marketplace_paused
        &&& self.paused_until_ns == 0
        &&& self.unpaused_at == 0
        &&& self.sweepable_tokens@ == crate::ordered::OrderedView::<AccountId, ()>::empty()
        &&& self.suspended_until@ == crate::ordered::OrderedView::<AccountId, u64>::empty()
        &&& self.approved_code_hash is None
        &&& self.approved_at is None
        &&& self.venues@ == crate::ordered::OrderedView::<AccountId, ()>::empty()
        &&& !self.upgrade_proven
        &&& self.paid_order_ids@ == crate::ordered::OrderedView::<Seq<char>, PaidOrderState>::empty()
        &&& self.pending_council is None
        &&& self.pending_council_at is None
        &&& self.pending_treasury is None
    }

    pub fn new(
        env: &Env,
        admin: AccountId,
        hos_extension: AccountId,
        grace_period_ns: u64,
        treasury: AccountId,
        council: AccountId,
        lease_term_ns: Option<u64>,
    ) -> (r: Result<TlaRegistry, InitError>)
        ensures
            match init_refusal(*env, hos_extension, grace_period_ns, council, lease_term_ns) {
                Some(e) => r == Err::<TlaRegistry, _>(e),
                None => {
                    &&& r matches Ok(registry)
                    &&& registry.wf()
                    &&& registry.untouched()
                    &&& registry.state_version == STATE_VERSION
                    &&& registry.version == CONTRACT_VERSION
                    &&& registry.admins@ == crate::ordered::OrderedView::<AccountId, ()>::empty().insert(admin, ())
                    &&& registry.fee_config == crate::fees::launch_fees()
                    &&& registry.hos_extension == hos_extension
                    &&& registry.grace_period_ns == grace_period_ns
                    &&& registry.lease_term_ns == (if let Some(t) = lease_term_ns {
                        t
                    } else {
                        PRODUCTION_LEASE_TERM_NS
                    })
                    &&& registry.price_oracle == admin
                    &&& registry.treasury == treasury
                    &&& registry.council == council
                    &&& registry.upgrade_delay_ns == UPGRADE_DELAY_NS
                    &&& crate::nft::is_initial_metadata(registry.nft_contract_metadata, env.current)
                },
            },
    {
        if grace_period_ns < MIN_GRACE_PERIOD_NS {
            return Err(InitError::GracePeriodTooShort);
        }
        let term: u64 = match lease_term_ns {
            Some(t) => t,
            None => PRODUCTION_LEASE_TERM_NS,
        };
        if term < MIN_LEASE_TERM_NS {
            return Err(InitError::LeaseTermTooShort);
        }
        if term > MAX_LEASE_TERM_NS {
            return Err(InitError::LeaseTermTooLong);
        }
        if council == env.current {
            return Err(InitError::CouncilIsRegistry);
        }
        if hos_extension == env.current {
            return Err(InitError::WiringPointsAtRegistry);
        }
        let mut admins: OrderedSet<AccountId> = OrderedMap::new();
        admins.insert(admin, ());
        Ok(
            TlaRegistry {
                state_version: STATE_VERSION,
                tlas: OrderedMap::new(),
                sub_accounts: OrderedMap::new(),
                sub_accounts_by_owner: NameIndex::new(),
                sub_accounts_by_tla: NameIndex::new(),
                recent_activity: ActivityFeed::new(),
                admins,
                fee_config: default_fee_config(),
                total_revenue: 0,
                sub_account_count: 0,
                paused: false,
                version: CONTRACT_VERSION,
                pending_refunds: OrderedMap::new(),
                total_pending_refunds: 0,
                ft_allowlist: OrderedMap::new(),
                business_sub_count: OrderedMap::new(),
                business_sub_cap_override: OrderedMap::new(),
                tla_terms: OrderedMap::new(),
                parked_names: OrderedMap::new(),
                reclaim_pending: OrderedMap::new(),
                payment_authorities: OrderedMap::new(),
                recovery_authorities: OrderedMap::new(),
                authority_allowances: OrderedMap::new(),
                authority_mints: OrderedMap::new(),
                hos_extension,
                grace_period_ns,
                lease_term_ns: term,
                price_oracle: admin,
                near_usd_rate_micro: 0,
                rate_updated_at: 0,
                rate_sequence: 0,
                treasury,
                council,
                marketplace_paused: false,
                paused_until_ns: 0,
                unpaused_at: 0,
                sweepable_tokens: OrderedMap::new(),
                suspended_until: OrderedMap::new(),
                nft_contract_metadata: initial_metadata(env),
                approved_code_hash: None,
                approved_at: None,
                upgrade_delay_ns: UPGRADE_DELAY_NS,
                venues: OrderedMap::new(),
                upgrade_proven: false,
                paid_order_ids: OrderedMap::new(),
                pending_council: None,
                pending_council_at: None,
                pending_treasury: None,
            },
        )
    }

    // ---- who may call -------------------------------------------------------------------------

    pub open spec fn is_admin(self, account: AccountId) -> bool {
        self.admins@.has(account)
    }

    pub(crate) fn assert_admin(&self, env: &Env) -> (r: Result<(), ContractError>)
        ensures
            r == (if self.is_admin(env.predecessor) {
                Ok(())
            } else {
                Err(ContractError::OnlyAdmin)
            }),
    {
        if !self.admins.contains_key(&env.predecessor) {
            return Err(ContractError::OnlyAdmin);
        }
        Ok(())
    }

    pub(crate) fn assert_council(&self, env: &Env) -> (r: Result<(), ContractError>)
        ensures
            r == (if self.council == env.predecessor {
                Ok(())
            } else {
                Err(ContractError::OnlyCouncil)
            }),
    {
        if env.predecessor != self.council {
            return Err(ContractError::OnlyCouncil);
        }
        Ok(())
    }

    pub(crate) fn assert_payment_authority(&self, env: &Env) -> (r: Result<AccountId, ContractError>)
        ensures
            r == (if self.payment_authorities@.has(env.predecessor) {
                Ok(env.predecessor)
            } else {
                Err(ContractError::OnlyPaymentAuthority)
            }),
    {
        if !self.payment_authorities.contains_key(&env.predecessor) {
            return Err(ContractError::OnlyPaymentAuthority);
        }
        Ok(env.predecessor)
    }

    pub(crate) fn assert_recovery_authority(&self, env: &Env) -> (r: Result<AccountId, ContractError>)
        ensures
            r == (if self.recovery_authorities@.has(env.predecessor) {
                Ok(env.predecessor)
            } else {
                Err(ContractError::OnlyRecoveryAuthority)
            }),
    {
        if !self.recovery_authorities.contains_key(&env.predecessor) {
            return Err(ContractError::OnlyRecoveryAuthority);
        }
        Ok(env.predecessor)
    }

    pub(crate) fn assert_not_paused(&self, env: &Env) -> (r: Result<(), ContractError>)
        ensures
            r == (if self.paused_at(env.now) {
                Err(ContractError::Paused)
            } else {
                Ok(())
            }),
    {
        if self.effective_paused(env) {
            return Err(ContractError::Paused);
        }
        Ok(())
    }

    pub(crate) fn assert_marketplace_open(&self) -> (r: Result<(), ContractError>)
        ensures
            r == (if self.marketplace_paused {
                Err(ContractError::MarketplacePaused)
            } else {
                Ok(())
            }),
    {
        if self.marketplace_paused {
            return Err(ContractError::MarketplacePaused);
        }
        Ok(())
    }

    // ---- the rate -----------------------------------------------------------------------------

    pub open spec fn initial_rate_refusal(self, env: Env, rate: u128) -> Option<ContractError> {
        if env.deposit != 1 {
            Some(ContractError::RequiresOneYocto)
        } else if env.predecessor != self.council {
            Some(ContractError::OnlyCouncil)
        } else if self.near_usd_rate_micro != 0 {
            Some(ContractError::RateAlreadyInitialized)
        } else if rate < self.fee_config.min_near_usd_rate_micro || rate > self.fee_config.max_near_usd_rate_micro {
            Some(ContractError::RateOutOfBounds)
        } else {
            None
        }
    }

    /// The state once `rate` is in place.
    pub open spec fn with_rate(self, env: Env, rate: u128) -> TlaRegistry {
        TlaRegistry {
            near_usd_rate_micro: rate,
            rate_updated_at: env.now,
            rate_sequence: crate::common::capped_u64(self.rate_sequence + 1),
            ..self
        }
    }

    pub open spec fn rate_event(self, env: Env, rate: u128) -> Event {
        Event::NearUsdRateUpdated {
            previous_micro: self.near_usd_rate_micro,
            new_micro: rate,
            sequence: crate::common::capped_u64(self.rate_sequence + 1),
            by: env.predecessor,
        }
    }

    pub fn admin_set_initial_rate(&mut self, env: &Env, rate: u128) -> (r: Result<Reply<()>, ContractError>)
        ensures
            match old(self).initial_rate_refusal(*env, rate) {
                Some(e) => r == Err::<Reply<()>, _>(e) && *final(self) == *old(self),
                None => {
                    &&& r matches Ok(reply)
                    &&& reply.events@ == seq![old(self).rate_event(*env, rate)]
                    &&& *final(self) == old(self).with_rate(*env, rate)
                },
            },
    {
        assert_one_yocto(env)?;
        self.assert_council(env)?;
        if self.near_usd_rate_micro != 0 {
            return Err(ContractError::RateAlreadyInitialized);
        }
        if rate < self.fee_config.min_near_usd_rate_micro || rate > self.fee_config.max_near_usd_rate_micro {
            return Err(ContractError::RateOutOfBounds);
        }
        let event = self.commit_rate(env, rate);
        Ok(logged((), event))
    }

    pub open spec fn rate_refusal(self, env: Env, rate: u128) -> Option<ContractError> {
        if env.predecessor != self.price_oracle {
            Some(ContractError::OnlyPriceOracle)
        } else if self.near_usd_rate_micro == 0 {
            Some(ContractError::RateNotInitialized)
        } else if env.now < crate::common::capped_u64(self.rate_updated_at + self.fee_config.rate_update_cooldown_ns) {
            Some(ContractError::RateCooldown)
        } else if !crate::pricing::rate_move_allowed(
            self.near_usd_rate_micro as int,
            rate as int,
            self.fee_config.max_rate_move_bps as int,
            self.fee_config.min_near_usd_rate_micro as int,
            self.fee_config.max_near_usd_rate_micro as int,
        ) {
            Some(ContractError::RateOutOfBounds)
        } else {
            None
        }
    }

    pub open spec fn rate_in_band(self) -> bool {
        crate::pricing::in_band(
            self.near_usd_rate_micro as int,
            self.fee_config.min_near_usd_rate_micro as int,
            self.fee_config.max_near_usd_rate_micro as int,
        )
    }

    pub fn set_near_usd_rate(&mut self, env: &Env, rate: u128) -> (r: Result<Reply<()>, ContractError>)
        requires
            old(self).wf(),
        ensures
            match old(self).rate_refusal(*env, rate) {
                Some(e) => r == Err::<Reply<()>, _>(e) && *final(self) == *old(self),
                None => {
                    &&& r matches Ok(reply)
                    &&& reply.events@ == (if old(self).rate_in_band() {
                        seq![old(self).rate_event(*env, rate)]
                    } else {
                        seq![
                            Event::RateRecoveredFromOutOfBand {
                                stranded_micro: old(self).near_usd_rate_micro,
                                new_micro: rate,
                                by: env.predecessor,
                            },
                            old(self).rate_event(*env, rate),
                        ]
                    })
                    &&& *final(self) == old(self).with_rate(*env, rate)
                },
            },
    {
        if env.predecessor != self.price_oracle {
            return Err(ContractError::OnlyPriceOracle);
        }
        if self.near_usd_rate_micro == 0 {
            return Err(ContractError::RateNotInitialized);
        }
        if env.now < self.rate_updated_at.saturating_add(self.fee_config.rate_update_cooldown_ns) {
            return Err(ContractError::RateCooldown);
        }
        let floor: u128 = self.fee_config.min_near_usd_rate_micro;
        let ceiling: u128 = self.fee_config.max_near_usd_rate_micro;
        let previous: u128 = self.near_usd_rate_micro;
        let move_bps: u16 = self.fee_config.max_rate_move_bps;
        proof {
            if previous <= ceiling && move_bps <= 10_000 {
                assert(previous * (10_000 + move_bps) <= 20_000_000_000_000_000) by (nonlinear_arith)
                    requires
                        previous <= 1_000_000_000_000,
                        move_bps <= 10_000,
                ;
            }
        }
        if !rate_within_bounds(previous, rate, move_bps, floor, ceiling) {
            return Err(ContractError::RateOutOfBounds);
        }
        let mut events: Vec<Event> = Vec::new();
        if !rate_is_usable(previous, floor, ceiling) {
            events.push(
                Event::RateRecoveredFromOutOfBand { stranded_micro: previous, new_micro: rate, by: env.predecessor },
            );
        }
        events.push(self.commit_rate(env, rate));
        assert(old(self).rate_in_band() ==> events@ =~= seq![old(self).rate_event(*env, rate)]);
        Ok(Reply { value: (), events })
    }

    fn commit_rate(&mut self, env: &Env, new: u128) -> (event: Event)
        ensures
            event == old(self).rate_event(*env, new),
            *final(self) == old(self).with_rate(*env, new),
    {
        let previous: u128 = self.near_usd_rate_micro;
        self.near_usd_rate_micro = new;
        self.rate_updated_at = env.now;
        self.rate_sequence = self.rate_sequence.saturating_add(1);
        Event::NearUsdRateUpdated {
            previous_micro: previous,
            new_micro: new,
            sequence: self.rate_sequence,
            by: env.predecessor,
        }
    }

    pub fn set_price_oracle(&mut self, env: &Env, account: AccountId) -> (r: Result<Reply<()>, ContractError>)
        ensures
            match council_refusal(*env, old(self).council) {
                Some(e) => r == Err::<Reply<()>, _>(e) && *final(self) == *old(self),
                None => {
                    &&& r matches Ok(reply)
                    &&& reply.events@ == seq![Event::PriceOracleUpdated { account, by: env.predecessor }]
                    &&& *final(self) == (TlaRegistry { price_oracle: account, ..*old(self) })
                },
            },
    {
        assert_one_yocto(env)?;
        self.assert_council(env)?;
        self.price_oracle = account;
        Ok(logged((), Event::PriceOracleUpdated { account, by: env.predecessor }))
    }

    pub fn get_near_usd_rate(&self) -> (r: u128)
        ensures
            r == self.near_usd_rate_micro,
    {
        self.near_usd_rate_micro
    }

    pub fn get_rate_meta(&self) -> (r: RateMetaView)
        ensures
            r == (RateMetaView { updated_at: self.rate_updated_at, sequence: self.rate_sequence }),
    {
        RateMetaView { updated_at: self.rate_updated_at, sequence: self.rate_sequence }
    }

    pub fn get_price_oracle(&self) -> (r: AccountId)
        ensures
            r == self.price_oracle,
    {
        self.price_oracle
    }

    /// Why no price can be computed now, if none can.
    pub open spec fn price_refusal(self, now: u64, usd_micro: u128) -> Option<ContractError> {
        if self.near_usd_rate_micro == 0 {
            Some(ContractError::RateNotInitialized)
        } else if !self.rate_in_band() {
            Some(ContractError::RateOutOfBounds)
        } else if crate::common::floored(now as int, self.rate_updated_at as int) > self.fee_config.max_rate_age_ns {
            Some(ContractError::RateStale)
        } else if usd_micro > MAX_USD_MICRO {
            Some(ContractError::FeeExceedsCap)
        } else {
            None
        }
    }

    /// A dollar amount in yocto at the stored rate.
    pub open spec fn price_of(self, usd_micro: u128) -> u128 {
        crate::pricing::near_price(usd_micro as int, self.near_usd_rate_micro as int) as u128
    }

    /// The price with its slippage allowance.
    pub open spec fn quote_of(self, usd_micro: u128) -> u128 {
        crate::pricing::with_slippage(self.price_of(usd_micro) as int, self.fee_config.quote_slippage_bps as int) as u128
    }

    pub(crate) fn convert_usd_to_near(&self, env: &Env, usd_micro: u128) -> (r: Result<u128, ContractError>)
        ensures
            match self.price_refusal(env.now, usd_micro) {
                Some(e) => r == Err::<u128, _>(e),
                None => r == Ok::<_, ContractError>(self.price_of(usd_micro)) && self.price_of(usd_micro)
                    == crate::pricing::near_price(usd_micro as int, self.near_usd_rate_micro as int) && self.price_of(
                    usd_micro,
                ) <= 100_000_000_000_000_000_000_000_000_000_000_000_000,
            },
    {
        let rate: u128 = self.near_usd_rate_micro;
        if rate == 0 {
            return Err(ContractError::RateNotInitialized);
        }
        if rate < self.fee_config.min_near_usd_rate_micro || rate > self.fee_config.max_near_usd_rate_micro {
            return Err(ContractError::RateOutOfBounds);
        }
        if env.now.saturating_sub(self.rate_updated_at) > self.fee_config.max_rate_age_ns {
            return Err(ContractError::RateStale);
        }
        if usd_micro > MAX_USD_MICRO {
            return Err(ContractError::FeeExceedsCap);
        }
        let price: u128 = usd_micro_to_near_yocto(usd_micro, rate);
        proof {
            let n = usd_micro * crate::pricing::YOCTO_PER_NEAR;
            assert(n / (rate as int) <= n) by (nonlinear_arith)
                requires
                    n >= 0,
                    rate >= 1,
            ;
        }
        Ok(price)
    }

    pub(crate) fn quote_usd_to_near(&self, env: &Env, usd_micro: u128) -> (r: Result<u128, ContractError>)
        requires
            self.wf(),
        ensures
            match self.price_refusal(env.now, usd_micro) {
                Some(e) => r == Err::<u128, _>(e),
                None => r == Ok::<_, ContractError>(self.quote_of(usd_micro)) && self.quote_of(usd_micro)
                    == crate::pricing::with_slippage(
                    self.price_of(usd_micro) as int,
                    self.fee_config.quote_slippage_bps as int,
                ),
            },
    {
        let required: u128 = self.convert_usd_to_near(env, usd_micro)?;
        let bps: u16 = self.fee_config.quote_slippage_bps;
        assert(required * bps <= 1_000_000_000_000_000_000_000_000_000_000_000_000_000_000) by (nonlinear_arith)
            requires
                required <= 100_000_000_000_000_000_000_000_000_000_000_000_000,
                bps <= 10_000,
        ;
        Ok(quote_with_slippage(required, bps))
    }

    // ---- the pause ----------------------------------------------------------------------------

    /// A pause holds until it is lifted or lapses.
    pub open spec fn paused_at(self, now: u64) -> bool {
        self.paused && now < self.paused_until_ns
    }

    pub(crate) fn effective_paused(&self, env: &Env) -> (r: bool)
        ensures
            r == self.paused_at(env.now),
    {
        self.paused && env.now < self.paused_until_ns
    }

    pub fn pause(&mut self, env: &Env) -> (r: Result<Reply<()>, ContractError>)
        ensures
            if old(self).is_admin(env.predecessor) {
                &&& r matches Ok(reply)
                &&& reply.events@ == seq![Event::ContractPaused { by: env.predecessor }]
                &&& *final(self) == (TlaRegistry {
                    paused: true,
                    paused_until_ns: crate::common::capped_u64(env.now + MAX_AUTHORITY_HOLD_NS),
                    ..*old(self)
                })
            } else {
                r == Err::<Reply<()>, _>(ContractError::OnlyAdmin) && *final(self) == *old(self)
            },
    {
        self.assert_admin(env)?;
        self.paused = true;
        self.paused_until_ns = env.now.saturating_add(MAX_AUTHORITY_HOLD_NS);
        Ok(logged((), Event::ContractPaused { by: env.predecessor }))
    }

    pub fn unpause(&mut self, env: &Env) -> (r: Result<Reply<()>, ContractError>)
        ensures
            if old(self).is_admin(env.predecessor) {
                &&& r matches Ok(reply)
                &&& reply.events@ == seq![Event::ContractUnpaused { by: env.predecessor }]
                &&& *final(self) == (TlaRegistry {
                    paused: false,
                    paused_until_ns: 0,
                    unpaused_at: env.now,
                    ..*old(self)
                })
            } else {
                r == Err::<Reply<()>, _>(ContractError::OnlyAdmin) && *final(self) == *old(self)
            },
    {
        self.assert_admin(env)?;
        self.end_pause(env);
        Ok(logged((), Event::ContractUnpaused { by: env.predecessor }))
    }

    fn end_pause(&mut self, env: &Env)
        ensures
            *final(self) == (TlaRegistry { paused: false, paused_until_ns: 0, unpaused_at: env.now, ..*old(self) }),
    {
        self.paused = false;
        self.paused_until_ns = 0;
        self.unpaused_at = env.now;
    }

    pub fn pause_marketplace(&mut self, env: &Env) -> (r: Result<Reply<()>, ContractError>)
        ensures
            if old(self).is_admin(env.predecessor) {
                &&& r matches Ok(reply)
                &&& reply.events@ == seq![Event::MarketplacePaused { by: env.predecessor }]
                &&& *final(self) == (TlaRegistry { marketplace_paused: true, ..*old(self) })
            } else {
                r == Err::<Reply<()>, _>(ContractError::OnlyAdmin) && *final(self) == *old(self)
            },
    {
        self.assert_admin(env)?;
        self.marketplace_paused = true;
        Ok(logged((), Event::MarketplacePaused { by: env.predecessor }))
    }

    pub fn unpause_marketplace(&mut self, env: &Env) -> (r: Result<Reply<()>, ContractError>)
        ensures
            if old(self).is_admin(env.predecessor) {
                &&& r matches Ok(reply)
                &&& reply.events@ == seq![Event::MarketplaceUnpaused { by: env.predecessor }]
                &&& *final(self) == (TlaRegistry { marketplace_paused: false, ..*old(self) })
            } else {
                r == Err::<Reply<()>, _>(ContractError::OnlyAdmin) && *final(self) == *old(self)
            },
    {
        self.assert_admin(env)?;
        self.marketplace_paused = false;
        Ok(logged((), Event::MarketplaceUnpaused { by: env.predecessor }))
    }

    pub fn is_marketplace_paused(&self) -> (r: bool)
        ensures
            r == self.marketplace_paused,
    {
        self.marketplace_paused
    }

    pub fn is_paused(&self, env: &Env) -> (r: bool)
        ensures
            r == self.paused_at(env.now),
    {
        self.effective_paused(env)
    }

    pub fn get_pause_expiry(&self, env: &Env) -> (r: u64)
        ensures
            r == (if self.paused_at(env.now) {
                self.paused_until_ns
            } else {
                0
            }),
    {
        if self.effective_paused(env) {
            self.paused_until_ns
        } else {
            0
        }
    }

    /// Nothing may be reclaimed while a pause holds, nor for a grace period after it ended.
    pub open spec fn reclaim_floor(self, now: u64) -> u64 {
        if self.paused_at(now) {
            u64::MAX
        } else {
            crate::common::capped_u64(
                (if self.paused {
                    self.paused_until_ns
                } else {
                    self.unpaused_at
                }) + self.grace_period_ns,
            )
        }
    }

    fn reclaim_floor_ns(&self, env: &Env) -> (r: u64)
        ensures
            r == self.reclaim_floor(env.now),
    {
        if self.effective_paused(env) {
            return u64::MAX;
        }
        let ended_at: u64 = if self.paused {
            self.paused_until_ns
        } else {
            self.unpaused_at
        };
        ended_at.saturating_add(self.grace_period_ns)
    }

    pub open spec fn clock_at(self, now: u64) -> LifecycleClock {
        LifecycleClock { grace_period_ns: self.grace_period_ns, reclaim_floor_ns: self.reclaim_floor(now) }
    }

    pub(crate) fn clock(&self, env: &Env) -> (r: LifecycleClock)
        ensures
            r == self.clock_at(env.now),
    {
        LifecycleClock { grace_period_ns: self.grace_period_ns, reclaim_floor_ns: self.reclaim_floor_ns(env) }
    }

    /// When a top level account's suspension lapses; zero where it has none.
    pub open spec fn suspension_of(self, tla_id: AccountId) -> u64 {
        if self.suspended_until@.has(tla_id) {
            self.suspended_until@[tla_id]
        } else {
            0
        }
    }

    pub(crate) fn suspension_expiry(&self, tla_id: &AccountId) -> (r: u64)
        ensures
            r == self.suspension_of(*tla_id),
    {
        match self.suspended_until.get(tla_id) {
            Some(until) => *until,
            None => 0,
        }
    }

    pub fn get_suspension_expiry(&self, tla_id: AccountId) -> (r: u64)
        ensures
            r == self.suspension_of(tla_id),
    {
        self.suspension_expiry(&tla_id)
    }

    // ---- refunds ------------------------------------------------------------------------------

    pub open spec fn refund_of(self, account: AccountId) -> u128 {
        if self.pending_refunds@.has(account) {
            self.pending_refunds@[account]
        } else {
            0
        }
    }

    /// The payout is limited to what the account may spend; a refund leaves the ledger when it is
    /// paid.
    pub fn claim_refund(&mut self, env: &Env) -> (r: Result<Reply<Dispatch>, ContractError>)
        ensures
            ({
                let amount = old(self).refund_of(env.predecessor);
                if amount == 0 {
                    r == Err::<Reply<Dispatch>, _>(ContractError::NoPendingRefund) && *final(self) == *old(self)
                } else if amount > env.spendable() {
                    r == Err::<Reply<Dispatch>, _>(ContractError::InsufficientContractBalance) && *final(self) == *old(
                        self,
                    )
                } else {
                    &&& r matches Ok(reply)
                    &&& reply.events@ == Seq::<Event>::empty()
                    &&& reply.value == (Dispatch {
                        call: Call::Transfer { to: env.predecessor },
                        tgas: 0,
                        deposit: amount,
                        callback: Callback::ClaimRefundSettled { caller: env.predecessor, amount },
                        callback_tgas: CLAIM_REFUND_CB_TGAS,
                    })
                    &&& final(self).pending_refunds@ == old(self).pending_refunds@.remove(env.predecessor)
                    &&& *final(self) == (TlaRegistry {
                        pending_refunds: final(self).pending_refunds,
                        total_pending_refunds: crate::common::floored(
                            old(self).total_pending_refunds as int,
                            amount as int,
                        ) as u128,
                        ..*old(self)
                    })
                }
            }),
    {
        let caller = env.predecessor;
        let amount: u128 = self.get_pending_refund(caller);
        if amount == 0 {
            return Err(ContractError::NoPendingRefund);
        }
        if amount > env.available_balance() {
            return Err(ContractError::InsufficientContractBalance);
        }
        self.pending_refunds.remove(&caller);
        self.total_pending_refunds = self.total_pending_refunds.saturating_sub(amount);
        Ok(
            quiet(
                Dispatch {
                    call: Call::Transfer { to: caller },
                    tgas: 0,
                    deposit: amount,
                    callback: Callback::ClaimRefundSettled { caller, amount },
                    callback_tgas: CLAIM_REFUND_CB_TGAS,
                },
            ),
        )
    }

    /// A refund whose transfer failed is owed again.
    pub fn on_claim_refund_settled(&mut self, caller: AccountId, amount: u128, success: bool) -> (r: Vec<Event>)
        ensures
            if success {
                r@ == Seq::<Event>::empty() && *final(self) == *old(self)
            } else {
                &&& r@ == seq![
                    Event::RefundPending {
                        account: caller,
                        amount_yocto: amount,
                        reason: RefundReason::TransferFailed,
                    },
                ]
                &&& final(self).owes_more(*old(self), caller, amount)
                &&& *final(self) == (TlaRegistry {
                    pending_refunds: final(self).pending_refunds,
                    total_pending_refunds: final(self).total_pending_refunds,
                    ..*old(self)
                })
            },
    {
        if success {
            return Vec::new();
        }
        self.add_pending_refund(&caller, amount);
        logged((), Event::RefundPending { account: caller, amount_yocto: amount, reason: RefundReason::TransferFailed }).events
    }

    /// The ledger of refunds is the earlier one with `amount` more owed to `account`.
    pub open spec fn owes_more(self, before: TlaRegistry, account: AccountId, amount: u128) -> bool {
        &&& self.pending_refunds@ == owed_after(before.pending_refunds@, account, amount)
        &&& self.total_pending_refunds == crate::common::capped_u128(before.total_pending_refunds + amount)
    }

    /// The ledger of refunds is the earlier one with what was paid beyond the charge owed back.
    pub open spec fn owes_excess(self, before: TlaRegistry, payer: AccountId, attached: u128, charged: u128) -> bool {
        &&& self.pending_refunds@ == owed_after_excess(before.pending_refunds@, payer, attached, charged)
        &&& self.total_pending_refunds == crate::common::capped_u128(
            before.total_pending_refunds + excess(attached, charged),
        )
    }

    pub fn add_pending_refund(&mut self, account: &AccountId, amount: u128)
        ensures
            final(self).owes_more(*old(self), *account, amount),
            *final(self) == (TlaRegistry {
                pending_refunds: final(self).pending_refunds,
                total_pending_refunds: final(self).total_pending_refunds,
                ..*old(self)
            }),
    {
        let existing: u128 = match self.pending_refunds.get(account) {
            Some(owed) => *owed,
            None => 0,
        };
        self.pending_refunds.insert(*account, existing.saturating_add(amount));
        self.total_pending_refunds = self.total_pending_refunds.saturating_add(amount);
    }

    pub(crate) fn refund_excess(&mut self, payer: &AccountId, attached: u128, charged: u128)
        ensures
            final(self).owes_excess(*old(self), *payer, attached, charged),
            *final(self) == (TlaRegistry {
                pending_refunds: final(self).pending_refunds,
                total_pending_refunds: final(self).total_pending_refunds,
                ..*old(self)
            }),
    {
        let excess: u128 = attached.saturating_sub(charged);
        if excess > 0 {
            self.add_pending_refund(payer, excess);
        }
    }

    pub fn get_pending_refund(&self, account_id: AccountId) -> (r: u128)
        ensures
            r == self.refund_of(account_id),
    {
        match self.pending_refunds.get(&account_id) {
            Some(owed) => *owed,
            None => 0,
        }
    }

    pub fn get_total_pending_refunds(&self) -> (r: u128)
        ensures
            r == self.total_pending_refunds,
    {
        self.total_pending_refunds
    }

    pub fn get_version(&self) -> (r: u8)
        ensures
            r == self.version,
    {
        self.version
    }

    pub fn get_council(&self) -> (r: AccountId)
        ensures
            r == self.council,
    {
        self.council
    }

    pub fn get_treasury(&self) -> (r: AccountId)
        ensures
            r == self.treasury,
    {
        self.treasury
    }
}

/// A call that moves authority carries one yocto, which only a full access key can attach.
pub(crate) fn assert_one_yocto(env: &Env) -> (r: Result<(), ContractError>)
    ensures
        r == (if env.deposit == 1 {
            Ok(())
        } else {
            Err(ContractError::RequiresOneYocto)
        }),
{
    if env.deposit != 1 {
        return Err(ContractError::RequiresOneYocto);
    }
    Ok(())
}

/// Why a call is not the council's, if it is not: it must carry one yocto and come from the council.
pub open spec fn council_refusal(env: Env, council: AccountId) -> Option<ContractError> {
    if env.deposit != 1 {
        Some(ContractError::RequiresOneYocto)
    } else if env.predecessor != council {
        Some(ContractError::OnlyCouncil)
    } else {
        None
    }
}

} // verus!
