//! What the registry shows.
use vstd::prelude::*;

use crate::account::{label_under, named_account, sub_account_key, AccountId};
use crate::asset_gate::members;
use crate::error::ContractError;
use crate::fees::{base_rent, calculate_rent};
use crate::host::Env;
use crate::lifecycle::effective_sub_lifecycle;
use crate::nft::page_bounds;
use crate::registry::{TlaRegistry, PRODUCTION_GRACE_PERIOD_NS, PRODUCTION_LEASE_TERM_NS};
use crate::types::{
    validate_mintable_name, ActivityRecord, ActivityView, DeploymentReadiness, FeeConfig,
    ParkedSubAccountView, RegistryStats, RentPriceView, SubAccountDetailView, SubAccountEntry,
    SubAccountView, TlaEntry, TlaView,
};

verus! {

/// What is shown of one record of the feed.
pub open spec fn activity_view(record: ActivityRecord) -> ActivityView {
    ActivityView {
        event: record.event,
        account: record.account,
        block_height: record.block_height,
        block_timestamp: record.block_timestamp,
    }
}

/// Whether a record is about `account`; any record is, where none is given.
pub open spec fn about(record: ActivityRecord, account: Option<Seq<char>>) -> bool {
    match account {
        Some(text) => record.account@ == text,
        None => true,
    }
}

pub open spec fn text_of(account: Option<String>) -> Option<Seq<char>> {
    match account {
        Some(text) => Some(text@),
        None => None,
    }
}

/// The part of a feed that is about `account`.
pub open spec fn feed_about(feed: Seq<ActivityRecord>, account: Option<Seq<char>>) -> Seq<ActivityRecord> {
    feed.filter(|r: ActivityRecord| about(r, account))
}

impl TlaRegistry {
    // ---- one account or name ------------------------------------------------------------------

    pub open spec fn tla_view_of(self, now: u64, tla_id: AccountId) -> TlaView {
        let entry = self.tlas@[tla_id];
        TlaView {
            tla_id,
            tla_type: entry.tla_type,
            lifecycle: entry.lifecycle_of(self.clock_at(now), self.suspension_of(tla_id), now),
            licensee: entry.licensee,
            premium_category: entry.premium_category,
            activated_at: entry.activated_at,
            expires_at: entry.expires_at,
            annual_rent: crate::fees::tier_rent(tla_id@.len() as int, self.fee_config),
        }
    }

    fn to_tla_view(&self, env: &Env, tla_id: &AccountId, entry: &TlaEntry) -> (r: TlaView)
        requires
            self.tlas@.has(*tla_id),
            *entry == self.tlas@[*tla_id],
        ensures
            r == self.tla_view_of(env.now, *tla_id),
    {
        TlaView {
            tla_id: *tla_id,
            tla_type: entry.tla_type,
            lifecycle: entry.lifecycle(&self.clock(env), self.suspension_expiry(tla_id), env.now),
            licensee: entry.licensee,
            premium_category: entry.premium_category,
            activated_at: entry.activated_at,
            expires_at: entry.expires_at,
            annual_rent: base_rent(tla_id.text_len() as u8, &self.fee_config),
        }
    }

    pub fn get_tla(&self, env: &Env, tla_id: AccountId) -> (r: Option<TlaView>)
        ensures
            r == (if self.tlas@.has(tla_id) {
                Some(self.tla_view_of(env.now, tla_id))
            } else {
                None
            }),
    {
        match self.tlas.get(&tla_id) {
            Some(entry) => Some(self.to_tla_view(env, &tla_id, entry)),
            None => None,
        }
    }

    pub open spec fn sub_view_of(self, now: u64, key: AccountId, tla_id: AccountId, name: Seq<char>) -> SubAccountView {
        let sub = self.sub_accounts@[key];
        SubAccountView {
            full_name: key,
            owner: sub.owner,
            tla_id: sub.tla_id,
            payout_account: sub.payout_account,
            lifecycle: self.name_lifecycle(now, tla_id, key),
            rented_at: sub.rented_at,
            expires_at: sub.expires_at,
            annual_rent: self.rent_usd(tla_id, name),
        }
    }

    fn to_sub_view(&self, env: &Env, key: &AccountId, entry: &SubAccountEntry, tla: &TlaEntry, tla_id: &AccountId, name: &str) -> (r: SubAccountView)
        requires
            *entry == self.sub_accounts@[*key],
            *tla == self.tlas@[*tla_id],
        ensures
            r == self.sub_view_of(env.now, *key, *tla_id, name@),
    {
        let terms = self.terms_for(tla_id);
        let lifecycle = effective_sub_lifecycle(
            entry,
            tla,
            self.fee_config.retraction_notice_ns,
            &self.clock(env),
            self.suspension_expiry(tla_id),
            env.now,
        );
        SubAccountView {
            full_name: *key,
            owner: entry.owner,
            tla_id: entry.tla_id,
            payout_account: entry.payout_account,
            lifecycle,
            rented_at: entry.rented_at,
            expires_at: entry.expires_at,
            annual_rent: calculate_rent(tla, tla_id, name, &self.fee_config, &terms),
        }
    }

    pub fn get_sub_account(&self, env: &Env, tla_id: AccountId, name: String) -> (r: Option<SubAccountView>)
        ensures
            ({
                let key = crate::account::named_account_of(tla_id, name@);
                r == (if key is Some && self.sub_accounts@.has(key->0) && self.tlas@.has(tla_id) {
                    Some(self.sub_view_of(env.now, key->0, tla_id, name@))
                } else {
                    None
                })
            }),
    {
        let key = match named_account(&tla_id, name.as_str()) {
            Some(key) => key,
            None => {
                return None;
            },
        };
        match self.sub_accounts.get(&key) {
            Some(sub) => match self.tlas.get(&tla_id) {
                Some(tla) => Some(self.to_sub_view(env, &key, sub, tla, &tla_id, name.as_str())),
                None => None,
            },
            None => None,
        }
    }

    pub fn get_parked_sub_account(&self, tla_id: AccountId, name: String) -> (r: Option<ParkedSubAccountView>)
        ensures
            ({
                let text = crate::account::sub_account_text(tla_id, name@);
                if self.parked_names@.has(text) {
                    &&& r matches Some(parked)
                    &&& parked.full_name@ == text
                    &&& parked.tla_id == self.parked_names@[text].tla_id
                    &&& parked.parked_at == self.parked_names@[text].parked_at
                } else {
                    r is None
                }
            }),
    {
        let text = sub_account_key(&tla_id, name.as_str());
        match self.parked_names.get(&text) {
            Some(parked) => Some(
                ParkedSubAccountView { full_name: text, tla_id: parked.tla_id, parked_at: parked.parked_at },
            ),
            None => None,
        }
    }

    /// Whether a parked name may be rented again: not while its account owns other names.
    pub fn is_name_re_rentable(&self, tla_id: AccountId, name: String) -> (r: bool)
        ensures
            ({
                let key = crate::account::named_account_of(tla_id, name@);
                r == (self.parked(tla_id, name@) && !(key is Some && self.holds_names(key->0)))
            }),
    {
        if !self.parked_names.contains_key(&sub_account_key(&tla_id, name.as_str())) {
            return false;
        }
        match named_account(&tla_id, name.as_str()) {
            Some(key) => self.sub_accounts_by_owner.get(&key).is_none(),
            None => true,
        }
    }

    pub fn is_reclaim_in_progress(&self, tla_id: AccountId, name: String) -> (r: bool)
        ensures
            ({
                let key = crate::account::named_account_of(tla_id, name@);
                r == (key is Some && self.reclaim_pending@.has(key->0))
            }),
    {
        match named_account(&tla_id, name.as_str()) {
            Some(key) => self.reclaim_pending.contains_key(&key),
            None => false,
        }
    }

    /// Whether a name is neither rented nor parked.
    pub fn is_name_available(&self, tla_id: AccountId, name: String) -> (r: bool)
        ensures
            r == !(self.rented(tla_id, name@) || self.parked(tla_id, name@)),
    {
        !self.is_rented(&tla_id, name.as_str()) && !self.parked_names.contains_key(
            &sub_account_key(&tla_id, name.as_str()),
        )
    }

    pub open spec fn rent_price_refusal(self, now: u64, tla_id: AccountId, name: Seq<char>) -> Option<ContractError> {
        if crate::types::mint_name_refusal(tla_id, name) is Some {
            crate::types::mint_name_refusal(tla_id, name)
        } else if !self.tlas@.has(tla_id) {
            Some(ContractError::TlaNotFound)
        } else {
            self.price_refusal(now, self.rent_usd(tla_id, name))
        }
    }

    /// What renting a name is quoted at. A parked name needs no creation deposit.
    pub fn get_rent_price(&self, env: &Env, tla_id: AccountId, name: String) -> (r: Result<RentPriceView, ContractError>)
        requires
            self.wf(),
        ensures
            match self.rent_price_refusal(env.now, tla_id, name@) {
                Some(e) => r == Err::<RentPriceView, _>(e),
                None => {
                    let quoted = self.quote_of(self.rent_usd(tla_id, name@));
                    let deposit = if self.parked(tla_id, name@) {
                        0
                    } else {
                        self.fee_config.account_creation_deposit_yocto
                    };
                    r == Ok::<_, ContractError>(
                        RentPriceView {
                            rent_yocto: quoted,
                            creation_deposit_yocto: deposit,
                            total_yocto: crate::common::capped_u128(quoted + deposit),
                        },
                    )
                },
            },
    {
        validate_mintable_name(&tla_id, name.as_str())?;
        let tla = match self.tlas.get(&tla_id) {
            Some(tla) => *tla,
            None => {
                return Err(ContractError::TlaNotFound);
            },
        };
        let terms = self.terms_for(&tla_id);
        let rent_usd: u128 = calculate_rent(&tla, &tla_id, name.as_str(), &self.fee_config, &terms);
        let rent_yocto: u128 = self.quote_usd_to_near(env, rent_usd)?;
        let parked = self.parked_names.contains_key(&sub_account_key(&tla_id, name.as_str()));
        let deposit: u128 = if parked {
            0
        } else {
            self.fee_config.account_creation_deposit_yocto
        };
        Ok(
            RentPriceView {
                rent_yocto,
                creation_deposit_yocto: deposit,
                total_yocto: rent_yocto.saturating_add(deposit),
            },
        )
    }

    // ---- lists --------------------------------------------------------------------------------

    pub fn list_tlas(&self, env: &Env, from_index: u64, limit: u64) -> (r: Vec<TlaView>)
        ensures
            r@ == crate::nft::page_of(self.tlas@.keys, from_index as nat, limit as nat).map_values(
                |id: AccountId| self.tla_view_of(env.now, id),
            ),
    {
        let (start, end) = page_bounds(self.tlas.len(), from_index, limit);
        let mut views: Vec<TlaView> = Vec::new();
        let mut i: usize = start;
        while i < end
            invariant
                start <= i <= end <= self.tlas@.keys.len(),
                views@.len() == i - start,
                forall|j: int| 0 <= j < i - start ==> #[trigger] views@[j] == self.tla_view_of(
                    env.now,
                    self.tlas@.keys[start + j],
                ),
            decreases end - i,
        {
            views.push(self.to_tla_view(env, self.tlas.key_at(i), self.tlas.value_at(i)));
            i += 1;
        }
        assert(views@ =~= crate::nft::page_of(self.tlas@.keys, from_index as nat, limit as nat).map_values(
            |id: AccountId| self.tla_view_of(env.now, id),
        ));
        views
    }

    /// What is shown of a rented name, if its account is known and its name is one under it.
    pub open spec fn detail_of(self, now: u64, key: AccountId) -> Option<SubAccountDetailView> {
        let sub = self.sub_accounts@[key];
        let label = crate::account::label_of(key@, sub.tla_id@);
        if self.sub_accounts@.has(key) && self.tlas@.has(sub.tla_id) && label is Some {
            Some(
                SubAccountDetailView {
                    sub_account: self.sub_view_of(now, key, sub.tla_id, label->0),
                    retraction_at: sub.retraction_at,
                },
            )
        } else {
            None
        }
    }

    /// What is shown of the names, in order, leaving out those of which nothing is.
    pub open spec fn details_of(self, now: u64, keys: Seq<AccountId>) -> Seq<SubAccountDetailView>
        decreases keys.len(),
    {
        if keys.len() == 0 {
            Seq::empty()
        } else {
            let rest = self.details_of(now, keys.drop_last());
            match self.detail_of(now, keys.last()) {
                Some(detail) => rest.push(detail),
                None => rest,
            }
        }
    }

    fn to_sub_detail(&self, env: &Env, key: &AccountId) -> (r: Option<SubAccountDetailView>)
        ensures
            r == self.detail_of(env.now, *key),
    {
        let sub = match self.sub_accounts.get(key) {
            Some(sub) => *sub,
            None => {
                return None;
            },
        };
        let tla = match self.tlas.get(&sub.tla_id) {
            Some(tla) => *tla,
            None => {
                return None;
            },
        };
        match label_under(key, &sub.tla_id) {
            Some(name) => Some(
                SubAccountDetailView {
                    sub_account: self.to_sub_view(env, key, &sub, &tla, &sub.tla_id, name.as_str()),
                    retraction_at: sub.retraction_at,
                },
            ),
            None => None,
        }
    }

    fn page_details(&self, env: &Env, keys: &Vec<AccountId>, from_index: u64, limit: u64) -> (r: Vec<SubAccountDetailView>)
        ensures
            r@ == self.details_of(env.now, crate::nft::page_of(keys@, from_index as nat, limit as nat)),
    {
        let (start, end) = page_bounds(keys.len(), from_index, limit);
        let mut views: Vec<SubAccountDetailView> = Vec::new();
        let mut i: usize = start;
        while i < end
            invariant
                start <= i <= end <= keys@.len(),
                views@ == self.details_of(env.now, keys@.subrange(start as int, i as int)),
            decreases end - i,
        {
            proof {
                let after = keys@.subrange(start as int, i + 1);
                assert(after.drop_last() =~= keys@.subrange(start as int, i as int));
                assert(after.last() == keys@[i as int]);
            }
            if let Some(detail) = self.to_sub_detail(env, &keys[i]) {
                views.push(detail);
            }
            i += 1;
        }
        views
    }

    pub fn list_sub_accounts(&self, env: &Env, from_index: u64, limit: u64) -> (r: Vec<SubAccountDetailView>)
        ensures
            r@ == self.details_of(
                env.now,
                crate::nft::page_of(self.sub_accounts@.keys, from_index as nat, limit as nat),
            ),
    {
        let (start, end) = page_bounds(self.sub_accounts.len(), from_index, limit);
        let mut views: Vec<SubAccountDetailView> = Vec::new();
        let mut i: usize = start;
        let ghost keys = self.sub_accounts@.keys;
        while i < end
            invariant
                start <= i <= end <= keys.len(),
                keys == self.sub_accounts@.keys,
                views@ == self.details_of(env.now, keys.subrange(start as int, i as int)),
            decreases end - i,
        {
            proof {
                let after = keys.subrange(start as int, i + 1);
                assert(after.drop_last() =~= keys.subrange(start as int, i as int));
                assert(after.last() == keys[i as int]);
            }
            if let Some(detail) = self.to_sub_detail(env, self.sub_accounts.key_at(i)) {
                views.push(detail);
            }
            i += 1;
        }
        views
    }

    pub fn list_sub_accounts_by_owner(&self, env: &Env, owner: AccountId, from_index: u64, limit: u64) -> (r: Vec<
        SubAccountDetailView,
    >)
        ensures
            r@ == self.details_of(
                env.now,
                crate::nft::page_of(
                    crate::indexes::names_under(self.sub_accounts_by_owner@, owner),
                    from_index as nat,
                    limit as nat,
                ),
            ),
    {
        match self.sub_accounts_by_owner.get(&owner) {
            Some(keys) => self.page_details(env, keys, from_index, limit),
            None => Vec::new(),
        }
    }

    pub fn list_sub_accounts_by_tla(&self, env: &Env, tla_id: AccountId, from_index: u64, limit: u64) -> (r: Vec<
        SubAccountDetailView,
    >)
        ensures
            r@ == self.details_of(
                env.now,
                crate::nft::page_of(
                    crate::indexes::names_under(self.sub_accounts_by_tla@, tla_id),
                    from_index as nat,
                    limit as nat,
                ),
            ),
    {
        match self.sub_accounts_by_tla.get(&tla_id) {
            Some(keys) => self.page_details(env, keys, from_index, limit),
            None => Vec::new(),
        }
    }

    /// The feed, newest first, of one account or of all.
    pub fn list_recent_activity(&self, from_index: u64, limit: u64, account: Option<String>) -> (r: Vec<ActivityView>)
        ensures
            r@ == crate::nft::page_of(
                feed_about(self.recent_activity@, text_of(account)),
                from_index as nat,
                limit as nat,
            ).map_values(|record: ActivityRecord| activity_view(record)),
    {
        let ghost feed = self.recent_activity@;
        let ghost wanted = text_of(account);
        let ghost pred = |r: ActivityRecord| about(r, wanted);
        let mut matching: Vec<ActivityRecord> = Vec::new();
        let mut i: usize = 0;
        proof {
            reveal(Seq::filter);
            assert(feed.take(0).filter(pred) =~= Seq::empty());
        }
        while i < self.recent_activity.len()
            invariant
                feed == self.recent_activity@,
                wanted == text_of(account),
                pred == (|r: ActivityRecord| about(r, wanted)),
                i <= feed.len(),
                matching@ == feed.take(i as int).filter(pred),
            decreases feed.len() - i,
        {
            let record: ActivityRecord = *self.recent_activity.nth(i);
            proof {
                let after = feed.take(i + 1);
                assert(after.drop_last() =~= feed.take(i as int));
                assert(after.last() == record);
                reveal(Seq::filter);
            }
            let relevant = match &account {
                Some(text) => record.account.text() == *text,
                None => true,
            };
            if relevant {
                matching.push(record);
            }
            i += 1;
        }
        assert(feed.take(i as int) =~= feed);
        let (start, end) = page_bounds(matching.len(), from_index, limit);
        let mut views: Vec<ActivityView> = Vec::new();
        let mut i: usize = start;
        while i < end
            invariant
                start <= i <= end <= matching@.len(),
                views@.len() == i - start,
                forall|j: int| 0 <= j < i - start ==> #[trigger] views@[j] == activity_view(matching@[start + j]),
            decreases end - i,
        {
            let record = matching[i];
            views.push(
                ActivityView {
                    event: record.event,
                    account: record.account,
                    block_height: record.block_height,
                    block_timestamp: record.block_timestamp,
                },
            );
            i += 1;
        }
        assert(views@ =~= crate::nft::page_of(matching@, from_index as nat, limit as nat).map_values(
            |record: ActivityRecord| activity_view(record),
        ));
        views
    }

    // ---- the registry itself ------------------------------------------------------------------

    pub fn get_hos_extension(&self) -> (r: AccountId)
        ensures
            r == self.hos_extension,
    {
        self.hos_extension
    }

    pub fn get_grace_period_ns(&self) -> (r: u64)
        ensures
            r == self.grace_period_ns,
    {
        self.grace_period_ns
    }

    pub fn get_fee_config(&self) -> (r: FeeConfig)
        ensures
            r == self.fee_config,
    {
        self.fee_config
    }

    pub fn get_stats(&self) -> (r: RegistryStats)
        ensures
            r == (RegistryStats {
                tla_count: self.tlas@.len() as u64,
                sub_account_count: self.sub_account_count,
                total_revenue_yocto: self.total_revenue,
                total_pending_refunds_yocto: self.total_pending_refunds,
            }),
    {
        RegistryStats {
            tla_count: self.tlas.len() as u64,
            sub_account_count: self.sub_account_count,
            total_revenue_yocto: self.total_revenue,
            total_pending_refunds_yocto: self.total_pending_refunds,
        }
    }

    pub fn get_admins(&self) -> (r: Vec<AccountId>)
        ensures
            r@ == self.admins@.keys,
    {
        members(&self.admins)
    }

    pub fn get_payment_authorities(&self) -> (r: Vec<AccountId>)
        ensures
            r@ == self.payment_authorities@.keys,
    {
        members(&self.payment_authorities)
    }

    pub fn get_recovery_authorities(&self) -> (r: Vec<AccountId>)
        ensures
            r@ == self.recovery_authorities@.keys,
    {
        members(&self.recovery_authorities)
    }

    pub fn get_ft_allowlist(&self) -> (r: Vec<AccountId>)
        ensures
            r@ == self.ft_allowlist@.keys,
    {
        members(&self.ft_allowlist)
    }

    pub fn get_venues(&self) -> (r: Vec<AccountId>)
        ensures
            r@ == self.venues@.keys,
    {
        members(&self.venues)
    }

    /// Which steps of a deployment are done; it is ready when all are.
    pub fn deployment_readiness(&self, env: &Env) -> (r: DeploymentReadiness)
        ensures
            r.recovery_wired == (self.recovery_authorities@.len() > 0),
            r.venue_set == (self.venues@.len() > 0),
            r.ft_allowlist_set == (self.ft_allowlist@.len() > 0),
            r.metadata_set == (self.nft_contract_metadata.name@ != env.current@),
            r.wiring_sane == (self.hos_extension != env.current && self.council != env.current && self.treasury
                != env.current),
            r.production_terms == (self.lease_term_ns >= PRODUCTION_LEASE_TERM_NS && self.grace_period_ns
                >= PRODUCTION_GRACE_PERIOD_NS),
            r.ready == (r.recovery_wired && r.venue_set && r.ft_allowlist_set && r.metadata_set && r.wiring_sane
                && r.production_terms),
    {
        let recovery_wired = !self.recovery_authorities.is_empty();
        let venue_set = !self.venues.is_empty();
        let ft_allowlist_set = !self.ft_allowlist.is_empty();
        let metadata_set = self.nft_contract_metadata.name != env.current.text();
        let wiring_sane = self.hos_extension != env.current && self.council != env.current && self.treasury
            != env.current;
        let production_terms = self.lease_term_ns >= PRODUCTION_LEASE_TERM_NS && self.grace_period_ns
            >= PRODUCTION_GRACE_PERIOD_NS;
        DeploymentReadiness {
            ready: recovery_wired && venue_set && ft_allowlist_set && metadata_set && wiring_sane && production_terms,
            recovery_wired,
            venue_set,
            ft_allowlist_set,
            metadata_set,
            wiring_sane,
            production_terms,
        }
    }
}

} // verus!
