//! What the registry shows of its books.
use vstd::prelude::*;

use crate::account::AccountId;
use crate::error::ContractError;
use crate::events::{BlockReason, Event, LeaseIntent, RefundReason};
use crate::host::Env;
use crate::nft::{Token, TokenPage};
use crate::registry::TlaRegistry;
use crate::types::{
    ActivityKind, ActivityView, DeploymentReadiness, FeeConfig, ParkedSubAccountView, RateMetaView, RegistryStats,
    SubAccountDetailView, SubAccountView, TlaTerms, TlaView,
};

verus! {

// ---- single entries ---------------------------------------------------------------------------

/// What an account is owed, has minted, has agreed and may hold is what the books say, and nothing where they say nothing.
pub proof fn the_books_are_read_as_they_stand(
    registry: TlaRegistry,
    account: AccountId,
    tla_id: AccountId,
    refund: u128,
    used: u64,
    allowed: Option<u64>,
    bound: bool,
    terms: TlaTerms,
    count: u32,
    cap: u32,
    held_until: u64,
)
    requires
        call_ensures(TlaRegistry::get_pending_refund, (&registry, account), refund),
        call_ensures(TlaRegistry::payment_authority_used, (&registry, account, tla_id), used),
        call_ensures(TlaRegistry::payment_authority_allowance, (&registry, account, tla_id), allowed),
        call_ensures(TlaRegistry::is_payment_authority_bound, (&registry, account, tla_id), bound),
        call_ensures(TlaRegistry::get_tla_terms, (&registry, tla_id), terms),
        call_ensures(TlaRegistry::get_business_sub_count, (&registry, tla_id), count),
        call_ensures(TlaRegistry::get_business_sub_cap, (&registry, tla_id), cap),
        call_ensures(TlaRegistry::get_suspension_expiry, (&registry, tla_id), held_until),
    ensures
        registry.refund_of(account) == refund,
        registry.pending_refunds@.has(account) ==> refund == registry.pending_refunds@[account],
        !registry.pending_refunds@.has(account) ==> refund == 0,
        registry.mints_used(account, tla_id) == used,
        registry.authority_mints@.has((account, tla_id)) ==> used == registry.authority_mints@[(account, tla_id)],
        !registry.authority_mints@.has((account, tla_id)) ==> used == 0,
        bound <==> registry.authority_allowances@.has((account, tla_id)),
        bound ==> allowed == Some(registry.authority_allowances@[(account, tla_id)]),
        !bound ==> allowed is None,
        registry.terms_of(tla_id) == terms,
        registry.tla_terms@.has(tla_id) ==> terms == registry.tla_terms@[tla_id],
        !registry.tla_terms@.has(tla_id) ==> terms.allocation_fee_usd_micro is None && terms.tla_rent_usd_micro is None
            && terms.sub_fee_usd_micro is None,
        registry.business_count(tla_id) == count,
        registry.business_sub_count@.has(tla_id) ==> count == registry.business_sub_count@[tla_id],
        !registry.business_sub_count@.has(tla_id) ==> count == 0,
        registry.business_cap(tla_id) == cap,
        registry.business_sub_cap_override@.has(tla_id) ==> cap == registry.business_sub_cap_override@[tla_id],
        !registry.business_sub_cap_override@.has(tla_id) ==> cap == registry.fee_config.business_max_subs,
        registry.suspension_of(tla_id) == held_until,
        registry.suspended_until@.has(tla_id) ==> held_until == registry.suspended_until@[tla_id],
        !registry.suspended_until@.has(tla_id) ==> held_until == 0,
        registry.is_admin(account) <==> registry.admins@.has(account),
        registry.is_business(tla_id) <==> registry.tlas@.has(tla_id) && registry.tlas@[tla_id].tla_type is Business,
        registry.owned_by(tla_id, account) <==> registry.sub_accounts@.has(tla_id) && registry.sub_accounts@[tla_id].owner
            == account,
        registry.holds_names(account) <==> registry.sub_accounts_by_owner@.contains_key(account),
{
}

/// A name is parked, rented, re-rentable, available and being taken back exactly as the books say.
pub proof fn a_name_shows_as_it_stands(
    registry: TlaRegistry,
    tla_id: AccountId,
    name: String,
    parked: Option<ParkedSubAccountView>,
    re_rentable: bool,
    reclaiming: bool,
    available: bool,
    notice: Option<u64>,
)
    requires
        call_ensures(TlaRegistry::get_parked_sub_account, (&registry, tla_id, name), parked),
        call_ensures(TlaRegistry::is_name_re_rentable, (&registry, tla_id, name), re_rentable),
        call_ensures(TlaRegistry::is_reclaim_in_progress, (&registry, tla_id, name), reclaiming),
        call_ensures(TlaRegistry::is_name_available, (&registry, tla_id, name), available),
        call_ensures(TlaRegistry::get_retraction_at, (&registry, tla_id, name), notice),
    ensures
        ({
            let text = name@ + seq!['.'] + tla_id@;
            let is_parked = registry.parked_names@.has(text);
            let key = crate::account::named_account_of(tla_id, name@);
            let rented = key is Some && registry.sub_accounts@.has(key->0);
            &&& registry.parked(tla_id, name@) <==> is_parked
            &&& registry.rented(tla_id, name@) <==> rented
            &&& parked is Some <==> is_parked
            &&& parked matches Some(view) ==> view.full_name@ == text && view.tla_id == registry.parked_names@[text].tla_id
                && view.parked_at == registry.parked_names@[text].parked_at
            &&& re_rentable <==> is_parked && !(key is Some && registry.sub_accounts_by_owner@.contains_key(key->0))
            &&& reclaiming <==> key is Some && registry.reclaim_pending@.has(key->0)
            &&& available <==> !is_parked && !rented
            &&& rented ==> notice == registry.sub_accounts@[key->0].retraction_at
            &&& !rented ==> notice is None
        }),
{
    assert(crate::account::sub_account_text(tla_id, name@) =~= name@ + seq!['.'] + tla_id@);
}

/// A name that is shown is rented under a known account, and shows its row, its standing and its yearly rent.
pub proof fn a_rented_name_shows_its_row(registry: TlaRegistry, env: Env, tla_id: AccountId, name: String, r: Option<SubAccountView>)
    requires
        call_ensures(TlaRegistry::get_sub_account, (&registry, &env, tla_id, name), r),
    ensures
        ({
            let key = crate::account::named_account_of(tla_id, name@);
            &&& r is Some <==> key is Some && registry.sub_accounts@.has(key->0) && registry.tlas@.has(tla_id)
            &&& r matches Some(view) ==> shows_row(view, registry, env.now, key->0, tla_id, name@)
        }),
{
}

/// A view that shows the row of a name.
pub open spec fn shows_row(view: SubAccountView, registry: TlaRegistry, now: u64, key: AccountId, tla_id: AccountId, name: Seq<char>) -> bool {
    let sub = registry.sub_accounts@[key];
    &&& view.full_name == key
    &&& view.owner == sub.owner
    &&& view.tla_id == sub.tla_id
    &&& view.payout_account == sub.payout_account
    &&& view.rented_at == sub.rented_at
    &&& view.expires_at == sub.expires_at
    &&& view.lifecycle == registry.name_lifecycle(now, tla_id, key)
    &&& view.annual_rent == registry.rent_usd(tla_id, name)
}

/// The registry shows its settings and its members as they stand.
pub proof fn the_settings_show_as_they_stand(
    registry: TlaRegistry,
    version: u8,
    council: AccountId,
    treasury: AccountId,
    oracle: AccountId,
    extension: AccountId,
    grace: u64,
    fees: FeeConfig,
    rate: u128,
    meta: RateMetaView,
    owed: u128,
    stats: RegistryStats,
    next_council: Option<(AccountId, u64)>,
    next_treasury: Option<AccountId>,
    delay: u64,
)
    requires
        call_ensures(TlaRegistry::get_version, (&registry,), version),
        call_ensures(TlaRegistry::get_council, (&registry,), council),
        call_ensures(TlaRegistry::get_treasury, (&registry,), treasury),
        call_ensures(TlaRegistry::get_price_oracle, (&registry,), oracle),
        call_ensures(TlaRegistry::get_hos_extension, (&registry,), extension),
        call_ensures(TlaRegistry::get_grace_period_ns, (&registry,), grace),
        call_ensures(TlaRegistry::get_fee_config, (&registry,), fees),
        call_ensures(TlaRegistry::get_near_usd_rate, (&registry,), rate),
        call_ensures(TlaRegistry::get_rate_meta, (&registry,), meta),
        call_ensures(TlaRegistry::get_total_pending_refunds, (&registry,), owed),
        call_ensures(TlaRegistry::get_stats, (&registry,), stats),
        call_ensures(TlaRegistry::pending_council, (&registry,), next_council),
        call_ensures(TlaRegistry::pending_treasury, (&registry,), next_treasury),
        call_ensures(TlaRegistry::upgrade_delay_ns, (&registry,), delay),
        registry.tlas@.len() <= u64::MAX,
    ensures
        version == registry.version,
        council == registry.council,
        treasury == registry.treasury,
        oracle == registry.price_oracle,
        extension == registry.hos_extension,
        grace == registry.grace_period_ns,
        fees == registry.fee_config,
        rate == registry.near_usd_rate_micro,
        meta.updated_at == registry.rate_updated_at && meta.sequence == registry.rate_sequence,
        owed == registry.total_pending_refunds,
        stats.tla_count == registry.tlas@.len(),
        stats.sub_account_count == registry.sub_account_count,
        stats.total_revenue_yocto == registry.total_revenue,
        stats.total_pending_refunds_yocto == registry.total_pending_refunds,
        next_council is Some <==> registry.pending_council is Some && registry.pending_council_at is Some,
        next_council matches Some((account, at)) ==> registry.pending_council == Some(account)
            && registry.pending_council_at == Some(at),
        next_treasury == registry.pending_treasury,
        delay == registry.upgrade_delay_ns,
{
}

/// The lists of members hold all members in order, and nothing else.
pub proof fn the_members_show_as_they_stand(
    registry: TlaRegistry,
    admins: Vec<AccountId>,
    payers: Vec<AccountId>,
    recoverers: Vec<AccountId>,
    gated: Vec<AccountId>,
    venues: Vec<AccountId>,
)
    requires
        call_ensures(TlaRegistry::get_admins, (&registry,), admins),
        call_ensures(TlaRegistry::get_payment_authorities, (&registry,), payers),
        call_ensures(TlaRegistry::get_recovery_authorities, (&registry,), recoverers),
        call_ensures(TlaRegistry::get_ft_allowlist, (&registry,), gated),
        call_ensures(TlaRegistry::get_venues, (&registry,), venues),
    ensures
        admins@ == registry.admins@.keys,
        payers@ == registry.payment_authorities@.keys,
        recoverers@ == registry.recovery_authorities@.keys,
        gated@ == registry.ft_allowlist@.keys,
        venues@ == registry.venues@.keys,
{
}

/// A deployment is ready exactly if there is a recovery authority, a venue and a gated token, the collection was named, nothing is wired to
/// the registry itself, and leases run a year with thirty days of grace at the least.
pub proof fn a_deployment_is_ready_when_all_is_set(registry: TlaRegistry, env: Env, r: DeploymentReadiness)
    requires
        call_ensures(TlaRegistry::deployment_readiness, (&registry, &env), r),
    ensures
        r.ready <==> {
            &&& registry.recovery_authorities@.len() > 0
            &&& registry.venues@.len() > 0
            &&& registry.ft_allowlist@.len() > 0
            &&& registry.nft_contract_metadata.name@ != env.current@
            &&& registry.hos_extension != env.current
            &&& registry.council != env.current
            &&& registry.treasury != env.current
            &&& registry.lease_term_ns >= 31_536_000_000_000_000
            &&& registry.grace_period_ns >= 2_592_000_000_000_000
        },
        r.recovery_wired <==> registry.recovery_authorities@.len() > 0,
        r.venue_set <==> registry.venues@.len() > 0,
        r.ft_allowlist_set <==> registry.ft_allowlist@.len() > 0,
        r.metadata_set <==> registry.nft_contract_metadata.name@ != env.current@,
        r.wiring_sane <==> registry.hos_extension != env.current && registry.council != env.current && registry.treasury
            != env.current,
        r.production_terms <==> registry.lease_term_ns >= 31_536_000_000_000_000 && registry.grace_period_ns
            >= 2_592_000_000_000_000,
{
}

// ---- pages ------------------------------------------------------------------------------------

/// A page holds the items from its start on, in order, as many as asked for or as are left.
pub proof fn a_page_is_the_next_items<T>(s: Seq<T>, from: nat, limit: nat)
    ensures
        ({
            let page = crate::nft::page_of(s, from, limit);
            let left: int = if from < s.len() {
                s.len() - from
            } else {
                0
            };
            &&& page.len() == (if limit < left {
                limit as int
            } else {
                left
            })
            &&& forall|i: int| 0 <= i < page.len() ==> #[trigger] page[i] == s[from + i]
        }),
{
}

/// A page of accounts shows the accounts in the order of their registration, each as it is shown by itself.
pub proof fn accounts_are_listed_in_order(
    registry: TlaRegistry,
    env: Env,
    from: u64,
    limit: u64,
    tla_id: AccountId,
    shown: Option<TlaView>,
    r: Vec<TlaView>,
)
    requires
        call_ensures(TlaRegistry::get_tla, (&registry, &env, tla_id), shown),
        call_ensures(TlaRegistry::list_tlas, (&registry, &env, from, limit), r),
    ensures
        registry.tlas@.has(tla_id) ==> shown == Some(registry.tla_view_of(env.now, tla_id)),
        ({
            let n = registry.tlas@.keys.len();
            &&& r@.len() == (if from + limit < n {
                limit as int
            } else if from < n {
                n - from
            } else {
                0
            })
            &&& forall|i: int|
                0 <= i < r@.len() ==> #[trigger] r@[i] == registry.tla_view_of(env.now, registry.tlas@.keys[from + i])
        }),
{
    a_page_is_the_next_items(registry.tlas@.keys, from as nat, limit as nat);
}

/// The names of a page, an owner's or an account's are shown in order, each with its row and its notice, leaving out only those of which
/// nothing is known.
pub proof fn names_are_listed_with_their_rows(registry: TlaRegistry, now: u64, keys: Seq<AccountId>)
    ensures
        ({
            let shown = registry.details_of(now, keys);
            &&& shown.len() <= keys.len()
            &&& forall|i: int|
                0 <= i < shown.len() ==> {
                    let key = (#[trigger] shown[i]).sub_account.full_name;
                    &&& keys.contains(key)
                    &&& registry.sub_accounts@.has(key)
                    &&& registry.tlas@.has(registry.sub_accounts@[key].tla_id)
                    &&& shown[i].sub_account.owner == registry.sub_accounts@[key].owner
                    &&& shown[i].sub_account.expires_at == registry.sub_accounts@[key].expires_at
                    &&& shown[i].sub_account.payout_account == registry.sub_accounts@[key].payout_account
                    &&& shown[i].retraction_at == registry.sub_accounts@[key].retraction_at
                }
            &&& (forall|i: int| 0 <= i < keys.len() ==> registry.detail_of(now, #[trigger] keys[i]) is Some) ==> shown.len()
                == keys.len() && forall|i: int|
                0 <= i < keys.len() ==> (#[trigger] shown[i]).sub_account.full_name == keys[i]
        }),
    decreases keys.len(),
{
    if keys.len() > 0 {
        let rest = keys.drop_last();
        names_are_listed_with_their_rows(registry, now, rest);
        let shown = registry.details_of(now, keys);
        let before = registry.details_of(now, rest);
        if forall|i: int| 0 <= i < keys.len() ==> registry.detail_of(now, #[trigger] keys[i]) is Some {
            assert forall|i: int| 0 <= i < rest.len() implies registry.detail_of(now, #[trigger] rest[i]) is Some by {
                assert(rest[i] == keys[i]);
            }
            assert(registry.detail_of(now, keys[keys.len() - 1]) is Some);
            assert forall|i: int| 0 <= i < keys.len() implies (#[trigger] shown[i]).sub_account.full_name == keys[i] by {
                if i < rest.len() {
                    assert(shown[i] == before[i]);
                    assert(rest[i] == keys[i]);
                }
            }
        }
        assert forall|i: int| 0 <= i < shown.len() implies {
            let key = (#[trigger] shown[i]).sub_account.full_name;
            &&& keys.contains(key)
            &&& registry.sub_accounts@.has(key)
            &&& registry.tlas@.has(registry.sub_accounts@[key].tla_id)
            &&& shown[i].sub_account.owner == registry.sub_accounts@[key].owner
            &&& shown[i].sub_account.expires_at == registry.sub_accounts@[key].expires_at
            &&& shown[i].sub_account.payout_account == registry.sub_accounts@[key].payout_account
            &&& shown[i].retraction_at == registry.sub_accounts@[key].retraction_at
        } by {
            if i < before.len() {
                assert(shown[i] == before[i]);
                let key = before[i].sub_account.full_name;
                assert(rest.contains(key));
                let j = choose|j: int| 0 <= j < rest.len() && rest[j] == key;
                assert(keys[j] == key);
            } else {
                assert(keys[keys.len() - 1] == shown[i].sub_account.full_name);
            }
        }
    }
}

/// A list of names is the page of all names, of an owner's or of an account's, as the indexes have them.
pub proof fn lists_go_by_the_indexes(
    registry: TlaRegistry,
    env: Env,
    owner: AccountId,
    tla_id: AccountId,
    from: u64,
    limit: u64,
    all: Vec<SubAccountDetailView>,
    owned: Vec<SubAccountDetailView>,
    under: Vec<SubAccountDetailView>,
)
    requires
        call_ensures(TlaRegistry::list_sub_accounts, (&registry, &env, from, limit), all),
        call_ensures(TlaRegistry::list_sub_accounts_by_owner, (&registry, &env, owner, from, limit), owned),
        call_ensures(TlaRegistry::list_sub_accounts_by_tla, (&registry, &env, tla_id, from, limit), under),
    ensures
        all@.len() <= limit && owned@.len() <= limit && under@.len() <= limit,
        registry.indexed() ==> forall|i: int| 0 <= i < owned@.len() ==> (#[trigger] owned@[i]).sub_account.owner == owner,
        registry.indexed() ==> forall|i: int| 0 <= i < under@.len() ==> (#[trigger] under@[i]).sub_account.tla_id == tla_id,
        all@ == registry.details_of(
            env.now,
            crate::nft::page_of(registry.sub_accounts@.keys, from as nat, limit as nat),
        ),
{
    let own = crate::indexes::names_under(registry.sub_accounts_by_owner@, owner);
    let below = crate::indexes::names_under(registry.sub_accounts_by_tla@, tla_id);
    let own_page = crate::nft::page_of(own, from as nat, limit as nat);
    let below_page = crate::nft::page_of(below, from as nat, limit as nat);
    names_are_listed_with_their_rows(
        registry,
        env.now,
        crate::nft::page_of(registry.sub_accounts@.keys, from as nat, limit as nat),
    );
    names_are_listed_with_their_rows(registry, env.now, own_page);
    names_are_listed_with_their_rows(registry, env.now, below_page);
    if registry.indexed() {
        assert forall|i: int| 0 <= i < owned@.len() implies (#[trigger] owned@[i]).sub_account.owner == owner by {
            let key = owned@[i].sub_account.full_name;
            let j = choose|j: int| 0 <= j < own_page.len() && own_page[j] == key;
            assert(own[from + j] == key);
            assert(own.contains(key));
        }
        lemma_shown_account(registry, env.now, below_page);
        assert forall|i: int| 0 <= i < under@.len() implies (#[trigger] under@[i]).sub_account.tla_id == tla_id by {
            let key = under@[i].sub_account.full_name;
            let j = choose|j: int| 0 <= j < below_page.len() && below_page[j] == key;
            assert(below[from + j] == key);
            assert(below.contains(key));
        }
    }
}

proof fn lemma_shown_account(registry: TlaRegistry, now: u64, keys: Seq<AccountId>)
    ensures
        forall|i: int|
            0 <= i < registry.details_of(now, keys).len() ==> (#[trigger] registry.details_of(now, keys)[i]).sub_account.tla_id
                == registry.sub_accounts@[registry.details_of(now, keys)[i].sub_account.full_name].tla_id,
    decreases keys.len(),
{
    if keys.len() > 0 {
        lemma_shown_account(registry, now, keys.drop_last());
        let before = registry.details_of(now, keys.drop_last());
        let shown = registry.details_of(now, keys);
        assert forall|i: int| 0 <= i < shown.len() implies (#[trigger] shown[i]).sub_account.tla_id
            == registry.sub_accounts@[shown[i].sub_account.full_name].tla_id by {
            if i < before.len() {
                assert(shown[i] == before[i]);
            }
        }
    }
}

/// The feed is shown newest first, as many records as asked for, and only those about the account that was asked about.
pub proof fn the_feed_shows_what_was_asked_for(registry: TlaRegistry, from: u64, limit: u64, account: Option<String>, r: Vec<ActivityView>)
    requires
        call_ensures(TlaRegistry::list_recent_activity, (&registry, from, limit, account), r),
    ensures
        r@.len() <= limit,
        account matches Some(text) ==> forall|i: int| 0 <= i < r@.len() ==> (#[trigger] r@[i]).account@ == text@,
        account is None ==> forall|i: int|
            0 <= i < r@.len() ==> {
                let record = registry.recent_activity@[from + i];
                &&& (#[trigger] r@[i]).account == record.account
                &&& r@[i].event == record.event
                &&& r@[i].block_height == record.block_height
                &&& r@[i].block_timestamp == record.block_timestamp
            },
{
    let feed = registry.recent_activity@;
    let wanted = crate::views::text_of(account);
    let kept = crate::views::feed_about(feed, wanted);
    let pred = |record: crate::types::ActivityRecord| crate::views::about(record, wanted);
    broadcast use vstd::seq_lib::group_filter_ensures;
    a_page_is_the_next_items(kept, from as nat, limit as nat);
    let page = crate::nft::page_of(kept, from as nat, limit as nat);
    if account is Some {
        assert forall|i: int| 0 <= i < r@.len() implies (#[trigger] r@[i]).account@ == account->0@ by {
            assert(page[i] == kept[from + i]);
            assert(pred(kept[from + i]));
        }
    } else {
        lemma_all_kept(feed, pred);
        assert(kept =~= feed);
        assert forall|i: int| 0 <= i < r@.len() implies {
            let record = registry.recent_activity@[from + i];
            &&& (#[trigger] r@[i]).account == record.account
            &&& r@[i].event == record.event
            &&& r@[i].block_height == record.block_height
            &&& r@[i].block_timestamp == record.block_timestamp
        } by {
            assert(page[i] == kept[from + i]);
        }
    }
}

proof fn lemma_all_kept<T>(s: Seq<T>, pred: spec_fn(T) -> bool)
    requires
        forall|i: int| 0 <= i < s.len() ==> pred(#[trigger] s[i]),
    ensures
        s.filter(pred) == s,
    decreases s.len(),
{
    reveal(Seq::filter);
    if s.len() > 0 {
        lemma_all_kept(s.drop_last(), pred);
        assert(s.drop_last().push(s.last()) =~= s);
    }
}

// ---- tokens -----------------------------------------------------------------------------------

/// A token that stands for a row.
pub open spec fn token_shows(t: Token, id: AccountId, registry: TlaRegistry) -> bool {
    let sub = registry.sub_accounts@[id];
    &&& t.token_id == id
    &&& t.owner_id == sub.owner
    &&& t.metadata matches Some(m)
    &&& m.title matches Some(title)
    &&& title@ == id@
    &&& m.copies == Some(1u64)
    &&& m.extra matches Some(extra)
    &&& extra@ == "{\"rented_at\":\""@ + crate::text::decimal(sub.rented_at as nat) + "\",\"expires_at\":\""@
        + crate::text::decimal(sub.expires_at as nat) + "\"}"@
}

proof fn lemma_token_shows(t: Token, id: AccountId, registry: TlaRegistry)
    requires
        crate::nft::is_token(t, id, registry.sub_accounts@[id]),
    ensures
        token_shows(t, id, registry),
{
    reveal_strlit("rented_at");
    reveal_strlit("expires_at");
    reveal_strlit("{\"rented_at\":\"");
    reveal_strlit("\",\"expires_at\":\"");
    reveal_strlit("\"}");
    let sub = registry.sub_accounts@[id];
    assert(crate::nft::lease_text(sub) =~= "{\"rented_at\":\""@ + crate::text::decimal(sub.rented_at as nat)
        + "\",\"expires_at\":\""@ + crate::text::decimal(sub.expires_at as nat) + "\"}"@);
}

/// There is a token exactly for each rented name; it is its owner's, and carries its lease.
pub proof fn a_token_is_a_rented_name(registry: TlaRegistry, token_id: String, r: Option<Token>)
    requires
        call_ensures(TlaRegistry::nft_token, (&registry, token_id), r),
    ensures
        r is Some <==> crate::account::is_account_id(token_id@) && registry.sub_accounts@.has(AccountId::of(token_id@)),
        r matches Some(t) ==> token_shows(t, AccountId::of(token_id@), registry),
{
    if let Some(t) = r {
        lemma_token_shows(t, AccountId::of(token_id@), registry);
    }
}

/// The tokens are walked in order, a hundred at a time at the most.
pub proof fn tokens_are_walked_in_order(registry: TlaRegistry, from: Option<u128>, limit: Option<u64>, r: Vec<Token>)
    requires
        call_ensures(TlaRegistry::nft_tokens, (&registry, from, limit), r),
        from is Some ==> from->0 <= u64::MAX,
    ensures
        ({
            let keys = registry.sub_accounts@.keys;
            let start: int = if from is Some {
                from->0 as int
            } else {
                0
            };
            let most: int = if limit is Some && limit->0 < 100 {
                limit->0 as int
            } else {
                100
            };
            &&& r@.len() == (if start >= keys.len() {
                0
            } else if start + most < keys.len() {
                most
            } else {
                keys.len() - start
            })
            &&& forall|i: int| 0 <= i < r@.len() ==> token_shows(#[trigger] r@[i], keys[start + i], registry)
        }),
{
    let keys = registry.sub_accounts@.keys;
    let start = crate::nft::token_start(from) as nat;
    let size = crate::nft::token_limit(limit) as nat;
    a_page_is_the_next_items(keys, start, size);
    let page = crate::nft::page_of(keys, start, size);
    assert forall|i: int| 0 <= i < r@.len() implies token_shows(#[trigger] r@[i], keys[start + i], registry) by {
        assert(page[i] == keys[start + i]);
        lemma_token_shows(r@[i], page[i], registry);
    }
}

/// An owner's supply and pages go by the index of owners; a page starts at the name that was asked for, shows at least one token where
/// one is left and a hundred at the most, and says where the next page starts.
pub proof fn an_owner_walks_their_tokens(
    registry: TlaRegistry,
    owner: AccountId,
    from: Option<String>,
    limit: Option<u64>,
    supply: u128,
    r: Result<TokenPage, ContractError>,
)
    requires
        call_ensures(TlaRegistry::nft_supply_for_owner, (&registry, owner), supply),
        call_ensures(TlaRegistry::nft_tokens_for_owner_page, (&registry, owner, from, limit), r),
        registry.indexed(),
    ensures
        ({
            let names = crate::indexes::names_under(registry.sub_accounts_by_owner@, owner);
            let asked = AccountId::of(from->0@);
            let known = from is None || crate::account::is_account_id(from->0@) && names.contains(asked);
            let most: int = if limit is Some && limit->0 == 0 {
                1
            } else if limit is Some && limit->0 < 100 {
                limit->0 as int
            } else {
                100
            };
            &&& supply == names.len()
            &&& r is Ok <==> known
            &&& r matches Err(e) ==> e is UnknownCursor
            &&& r matches Ok(page) ==> {
                let start = if from is Some {
                    crate::ordered::position_of(names, asked)
                } else {
                    0
                };
                let end = if start + most < names.len() {
                    start + most
                } else {
                    names.len() as int
                };
                &&& page.tokens@.len() == end - start
                &&& forall|i: int|
                    0 <= i < page.tokens@.len() ==> token_shows(#[trigger] page.tokens@[i], names[start + i], registry)
                &&& page.next is Some <==> end < names.len()
                &&& page.next matches Some(next) ==> next == names[end]
            }
        }),
{
    let names = crate::indexes::names_under(registry.sub_accounts_by_owner@, owner);
    if let Ok(page) = r {
        let asked = AccountId::of(from->0@);
        let start = if from is Some {
            crate::ordered::position_of(names, asked)
        } else {
            0
        };
        if from is Some {
            let w = choose|w: int| 0 <= w < names.len() && names[w] == asked;
            assert(0 <= start < names.len());
        }
        let size = if crate::nft::token_limit(limit) == 0 {
            1
        } else {
            crate::nft::token_limit(limit) as nat
        };
        let end = crate::nft::page_end(names.len(), start as nat, size);
        let cut = names.subrange(start, end);
        let pred = |k: AccountId| registry.sub_accounts@.has(k);
        assert forall|i: int| 0 <= i < cut.len() implies pred(#[trigger] cut[i]) by {
            assert(names[start + i] == cut[i]);
            assert(names.contains(cut[i]));
        }
        lemma_all_kept(cut, pred);
        assert forall|i: int| 0 <= i < page.tokens@.len() implies token_shows(
            #[trigger] page.tokens@[i],
            names[start + i],
            registry,
        ) by {
            assert(cut[i] == names[start + i]);
            lemma_token_shows(page.tokens@[i], cut[i], registry);
        }
    }
}

/// The supply is the number of names counted.
pub proof fn the_supply_counts_names(registry: TlaRegistry, r: u128)
    requires
        call_ensures(TlaRegistry::nft_total_supply, (&registry,), r),
    ensures
        r == registry.sub_account_count,
{
}

// ---- words ------------------------------------------------------------------------------------

/// What the feed keeps of an event: its kind and the name that it is about, for the six events of a name's life, and nothing of any other.
pub proof fn the_feed_keeps_the_life_of_names(e: Event)
    ensures
        e matches Event::SubAccountRented { full_name, .. } ==> e.activity() == Some((ActivityKind::Rented, full_name)),
        e matches Event::SubAccountReRented { full_name, .. } ==> e.activity() == Some((ActivityKind::ReRented, full_name)),
        e matches Event::SubAccountRenewed { full_name, .. } ==> e.activity() == Some((ActivityKind::Renewed, full_name)),
        e matches Event::SubAccountTransferred { full_name, .. } ==> e.activity() == Some(
            (ActivityKind::Transferred, full_name),
        ),
        e matches Event::SubAccountRecovered { full_name, .. } ==> e.activity() == Some((ActivityKind::Recovered, full_name)),
        e matches Event::SubAccountReclaimed { full_name, .. } ==> e.activity() == Some((ActivityKind::Reclaimed, full_name)),
        e.activity() is Some ==> {
            ||| e is SubAccountRented
            ||| e is SubAccountReRented
            ||| e is SubAccountRenewed
            ||| e is SubAccountTransferred
            ||| e is SubAccountRecovered
            ||| e is SubAccountReclaimed
        },
{
}

/// The words for refunds, for what holds a name back, for lease updates and for the kinds of activity.
pub proof fn the_words()
    ensures
        RefundReason::TransferFailed.words() == "transfer_failed"@,
        RefundReason::CreationFailed.words() == "sub-account creation failed"@,
        RefundReason::MintChainFailed.words() == "sub-account mint chain failed without an outcome"@,
        RefundReason::PaidCreationFailed.words() == "paid sub-account creation failed"@,
        RefundReason::PaidMintChainFailed.words() == "paid sub-account mint chain failed without an outcome"@,
        RefundReason::ReRentBlocked.words() == "re-rent blocked by asset gate"@,
        RefundReason::ReRentFailed.words() == "sub-account re-rent failed"@,
        RefundReason::RenewalFailed.words() == "sub-account renewal failed"@,
        BlockReason::NonzeroBalance.words() == "nonzero_balance"@,
        BlockReason::BalanceUnknown.words() == "balance_unknown"@,
        BlockReason::NoLongerReclaimable.words() == "no_longer_reclaimable"@,
        BlockReason::ParkFailed.words() == "park_failed"@,
        LeaseIntent::Retract.words() == "retract"@,
        LeaseIntent::Restore.words() == "restore"@,
{
}

/// The number that decimal digits stand for.
pub open spec fn value_of(digits: Seq<char>) -> int
    decreases digits.len(),
{
    if digits.len() == 0 {
        0
    } else {
        value_of(digits.drop_last()) * 10 + (digits.last() as int - '0' as int)
    }
}

/// A number written in decimal reads back as the number.
pub proof fn a_decimal_reads_back(n: nat)
    ensures
        value_of(crate::text::decimal(n)) == n,
    decreases n,
{
    if n < 10 {
        assert(crate::text::decimal(n).drop_last() =~= Seq::<char>::empty());
        assert(value_of(Seq::<char>::empty()) == 0);
    } else {
        a_decimal_reads_back(n / 10);
        assert(crate::text::decimal(n).drop_last() =~= crate::text::decimal(n / 10));
    }
}

/// A name is detailed exactly if it is rented under a known account that its id ends in; it then shows its row, priced by its label, and its notice.
pub proof fn a_name_is_detailed_by_its_row(registry: TlaRegistry, now: u64, key: AccountId, label: Seq<char>)
    requires
        key@ == label + seq!['.'] + registry.sub_accounts@[key].tla_id@,
    ensures
        ({
            let sub = registry.sub_accounts@[key];
            let detail = registry.detail_of(now, key);
            &&& detail is Some <==> registry.sub_accounts@.has(key) && registry.tlas@.has(sub.tla_id)
            &&& detail matches Some(view) ==> shows_row(view.sub_account, registry, now, key, sub.tla_id, label)
                && view.retraction_at == sub.retraction_at
        }),
{
    let tla_id = registry.sub_accounts@[key].tla_id;
    assert(crate::account::sub_account_text(tla_id, label) =~= key@);
    crate::account::label_of_a_full_name(tla_id, label);
}

/// Names are detailed one by one, in order: the last one comes last if it is detailed at all.
pub proof fn names_are_detailed_in_order(registry: TlaRegistry, now: u64, keys: Seq<AccountId>, last: AccountId)
    ensures
        registry.detail_of(now, last) matches Some(view) ==> registry.details_of(now, keys.push(last))
            == registry.details_of(now, keys).push(view),
        registry.detail_of(now, last) is None ==> registry.details_of(now, keys.push(last)) == registry.details_of(
            now,
            keys,
        ),
        registry.details_of(now, Seq::<AccountId>::empty()).len() == 0,
{
    assert(keys.push(last).drop_last() =~= keys);
}

/// An owner's tokens are walked by their index too, a hundred at a time at the most.
pub proof fn an_owner_walks_their_tokens_by_number(registry: TlaRegistry, owner: AccountId, from: Option<u128>, limit: Option<u64>, r: Vec<Token>)
    requires
        call_ensures(TlaRegistry::nft_tokens_for_owner, (&registry, owner, from, limit), r),
        from is Some ==> from->0 <= u64::MAX,
        registry.indexed(),
    ensures
        ({
            let names = crate::indexes::names_under(registry.sub_accounts_by_owner@, owner);
            let start: int = if from is Some {
                from->0 as int
            } else {
                0
            };
            let most: int = if limit is Some && limit->0 < 100 {
                limit->0 as int
            } else {
                100
            };
            &&& r@.len() == (if start >= names.len() {
                0
            } else if start + most < names.len() {
                most
            } else {
                names.len() - start
            })
            &&& forall|i: int| 0 <= i < r@.len() ==> token_shows(#[trigger] r@[i], names[start + i], registry)
        }),
{
    let names = crate::indexes::names_under(registry.sub_accounts_by_owner@, owner);
    let start = crate::nft::token_start(from) as nat;
    let size = crate::nft::token_limit(limit) as nat;
    a_page_is_the_next_items(names, start, size);
    let page = crate::nft::page_of(names, start, size);
    let pred = |k: AccountId| registry.sub_accounts@.has(k);
    assert forall|i: int| 0 <= i < page.len() implies pred(#[trigger] page[i]) by {
        assert(page[i] == names[start + i]);
        assert(names.contains(page[i]));
    }
    lemma_all_kept(page, pred);
    assert forall|i: int| 0 <= i < r@.len() implies token_shows(#[trigger] r@[i], names[start + i], registry) by {
        assert(page[i] == names[start + i]);
        lemma_token_shows(r@[i], page[i], registry);
    }
}

/// The words for the kinds of activity, and for each refusal that is told in words.
pub proof fn the_messages(
    activity_kind: ActivityKind,
    activity_kind_text: &'static str,
    init_error: crate::error::InitError,
    init_error_text: &'static str,
    migration_error: crate::legacy::MigrationError,
    migration_error_text: &'static str,
    deployer_error: crate::deployer::DeployerError,
    deployer_error_text: &'static str,
    ft_error: crate::test_ft::FtError,
    ft_error_text: &'static str,
    dapp_error: crate::test_dapp::DappError,
    dapp_error_text: &'static str,
    pool_error: crate::test_staking_pool::PoolError,
    pool_error_text: &'static str,
)
    requires
        call_ensures(ActivityKind::label, (&activity_kind,), activity_kind_text),
        call_ensures(crate::error::InitError::message, (&init_error,), init_error_text),
        call_ensures(crate::legacy::MigrationError::message, (&migration_error,), migration_error_text),
        call_ensures(crate::deployer::DeployerError::message, (&deployer_error,), deployer_error_text),
        call_ensures(crate::test_ft::FtError::message, (&ft_error,), ft_error_text),
        call_ensures(crate::test_dapp::DappError::message, (&dapp_error,), dapp_error_text),
        call_ensures(crate::test_staking_pool::PoolError::message, (&pool_error,), pool_error_text),
    ensures
        activity_kind is Rented ==> activity_kind_text@ == "sub_account_rented"@,
        activity_kind is ReRented ==> activity_kind_text@ == "sub_account_re_rented"@,
        activity_kind is Renewed ==> activity_kind_text@ == "sub_account_renewed"@,
        activity_kind is Transferred ==> activity_kind_text@ == "sub_account_transferred"@,
        activity_kind is Recovered ==> activity_kind_text@ == "sub_account_recovered"@,
        activity_kind is Reclaimed ==> activity_kind_text@ == "sub_account_reclaimed"@,
        init_error is GracePeriodTooShort ==> init_error_text@ == "grace period too short"@,
        init_error is LeaseTermTooShort ==> init_error_text@ == "lease term too short"@,
        init_error is LeaseTermTooLong ==> init_error_text@ == "lease term too long"@,
        init_error is CouncilIsRegistry ==> init_error_text@ == "council must not be the registry"@,
        init_error is WiringPointsAtRegistry ==> init_error_text@ == "wiring must not point at the registry"@,
        migration_error is NoState ==> migration_error_text@ == "no state to migrate"@,
        migration_error is StateVersionUnknown ==> migration_error_text@ == "state version is not the one this code understands"@,
        deployer_error is OnlyCouncil ==> deployer_error_text@ == "only council"@,
        deployer_error is NoApprovedHash ==> deployer_error_text@ == "no approved code hash"@,
        deployer_error is HashMismatch ==> deployer_error_text@ == "code does not match the approved hash"@,
        deployer_error is DeployInFlight ==> deployer_error_text@ == "another deploy is in flight"@,
        deployer_error is ApprovalTooYoung ==> deployer_error_text@ == "approved code must wait out the delay before publishing"@,
        deployer_error is InsufficientDeposit ==> deployer_error_text@ == "attached deposit below global storage cost"@,
        deployer_error is EmptyCode ==> deployer_error_text@ == "code must not be empty"@,
        deployer_error is CostOverflow ==> deployer_error_text@ == "storage cost overflow"@,
        deployer_error is RequiresOneYocto ==> deployer_error_text@ == "requires an attached deposit of exactly 1 yoctoNEAR"@,
        deployer_error is CouncilIsSelf ==> deployer_error_text@ == "council must not be this account, which ends with no keys"@,
        deployer_error is CouncilUnchanged ==> deployer_error_text@ == "the pending council must differ from the current one"@,
        deployer_error is NoCouncilRotationPending ==> deployer_error_text@ == "no council rotation has been approved"@,
        deployer_error is OnlyPendingCouncil ==> deployer_error_text@ == "only the incoming council"@,
        deployer_error is CouncilRotationTooYoung ==> deployer_error_text@ == "an approved council rotation must wait out the delay before it commits"@,
        deployer_error is NoApprovedUpgrade ==> deployer_error_text@ == "no approved upgrade hash"@,
        deployer_error is UpgradeHashMismatch ==> deployer_error_text@ == "code does not match the approved upgrade hash"@,
        deployer_error is UpgradeTooYoung ==> deployer_error_text@ == "an approved upgrade must wait out the delay before it installs"@,
        deployer_error is NoState ==> deployer_error_text@ == "no state to migrate"@,
        deployer_error is StateVersionUnknown ==> deployer_error_text@ == "state version is not the one this code understands"@,
        deployer_error is UpgradeNotProven ==> deployer_error_text@ == "the upgrade path has not been exercised on this account yet"@,
        ft_error is RequiresOneYocto ==> ft_error_text@ == "requires_one_yocto"@,
        ft_error is ReceiverNotRegistered ==> ft_error_text@ == "receiver_not_registered"@,
        ft_error is NotEnoughBalance ==> ft_error_text@ == "not_enough_balance"@,
        ft_error is StorageDepositRefused ==> ft_error_text@ == "storage_deposit_refused"@,
        dapp_error is UnknownToken ==> dapp_error_text@ == "unknown_token"@,
        dapp_error is ReceiverRejected ==> dapp_error_text@ == "receiver_rejected"@,
        pool_error is NoDeposit ==> pool_error_text@ == "no_deposit"@,
        pool_error is NotEnoughStaked ==> pool_error_text@ == "not_enough_staked"@,
        pool_error is NotEnoughUnstaked ==> pool_error_text@ == "not_enough_unstaked"@,
{
}

} // verus!
