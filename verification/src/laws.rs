//! What holds of the registry across its calls.
use vstd::prelude::*;

use crate::account::AccountId;
use crate::host::Env;
use crate::registry::TlaRegistry;
use crate::types::SubAccountEntry;

verus! {

// ---- what is owed -----------------------------------------------------------------------------

impl TlaRegistry {
    /// The total of what is owed is the sum of what each account is owed.
    pub open spec fn books_balance(self) -> bool {
        &&& self.pending_refunds@.consistent()
        &&& crate::totals::total_of(self.pending_refunds@) == self.total_pending_refunds
    }
}

/// A new registry owes nothing.
pub proof fn a_new_registry_owes_nothing(registry: TlaRegistry, account: AccountId)
    requires
        registry.untouched(),
    ensures
        registry.books_balance(),
        registry.refund_of(account) == 0,
{
}

/// Owing more keeps the books, adds to the one account exactly what is owed, and leaves every other
/// account as it was.
pub proof fn owing_more_keeps_the_books(
    before: TlaRegistry,
    after: TlaRegistry,
    account: AccountId,
    amount: u128,
    other: AccountId,
)
    requires
        before.books_balance(),
        before.total_pending_refunds + amount <= u128::MAX,
        after.owes_more(before, account, amount),
        other != account,
    ensures
        after.books_balance(),
        after.refund_of(account) == before.refund_of(account) + amount,
        after.refund_of(other) == before.refund_of(other),
        after.total_pending_refunds == before.total_pending_refunds + amount,
{
    crate::totals::no_amount_is_over_the_total(before.pending_refunds@, account);
    crate::totals::writing_moves_the_total(
        before.pending_refunds@,
        account,
        (before.refund_of(account) + amount) as u128,
    );
}

/// Owing back what was paid beyond a charge keeps the books.
pub proof fn owing_an_excess_keeps_the_books(
    before: TlaRegistry,
    after: TlaRegistry,
    payer: AccountId,
    attached: u128,
    charged: u128,
    other: AccountId,
)
    requires
        before.books_balance(),
        before.total_pending_refunds + attached <= u128::MAX,
        after.owes_excess(before, payer, attached, charged),
        other != payer,
    ensures
        after.books_balance(),
        attached >= charged ==> after.refund_of(payer) == before.refund_of(payer) + attached - charged,
        after.refund_of(other) == before.refund_of(other),
{
    if attached > charged {
        owing_more_keeps_the_books(before, after, payer, (attached - charged) as u128, other);
    }
}

/// A payout clears the entry, keeps the books, and takes exactly what was owed off the total.
pub proof fn a_payout_keeps_the_books(before: TlaRegistry, after: TlaRegistry, caller: AccountId, other: AccountId)
    requires
        before.books_balance(),
        after.pending_refunds@ == before.pending_refunds@.remove(caller),
        after.total_pending_refunds == crate::common::floored(
            before.total_pending_refunds as int,
            before.refund_of(caller) as int,
        ),
        other != caller,
    ensures
        after.books_balance(),
        after.refund_of(caller) == 0,
        after.refund_of(other) == before.refund_of(other),
        after.total_pending_refunds == before.total_pending_refunds - before.refund_of(caller),
{
    crate::totals::no_amount_is_over_the_total(before.pending_refunds@, caller);
    crate::totals::striking_takes_the_amount_off(before.pending_refunds@, caller);
}

/// A refund is cleared before it is paid and owed again if the payment fails: a failed payment leaves
/// every account owed what it was owed.
pub proof fn a_failed_payout_is_owed_again(
    before: TlaRegistry,
    paying: TlaRegistry,
    after: TlaRegistry,
    caller: AccountId,
    account: AccountId,
)
    requires
        before.books_balance(),
        paying.pending_refunds@ == before.pending_refunds@.remove(caller),
        paying.total_pending_refunds == crate::common::floored(
            before.total_pending_refunds as int,
            before.refund_of(caller) as int,
        ),
        after.owes_more(paying, caller, before.refund_of(caller)),
    ensures
        after.books_balance(),
        after.refund_of(account) == before.refund_of(account),
        after.total_pending_refunds == before.total_pending_refunds,
{
    let amount = before.refund_of(caller);
    crate::totals::no_amount_is_over_the_total(before.pending_refunds@, caller);
    crate::totals::striking_takes_the_amount_off(before.pending_refunds@, caller);
    crate::totals::writing_moves_the_total(paying.pending_refunds@, caller, amount);
}

/// A withdrawal leaves enough for every refund that was owed before it.
pub proof fn a_withdrawal_spares_the_refunds(registry: TlaRegistry, env: Env, amount: u128)
    requires
        registry.withdraw_refusal(env, amount) is None,
        registry.total_pending_refunds + amount <= u128::MAX,
    ensures
        amount + registry.total_pending_refunds <= env.spendable(),
        amount <= registry.total_revenue,
        env.predecessor == registry.treasury || env.predecessor == registry.council,
{
}

/// A mint that fails leaves the name unrented and the payer owed all that they attached.
pub proof fn a_failed_mint_makes_the_payer_whole(
    before: TlaRegistry,
    after: TlaRegistry,
    order_id: Option<String>,
    key: AccountId,
    tla_id: AccountId,
    payer: AccountId,
    attached: u128,
)
    requires
        before.books_balance(),
        before.sub_accounts@.has(key),
        before.total_pending_refunds + attached <= u128::MAX,
        after.mint_undone(before, order_id, key, tla_id, payer, attached),
    ensures
        !after.sub_accounts@.has(key),
        after.books_balance(),
        after.refund_of(payer) == before.refund_of(payer) + attached,
        after.total_revenue == before.total_revenue,
{
    crate::totals::no_amount_is_over_the_total(before.pending_refunds@, payer);
    crate::totals::writing_moves_the_total(
        before.pending_refunds@,
        payer,
        (before.refund_of(payer) + attached) as u128,
    );
}

// ---- orders and allowances --------------------------------------------------------------------

/// An order that is in flight or settled is never taken a second time.
pub proof fn an_order_is_taken_once(
    registry: TlaRegistry,
    env: Env,
    tla_id: AccountId,
    name: Seq<char>,
    payout_account: AccountId,
    order_id: Seq<char>,
)
    requires
        registry.paid_order_ids@.has(order_id),
    ensures
        registry.paid_rent_refusal(env, tla_id, name, payout_account, order_id) is Some,
{
}

/// Once an order is settled no later answer releases it or settles it again: whatever name and payer
/// such an answer speaks for, the orders and the allowances stay as they are.
pub proof fn a_settled_order_stays_settled(
    before: TlaRegistry,
    settled: TlaRegistry,
    after: TlaRegistry,
    order_id: String,
    key: AccountId,
    payer: AccountId,
    late_key: AccountId,
    late_payer: AccountId,
    tla_id: AccountId,
)
    requires
        crate::callbacks::order_is_ours(before, order_id, key, payer),
        settled.order_confirmed(before, Some(order_id), key, payer),
        after.order_released(settled, Some(order_id), late_key, late_payer, tla_id) || after.order_confirmed(
            settled,
            Some(order_id),
            late_key,
            late_payer,
        ),
    ensures
        after.paid_order_ids == settled.paid_order_ids,
        after.order_released(settled, Some(order_id), late_key, late_payer, tla_id) ==> after.authority_mints
            == settled.authority_mints,
{
}

/// A prepaid rental never takes an authority past its allowance.
pub proof fn an_allowance_is_never_exceeded(
    registry: TlaRegistry,
    env: Env,
    tla_id: AccountId,
    name: Seq<char>,
    payout_account: AccountId,
    order_id: Seq<char>,
)
    requires
        registry.paid_rent_refusal(env, tla_id, name, payout_account, order_id) is None,
    ensures
        registry.authority_allowances@.has((env.predecessor, tla_id)),
        registry.mints_used(env.predecessor, tla_id) + 1 <= registry.authority_allowances@[(
            env.predecessor,
            tla_id,
        )],
{
}

/// A prepaid rental that came to nothing gives the authority its mint back: the count is what it was.
pub proof fn a_released_order_gives_its_mint_back(
    before: TlaRegistry,
    rented: TlaRegistry,
    after: TlaRegistry,
    order_id: String,
    key: AccountId,
    payer: AccountId,
    tla_id: AccountId,
)
    requires
        rented.authority_mints@ == before.authority_mints@.insert(
            (payer, tla_id),
            (before.mints_used(payer, tla_id) + 1) as u64,
        ),
        before.mints_used(payer, tla_id) < u64::MAX,
        crate::callbacks::order_is_ours(rented, order_id, key, payer),
        after.order_released(rented, Some(order_id), key, payer, tla_id),
    ensures
        after.mints_used(payer, tla_id) == before.mints_used(payer, tla_id),
        !after.paid_order_ids@.has(order_id@),
{
}

// ---- renting ----------------------------------------------------------------------------------

/// What is quoted for a name covers what renting it then takes, at the same rate and on the same
/// terms.
pub proof fn a_quote_covers_the_rent(registry: TlaRegistry, now: u64, tla_id: AccountId, name: Seq<char>)
    requires
        registry.wf(),
        registry.rent_price_refusal(now, tla_id, name) is None,
    ensures
        ({
            let re_rent = registry.parked(tla_id, name);
            let deposit = if re_rent {
                0
            } else {
                registry.fee_config.account_creation_deposit_yocto
            };
            crate::common::capped_u128(registry.quote_of(registry.rent_usd(tla_id, name)) + deposit)
                >= registry.rent_due(tla_id, name, re_rent)
        }),
{
    let usd = registry.rent_usd(tla_id, name);
    let rate = registry.near_usd_rate_micro as int;
    let n = usd * crate::pricing::YOCTO_PER_NEAR;
    assert(0 <= n / rate <= n) by (nonlinear_arith)
        requires
            n >= 0,
            rate >= 1,
    ;
    let price = registry.price_of(usd) as int;
    let bps = registry.fee_config.quote_slippage_bps as int;
    assert(price * bps <= 1_000_000_000_000_000_000_000_000_000_000_000_000_000_000) by (nonlinear_arith)
        requires
            0 <= price <= 100_000_000_000_000_000_000_000_000_000_000_000_000,
            0 <= bps <= 10_000,
    ;
    crate::pricing::quote_covers_the_price(price, bps);
}

/// A name just rented is live, under its owner, for a whole term.
pub proof fn a_new_lease_is_active(
    before: TlaRegistry,
    after: TlaRegistry,
    now: u64,
    tla_id: AccountId,
    key: AccountId,
    owner: AccountId,
    payout: AccountId,
)
    requires
        before.lease_term_ns > 0,
        now < u64::MAX,
        before.rental_refusal(now, tla_id, owner) is None,
        after.row_written(before, key, before.rental_row(now, tla_id, owner, payout)),
        after.tlas == before.tlas,
        after.suspended_until == before.suspended_until,
    ensures
        after.owned_by(key, owner),
        after.name_lifecycle(now, tla_id, key) is Active,
        after.sub_accounts@[key].expires_at == crate::common::capped_u64(now + before.lease_term_ns),
{
}

/// A rented name cannot be rented again, by anyone.
pub proof fn a_rented_name_is_taken(
    registry: TlaRegistry,
    env: Env,
    tla_id: AccountId,
    name: Seq<char>,
    owner_account: Option<AccountId>,
    payout_account: AccountId,
    order_id: Seq<char>,
)
    requires
        registry.sub_accounts@.has(crate::account::sub_account_id(tla_id, name)),
    ensures
        registry.rent_refusal(env, tla_id, name, owner_account) is Some,
        registry.paid_rent_refusal(env, tla_id, name, payout_account, order_id) is Some,
{
}

/// A business account never has more names than its cap when one is rented.
pub proof fn a_business_cap_holds(
    before: TlaRegistry,
    after: TlaRegistry,
    env: Env,
    tla_id: AccountId,
    name: Seq<char>,
    owner_account: Option<AccountId>,
    row: SubAccountEntry,
)
    requires
        before.is_business(tla_id),
        before.rent_refusal(env, tla_id, name, owner_account) is None,
        row.tla_id == tla_id,
        after.row_written(before, crate::account::sub_account_id(tla_id, name), row),
    ensures
        after.business_count(tla_id) == before.business_count(tla_id) + 1,
        after.business_count(tla_id) <= before.business_cap(tla_id),
{
}

/// Undoing a rental gives a business account its place back.
pub proof fn an_undone_rental_frees_its_place(
    before: TlaRegistry,
    rented: TlaRegistry,
    after: TlaRegistry,
    key: AccountId,
    row: SubAccountEntry,
    payer: AccountId,
    attached: u128,
)
    requires
        before.is_business(row.tla_id),
        before.business_count(row.tla_id) < u32::MAX,
        rented.row_written(before, key, row),
        rented.tlas == before.tlas,
        after.row_undone(rented, key, row.tla_id, payer, attached),
    ensures
        after.business_count(row.tla_id) == before.business_count(row.tla_id),
{
}

/// A renewal never shortens a lease, and the one asked for is a whole term longer than both now and
/// the running one, as far as time reaches.
pub proof fn a_renewal_never_shortens_a_lease(sub: SubAccountEntry, now: u64, lease_term_ns: u64, new_expires_at: u64)
    requires
        new_expires_at == crate::common::capped_u64(
            crate::common::max_u64(now, sub.expires_at) + lease_term_ns,
        ),
    ensures
        crate::common::max_u64(sub.expires_at, new_expires_at) >= sub.expires_at,
        crate::common::max_u64(sub.expires_at, new_expires_at) == new_expires_at,
        new_expires_at < u64::MAX ==> new_expires_at >= sub.expires_at + lease_term_ns,
{
}

/// Changing a row in place, under the same owner and top level account, keeps the indexes.
pub proof fn changing_a_row_keeps_the_indexes(
    before: TlaRegistry,
    after: TlaRegistry,
    key: AccountId,
    row: SubAccountEntry,
)
    requires
        before.indexed(),
        before.sub_accounts@.has(key),
        row.owner == before.sub_accounts@[key].owner,
        row.tla_id == before.sub_accounts@[key].tla_id,
        after.sub_accounts@ == before.sub_accounts@.insert(key, row),
        after.sub_accounts_by_owner == before.sub_accounts_by_owner,
        after.sub_accounts_by_tla == before.sub_accounts_by_tla,
    ensures
        after.indexed(),
{
    assert forall|k: AccountId| #[trigger] after.sub_accounts@.has(k) implies crate::indexes::names_under(
        after.sub_accounts_by_owner@,
        after.sub_accounts@[k].owner,
    ).contains(k) && crate::indexes::names_under(
        after.sub_accounts_by_tla@,
        after.sub_accounts@[k].tla_id,
    ).contains(k) by {
        assert(before.sub_accounts@.has(k));
    }
    assert forall|o: AccountId, k: AccountId| #[trigger]
        crate::indexes::names_under(after.sub_accounts_by_owner@, o).contains(k) implies after.sub_accounts@.has(k)
        && after.sub_accounts@[k].owner == o by {
        assert(crate::indexes::names_under(before.sub_accounts_by_owner@, o).contains(k));
    }
    assert forall|t: AccountId, k: AccountId| #[trigger]
        crate::indexes::names_under(after.sub_accounts_by_tla@, t).contains(k) implies after.sub_accounts@.has(k)
        && after.sub_accounts@[k].tla_id == t by {
        assert(crate::indexes::names_under(before.sub_accounts_by_tla@, t).contains(k));
    }
}

// ---- the names of a business account ----------------------------------------------------------

impl TlaRegistry {
    /// Every name stands under a registered account, and what is counted for a business account is how
    /// many names it has.
    pub open spec fn counted(self) -> bool {
        &&& forall|k: AccountId| #[trigger] self.sub_accounts@.has(k) ==> self.tlas@.has(self.sub_accounts@[k].tla_id)
        &&& forall|id: AccountId| #[trigger]
            self.business_count(id) == (if self.is_business(id) {
                crate::indexes::names_under(self.sub_accounts_by_tla@, id).len() as int
            } else {
                0
            })
    }
}

/// A new registry has no names and counts none.
pub proof fn a_new_registry_counts_no_names(registry: TlaRegistry)
    requires
        registry.untouched(),
    ensures
        registry.indexed(),
        registry.counted(),
{
}

/// Registering an account keeps the count.
pub proof fn registering_keeps_the_count(
    before: TlaRegistry,
    after: TlaRegistry,
    tla_id: AccountId,
    entry: crate::types::TlaEntry,
)
    requires
        before.indexed(),
        before.counted(),
        !before.tlas@.has(tla_id),
        after.tlas@ == before.tlas@.insert(tla_id, entry),
        after == (TlaRegistry { tlas: after.tlas, ..before }),
    ensures
        after.counted(),
{
    let names = crate::indexes::names_under(before.sub_accounts_by_tla@, tla_id);
    if names.len() > 0 {
        assert(names.contains(names[0]));
    }
    assert forall|id: AccountId| #[trigger]
        after.business_count(id) == (if after.is_business(id) {
            crate::indexes::names_under(after.sub_accounts_by_tla@, id).len() as int
        } else {
            0
        }) by {
        assert(before.business_count(id) == after.business_count(id));
    }
}

/// Renting a name keeps the count, and a business account then has at most as many names as its cap.
pub proof fn renting_keeps_the_count(
    before: TlaRegistry,
    after: TlaRegistry,
    key: AccountId,
    row: SubAccountEntry,
)
    requires
        before.indexed(),
        before.counted(),
        !before.sub_accounts@.has(key),
        before.tlas@.has(row.tla_id),
        before.is_business(row.tla_id) ==> before.business_count(row.tla_id) < before.business_cap(row.tla_id),
        after.row_written(before, key, row),
        after.tlas == before.tlas,
    ensures
        after.indexed(),
        after.counted(),
        after.is_business(row.tla_id) ==> crate::indexes::names_under(after.sub_accounts_by_tla@, row.tla_id).len()
            <= before.business_cap(row.tla_id),
{
    let names = crate::indexes::names_under(before.sub_accounts_by_tla@, row.tla_id);
    assert(!names.contains(key));
    assert(before.is_business(row.tla_id) ==> before.business_count(row.tla_id) == names.len());
    assert forall|k: AccountId| #[trigger] after.sub_accounts@.has(k) implies after.tlas@.has(
        after.sub_accounts@[k].tla_id,
    ) by {
        assert(k == key || before.sub_accounts@.has(k));
    }
    assert forall|id: AccountId| #[trigger]
        after.business_count(id) == (if after.is_business(id) {
            crate::indexes::names_under(after.sub_accounts_by_tla@, id).len() as int
        } else {
            0
        }) by {
        if id != row.tla_id {
            assert(after.business_count(id) == before.business_count(id));
            assert(crate::indexes::names_under(after.sub_accounts_by_tla@, id) == crate::indexes::names_under(
                before.sub_accounts_by_tla@,
                id,
            ));
        }
    }
}

/// A name that leaves, because its mint failed or because it is reclaimed, takes its place in the
/// count with it.
pub proof fn a_name_leaves_with_its_count(before: TlaRegistry, after: TlaRegistry, key: AccountId)
    requires
        before.indexed(),
        before.counted(),
        before.sub_accounts@.has(key),
        ({
            let row = before.sub_accounts@[key];
            &&& after.sub_accounts@ == before.sub_accounts@.remove(key)
            &&& after.sub_accounts_by_tla@ == crate::indexes::index_without(
                before.sub_accounts_by_tla@,
                row.tla_id,
                key,
            )
            &&& after.business_sub_count@ == (if before.is_business(row.tla_id) {
                crate::business::count_less(before.business_sub_count@, row.tla_id)
            } else {
                before.business_sub_count@
            })
        }),
        after.tlas == before.tlas,
    ensures
        after.counted(),
{
    let tla_id = before.sub_accounts@[key].tla_id;
    let names = crate::indexes::names_under(before.sub_accounts_by_tla@, tla_id);
    assert(names.contains(key));
    assert(before.business_count(tla_id) == (if before.is_business(tla_id) {
        names.len() as int
    } else {
        0
    }));
    assert forall|k: AccountId| #[trigger] after.sub_accounts@.has(k) implies after.tlas@.has(
        after.sub_accounts@[k].tla_id,
    ) by {
        assert(k == key || before.sub_accounts@.has(k));
    }
    assert forall|id: AccountId| #[trigger]
        after.business_count(id) == (if after.is_business(id) {
            crate::indexes::names_under(after.sub_accounts_by_tla@, id).len() as int
        } else {
            0
        }) by {
        if id != tla_id {
            assert(after.business_count(id) == before.business_count(id));
            assert(crate::indexes::names_under(after.sub_accounts_by_tla@, id) == crate::indexes::names_under(
                before.sub_accounts_by_tla@,
                id,
            ));
        }
    }
}

/// Handing a name on keeps the count.
pub proof fn handing_on_keeps_the_count(
    before: TlaRegistry,
    after: TlaRegistry,
    key: AccountId,
    owner: AccountId,
    payout: AccountId,
)
    requires
        before.counted(),
        after.reassigned(before, key, owner, payout),
        after.tlas == before.tlas,
        after.sub_accounts_by_tla == before.sub_accounts_by_tla,
        after.business_sub_count == before.business_sub_count,
    ensures
        after.counted(),
{
    assert forall|k: AccountId| #[trigger] after.sub_accounts@.has(k) implies after.tlas@.has(
        after.sub_accounts@[k].tla_id,
    ) by {
        assert(k == key || before.sub_accounts@.has(k));
    }
    assert forall|id: AccountId| #[trigger]
        after.business_count(id) == (if after.is_business(id) {
            crate::indexes::names_under(after.sub_accounts_by_tla@, id).len() as int
        } else {
            0
        }) by {
        assert(before.business_count(id) == after.business_count(id));
    }
}

// ---- handing a name on ------------------------------------------------------------------------

/// Only the owner hands a name on, whatever roles the caller holds.
pub proof fn only_the_owner_hands_a_name_on(
    registry: TlaRegistry,
    env: Env,
    tla_id: AccountId,
    name: Seq<char>,
    new_owner: AccountId,
)
    requires
        registry.transfer_refusal(env, tla_id, name, new_owner) is None,
    ensures
        registry.owned_by(crate::account::sub_account_id(tla_id, name), env.predecessor),
        env.deposit == 1,
{
}

/// Taking a name out of a venue is not gated: not by a pause, the standing of the top level account,
/// the lease, a notice or a balance.
pub proof fn leaving_a_venue_is_never_gated(
    registry: TlaRegistry,
    env: Env,
    tla_id: AccountId,
    name: Seq<char>,
    new_owner: AccountId,
)
    requires
        env.deposit == 1,
        crate::types::name_refusal(name) is None,
        crate::account::named_account_of(tla_id, name) is Some,
        ({
            let key = crate::account::sub_account_id(tla_id, name);
            &&& registry.owned_by(key, env.predecessor)
            &&& registry.sub_accounts@[key].tla_id == tla_id
            &&& registry.venues@.has(env.predecessor)
            &&& !registry.reclaim_pending@.has(key)
            &&& new_owner != env.predecessor
            &&& new_owner != key
        }),
    ensures
        registry.transfer_refusal(env, tla_id, name, new_owner) is None,
        !registry.gated(env.predecessor),
{
}

/// The plain token transfer is the same way out of a venue.
pub proof fn a_token_leaves_a_venue_freely(
    registry: TlaRegistry,
    env: Env,
    receiver_id: AccountId,
    token_id: Seq<char>,
)
    requires
        env.deposit == 1,
        registry.token_parts(token_id) is Some,
        crate::types::name_refusal((registry.token_parts(token_id)->0).1) is None,
        registry.owned_by(AccountId::of(token_id), env.predecessor),
        registry.venues@.has(env.predecessor),
        !registry.reclaim_pending@.has(AccountId::of(token_id)),
        receiver_id != env.predecessor,
        receiver_id != AccountId::of(token_id),
    ensures
        registry.nft_transfer_refusal(env, receiver_id, token_id, None) is None,
        !registry.gated(env.predecessor),
{
    let (tla_id, name) = registry.token_parts(token_id)->0;
    let cut = token_id.len() - tla_id@.len() - 1;
    let text = crate::account::sub_account_text(tla_id, name);
    assert forall|i: int| 0 <= i < token_id.len() implies text[i] == #[trigger] token_id[i] by {
        if i >= cut {
            assert(token_id.subrange(cut, token_id.len() as int)[i - cut] == (seq!['.'] + tla_id@)[i - cut]);
        }
    }
    assert(text =~= token_id);
}

/// A name handed to a venue keeps its payout account, and any other hand-over points it at the new
/// owner.
pub proof fn a_venue_never_gets_the_payout(registry: TlaRegistry, key: AccountId, receiver: AccountId)
    ensures
        registry.venues@.has(receiver) ==> registry.payout_after(key, receiver, registry.cause_for(receiver))
            == registry.sub_accounts@[key].payout_account,
        !registry.venues@.has(receiver) ==> registry.payout_after(key, receiver, registry.cause_for(receiver))
            == receiver,
{
}

/// Only a recovery authority recovers a name, only from the owner it expects, and never while paused.
pub proof fn only_a_recovery_authority_recovers(
    registry: TlaRegistry,
    env: Env,
    tla_id: AccountId,
    name: Seq<char>,
    new_owner: AccountId,
    expected_owner: AccountId,
)
    requires
        registry.recover_refusal(env, tla_id, name, new_owner, expected_owner) is None,
    ensures
        registry.recovery_authorities@.has(env.predecessor),
        registry.owned_by(crate::account::sub_account_id(tla_id, name), expected_owner),
        !registry.paused_at(env.now),
        env.deposit == 1,
{
}

// ---- pauses and reclaims ----------------------------------------------------------------------

/// A pause lapses by itself.
pub proof fn a_pause_lapses(registry: TlaRegistry, now: u64)
    requires
        now >= registry.paused_until_ns,
    ensures
        !registry.paused_at(now),
{
}

/// Nothing is reclaimable while a pause holds, nor until a grace period after it ended.
pub proof fn a_pause_suspends_reclaims(registry: TlaRegistry, now: u64, tla_id: AccountId, key: Option<AccountId>)
    requires
        registry.paused_at(now) && now < u64::MAX || !registry.paused && now < crate::common::capped_u64(
            registry.unpaused_at + registry.grace_period_ns,
        ),
    ensures
        registry.reclaimable_refusal(now, tla_id, key) is Some,
{
    if key is Some {
        crate::lifecycle::nothing_reclaimable_below_the_floor(
            registry.sub_accounts@[key->0],
            registry.tlas@[tla_id],
            registry.fee_config.retraction_notice_ns,
            registry.clock_at(now),
            registry.suspension_of(tla_id),
            now,
        );
    }
}

/// A pause never takes a renewal away: whoever could renew without it can renew while it holds.
pub proof fn a_pause_never_blocks_a_renewal(
    registry: TlaRegistry,
    paused: TlaRegistry,
    env: Env,
    tla_id: AccountId,
    name: Seq<char>,
)
    requires
        registry.renew_refusal(env, tla_id, name) is None,
        paused == (TlaRegistry { paused: true, paused_until_ns: paused.paused_until_ns, ..registry }),
        paused.paused_at(env.now),
    ensures
        paused.renew_refusal(env, tla_id, name) is None,
{
}

/// A pause never takes a sweep away from a parked account, nor does it change what a sweep brings.
pub proof fn a_pause_never_blocks_the_sweep_of_a_parked_account(
    registry: TlaRegistry,
    paused: TlaRegistry,
    env: Env,
    tla_id: AccountId,
    name: Seq<char>,
    ft: AccountId,
)
    requires
        crate::account::named_account_of(tla_id, name) is Some,
        registry.parked(tla_id, name),
        registry.sweep_ft_refusal(env, tla_id, name, ft) is None,
        paused == (TlaRegistry { paused: true, paused_until_ns: paused.paused_until_ns, ..registry }),
    ensures
        paused.sweep_ft_refusal(env, tla_id, name, ft) is None,
        paused.sweepable_refusal(env.now, tla_id, name) is None,
{
}

/// A pause of the marketplace closes one entrance and nothing else: renting, renewing, plain
/// transfers, reclaims, recoveries and the payout go on as they would without it.
pub proof fn a_marketplace_pause_closes_one_entrance(
    registry: TlaRegistry,
    paused: TlaRegistry,
    env: Env,
    tla_id: AccountId,
    name: Seq<char>,
    account: AccountId,
    expected_owner: AccountId,
    order_id: Seq<char>,
)
    requires
        paused == (TlaRegistry { marketplace_paused: true, ..registry }),
    ensures
        paused.rent_refusal(env, tla_id, name, Some(account)) == registry.rent_refusal(
            env,
            tla_id,
            name,
            Some(account),
        ),
        paused.rent_refusal(env, tla_id, name, None) == registry.rent_refusal(env, tla_id, name, None),
        paused.paid_rent_refusal(env, tla_id, name, account, order_id) == registry.paid_rent_refusal(
            env,
            tla_id,
            name,
            account,
            order_id,
        ),
        paused.renew_refusal(env, tla_id, name) == registry.renew_refusal(env, tla_id, name),
        paused.renew_tla_refusal(env, tla_id) == registry.renew_tla_refusal(env, tla_id),
        paused.transfer_refusal(env, tla_id, name, account) == registry.transfer_refusal(env, tla_id, name, account),
        paused.nft_transfer_refusal(env, account, name, None) == registry.nft_transfer_refusal(
            env,
            account,
            name,
            None,
        ),
        paused.finalize_refusal(env, tla_id, name) == registry.finalize_refusal(env, tla_id, name),
        paused.sweep_ft_refusal(env, tla_id, name, account) == registry.sweep_ft_refusal(env, tla_id, name, account),
        paused.recover_refusal(env, tla_id, name, account, expected_owner) == registry.recover_refusal(
            env,
            tla_id,
            name,
            account,
            expected_owner,
        ),
        paused.set_payout_refusal(env, tla_id, name, account) == registry.set_payout_refusal(
            env,
            tla_id,
            name,
            account,
        ),
        paused.nft_transfer_call_refusal(env, account, name, None) is Some,
{
}

/// A parked account can always be swept, paused or not.
pub proof fn a_parked_account_can_always_be_swept(registry: TlaRegistry, now: u64, tla_id: AccountId, name: Seq<char>)
    requires
        crate::account::named_account_of(tla_id, name) is Some,
        registry.parked(tla_id, name),
    ensures
        registry.sweepable_refusal(now, tla_id, name) is None,
{
}

/// No live lease is reclaimed: a name that may be taken back is past its own term and grace, or under
/// a top level account that is, or its notice has run out.
pub proof fn only_an_ended_lease_is_reclaimed(registry: TlaRegistry, now: u64, tla_id: AccountId, key: AccountId)
    requires
        registry.reclaimable_refusal(now, tla_id, Some(key)) is None,
    ensures
        ({
            let sub = registry.sub_accounts@[key];
            let tla = registry.tlas@[tla_id];
            ||| now >= crate::common::capped_u64(sub.expires_at + registry.grace_period_ns)
            ||| now >= crate::common::capped_u64(tla.expires_at + registry.grace_period_ns)
            ||| sub.retraction_at is Some && now >= crate::common::capped_u64(
                sub.retraction_at->0 + registry.fee_config.retraction_notice_ns,
            )
        }),
{
}

/// Whoever may start a notice may stop it while it runs.
pub proof fn who_gives_notice_may_take_it_back(
    before: TlaRegistry,
    after: TlaRegistry,
    env: Env,
    later: Env,
    tla_id: AccountId,
    name: Seq<char>,
)
    requires
        before.schedule_refusal(env, tla_id, name) is None,
        ({
            let key = crate::account::sub_account_id(tla_id, name);
            after.sub_accounts@ == before.sub_accounts@.insert(
                key,
                (SubAccountEntry { retraction_at: Some(env.now), ..before.sub_accounts@[key] }),
            )
        }),
        after == (TlaRegistry { sub_accounts: after.sub_accounts, ..before }),
        later.predecessor == env.predecessor,
        later.deposit == 1,
        !after.paused_at(later.now),
        later.now < crate::common::capped_u64(env.now + after.fee_config.retraction_notice_ns),
    ensures
        after.cancel_refusal(later, tla_id, name) is None,
{
}

/// Dropping a notice leaves the row as it was before the notice was given.
pub proof fn a_dropped_notice_leaves_no_trace(
    before: TlaRegistry,
    noticed: TlaRegistry,
    after: TlaRegistry,
    key: AccountId,
    at: u64,
)
    requires
        before.sub_accounts@.has(key),
        before.sub_accounts@[key].retraction_at is None,
        noticed.sub_accounts@ == before.sub_accounts@.insert(
            key,
            (SubAccountEntry { retraction_at: Some(at), ..before.sub_accounts@[key] }),
        ),
        after.notice_dropped(noticed, key),
    ensures
        after.sub_accounts@ == before.sub_accounts@,
{
    assert(after.sub_accounts@.map =~= before.sub_accounts@.map);
}

// ---- walking the collection -------------------------------------------------------------------

/// A page of an owner's tokens is never empty where one is left, and the name that it stops before
/// leads back to the very place where it stopped: the pages join without a gap and without a repeat.
pub proof fn the_next_page_goes_on_where_this_one_stopped(names: Seq<AccountId>, start: nat, size: nat)
    requires
        names.no_duplicates(),
        start < names.len(),
        size > 0,
    ensures
        ({
            let end = crate::nft::page_end(names.len(), start, size);
            &&& start < end <= names.len()
            &&& end < names.len() ==> crate::ordered::position_of(names, names[end]) == end
            &&& names.subrange(0, start as int) + names.subrange(start as int, end) == names.subrange(0, end)
        }),
{
    let end = crate::nft::page_end(names.len(), start, size);
    if end < names.len() {
        assert(0 <= end < names.len() && names[end] == names[end]);
    }
    assert(names.subrange(0, start as int) + names.subrange(start as int, end) =~= names.subrange(0, end));
}

// ---- who governs ------------------------------------------------------------------------------

/// The council changes only into the account that the council named, by that account's own call, and
/// not before the delay.
pub proof fn the_council_passes_only_to_its_heir(registry: TlaRegistry, env: Env)
    requires
        registry.commit_council_refusal(env) is None,
    ensures
        registry.pending_council == Some(env.predecessor),
        registry.pending_council_at is Some,
        env.now >= crate::common::capped_u64(registry.pending_council_at->0 + registry.upgrade_delay_ns),
{
}

/// What changes the business takes the council itself, with a full access key behind it: a
/// restricted key cannot attach the one yocto.
pub proof fn what_changes_the_business_takes_the_council(
    registry: TlaRegistry,
    env: Env,
    ids: Seq<AccountId>,
    registration: crate::types::TlaRegistration,
    rate: u128,
    tla_id: AccountId,
    terms: crate::types::TlaTerms,
    code: Seq<u8>,
    digest: Seq<u8>,
)
    requires
        ({
            ||| crate::registry::council_refusal(env, registry.council) is None
            ||| registry.register_tlas_refusal(env, ids, registration) is None
            ||| registry.initial_rate_refusal(env, rate) is None
            ||| registry.terms_refusal(env, tla_id, terms) is None
            ||| registry.upgrade_refusal(env, code, digest) is None
        }),
    ensures
        env.predecessor == registry.council,
        env.deposit == 1,
{
}

/// What keeps the business running takes an admin, with a full access key behind it.
pub proof fn what_runs_the_business_takes_an_admin(
    registry: TlaRegistry,
    env: Env,
    ids: Seq<AccountId>,
    token: AccountId,
    order_id: Seq<char>,
    tla_id: AccountId,
    name: Seq<char>,
)
    requires
        ({
            ||| crate::admin::admin_refusal(registry, env) is None
            ||| registry.activate_open_tlas_refusal(env, ids) is None
            ||| registry.add_ft_refusal(env, token) is None
            ||| registry.release_order_refusal(env, order_id) is None
            ||| registry.release_park_refusal(env, tla_id, name) is None
            ||| registry.force_park_refusal(env, tla_id, name) is None
        }),
    ensures
        registry.is_admin(env.predecessor),
        env.deposit == 1,
{
}

/// Code is installed only if its digest is the one the council approved and the delay has passed since.
pub proof fn only_approved_code_is_installed(registry: TlaRegistry, env: Env, code: Seq<u8>, digest: Seq<u8>)
    requires
        registry.upgrade_refusal(env, code, digest) is None,
    ensures
        env.predecessor == registry.council,
        registry.approved_code_hash is Some,
        registry.approved_code_hash->0@ == digest,
        registry.approved_at is Some,
        env.now >= crate::common::capped_u64(registry.approved_at->0 + registry.upgrade_delay_ns),
{
}

/// An accepted fee configuration keeps every rent within the price cap, so that no name becomes
/// unpriceable, and the stored rate stays usable.
pub proof fn accepted_fees_can_be_priced(registry: TlaRegistry, config: crate::types::FeeConfig)
    requires
        registry.fee_config_refusal(config) is None,
    ensures
        ({
            let after = TlaRegistry { fee_config: config, ..registry };
            &&& after.wf()
            &&& registry.near_usd_rate_micro != 0 ==> after.rate_in_band()
        }),
        config.rent_tier_5_usd_micro <= crate::pricing::MAX_USD_MICRO,
        config.rent_tier_8_usd_micro <= config.rent_tier_5_usd_micro,
        config.rent_tier_10_usd_micro <= config.rent_tier_8_usd_micro,
        config.rent_tier_12plus_usd_micro <= config.rent_tier_10_usd_micro,
{
}

} // verus!
