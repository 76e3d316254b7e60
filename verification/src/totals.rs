//! What the amounts of a map come to.
use vstd::prelude::*;

use crate::ordered::OrderedView;

verus! {

/// The sum of the amounts of `keys`.
pub open spec fn total_over<I>(keys: Seq<I>, amounts: Map<I, u128>) -> nat
    decreases keys.len(),
{
    if keys.len() == 0 {
        0
    } else {
        total_over(keys.drop_last(), amounts) + amounts[keys.last()] as nat
    }
}

/// The sum of all amounts of a map.
pub open spec fn total_of<I>(view: OrderedView<I, u128>) -> nat {
    total_over(view.keys, view.map)
}

/// The amount of a key, nothing if it has none.
pub open spec fn amount_of<I>(view: OrderedView<I, u128>, k: I) -> u128 {
    match view.get(k) {
        Some(amount) => amount,
        None => 0,
    }
}

proof fn lemma_same_amounts<I>(keys: Seq<I>, a: Map<I, u128>, b: Map<I, u128>)
    requires
        forall|i: int| 0 <= i < keys.len() ==> a[#[trigger] keys[i]] == b[keys[i]],
    ensures
        total_over(keys, a) == total_over(keys, b),
    decreases keys.len(),
{
    if keys.len() > 0 {
        let rest = keys.drop_last();
        assert forall|i: int| 0 <= i < rest.len() implies a[#[trigger] rest[i]] == b[rest[i]] by {
            assert(rest[i] == keys[i]);
        }
        lemma_same_amounts(rest, a, b);
        assert(keys.last() == keys[keys.len() - 1]);
    }
}

/// One key of the sequence replaced by another.
proof fn lemma_replaced_key<I>(keys: Seq<I>, at: int, k: I, amounts: Map<I, u128>)
    requires
        0 <= at < keys.len(),
    ensures
        total_over(keys.update(at, k), amounts) == total_over(keys, amounts) - amounts[keys[at]] + amounts[k],
    decreases keys.len(),
{
    let next = keys.update(at, k);
    let rest = keys.drop_last();
    if at == keys.len() - 1 {
        assert(next.drop_last() =~= rest);
        assert(next.last() == k);
        assert(keys.last() == keys[at]);
    } else {
        assert(next.drop_last() =~= rest.update(at, k));
        assert(next.last() == keys.last());
        assert(rest[at] == keys[at]);
        lemma_replaced_key(rest, at, k, amounts);
    }
}

proof fn lemma_changed_amount<I>(keys: Seq<I>, at: int, amount: u128, amounts: Map<I, u128>)
    requires
        keys.no_duplicates(),
        0 <= at < keys.len(),
    ensures
        total_over(keys, amounts.insert(keys[at], amount)) == total_over(keys, amounts) - amounts[keys[at]]
            + amount,
    decreases keys.len(),
{
    let rest = keys.drop_last();
    let changed = amounts.insert(keys[at], amount);
    assert(rest.no_duplicates()) by {
        assert forall|i: int, j: int| 0 <= i < rest.len() && 0 <= j < rest.len() && i != j implies rest[i]
            != rest[j] by {
            assert(rest[i] == keys[i] && rest[j] == keys[j]);
        }
    }
    if at == keys.len() - 1 {
        assert forall|i: int| 0 <= i < rest.len() implies changed[#[trigger] rest[i]] == amounts[rest[i]] by {
            assert(rest[i] == keys[i]);
        }
        lemma_same_amounts(rest, changed, amounts);
        assert(keys.last() == keys[at]);
    } else {
        assert(rest[at] == keys[at]);
        lemma_changed_amount(rest, at, amount, amounts);
        assert(keys.last() == keys[keys.len() - 1]);
        assert(keys.last() != keys[at]);
    }
}

/// Writing an amount moves the total by what it changes.
pub proof fn writing_moves_the_total<I>(view: OrderedView<I, u128>, k: I, amount: u128)
    requires
        view.consistent(),
    ensures
        total_of(view.insert(k, amount)) == total_of(view) - amount_of(view, k) + amount,
        view.insert(k, amount).consistent(),
{
    let next = view.insert(k, amount);
    if view.has(k) {
        assert(view.keys.contains(k));
        let at = choose|i: int| 0 <= i < view.keys.len() && view.keys[i] == k;
        lemma_changed_amount(view.keys, at, amount, view.map);
        assert forall|x: I| #[trigger] next.keys.contains(x) <==> next.map.contains_key(x) by {
            assert(view.keys.contains(x) <==> view.map.contains_key(x));
        }
    } else {
        assert(!view.keys.contains(k));
        assert(next.keys.drop_last() =~= view.keys);
        assert forall|i: int| 0 <= i < view.keys.len() implies next.map[#[trigger] view.keys[i]]
            == view.map[view.keys[i]] by {
            assert(view.keys.contains(view.keys[i]));
        }
        lemma_same_amounts(view.keys, next.map, view.map);
        assert(next.keys.no_duplicates()) by {
            assert forall|i: int, j: int|
                0 <= i < next.keys.len() && 0 <= j < next.keys.len() && i != j implies next.keys[i]
                != next.keys[j] by {
                if i < view.keys.len() {
                    assert(view.keys.contains(view.keys[i]));
                }
                if j < view.keys.len() {
                    assert(view.keys.contains(view.keys[j]));
                }
            }
        }
        assert forall|x: I| #[trigger] next.keys.contains(x) <==> next.map.contains_key(x) by {
            assert(view.keys.contains(x) <==> view.map.contains_key(x));
            if view.keys.contains(x) {
                let i = choose|i: int| 0 <= i < view.keys.len() && view.keys[i] == x;
                assert(next.keys[i] == x);
            }
            if x == k {
                assert(next.keys[view.keys.len() as int] == k);
            }
            if next.keys.contains(x) && x != k {
                let i = choose|i: int| 0 <= i < next.keys.len() && next.keys[i] == x;
                assert(view.keys[i] == x);
            }
        }
    }
}

/// Striking a key out takes its amount off the total.
pub proof fn striking_takes_the_amount_off<I>(view: OrderedView<I, u128>, k: I)
    requires
        view.consistent(),
    ensures
        total_of(view.remove(k)) == total_of(view) - amount_of(view, k),
        view.remove(k).consistent(),
{
    let next = view.remove(k);
    if view.has(k) {
        assert(view.keys.contains(k));
        let at = crate::ordered::position_of(view.keys, k);
        assert(exists|i: int| 0 <= i < view.keys.len() && view.keys[i] == k);
        assert(0 <= at < view.keys.len() && view.keys[at] == k);
        let last = view.keys.last();
        let moved = view.keys.update(at, last);
        lemma_replaced_key(view.keys, at, last, view.map);
        assert(moved.last() == last);
        assert(next.keys =~= moved.drop_last());
        assert forall|i: int| 0 <= i < next.keys.len() implies next.map[#[trigger] next.keys[i]]
            == view.map[next.keys[i]] by {
            assert(next.keys[i] == moved[i]);
            if i == at {
                assert(view.keys[view.keys.len() - 1] != view.keys[at]);
            } else {
                assert(view.keys[i] != view.keys[at]);
            }
        }
        lemma_same_amounts(next.keys, next.map, view.map);
        assert(next.keys.no_duplicates()) by {
            assert forall|i: int, j: int|
                0 <= i < next.keys.len() && 0 <= j < next.keys.len() && i != j implies next.keys[i]
                != next.keys[j] by {
                let a = if i == at {
                    view.keys.len() - 1
                } else {
                    i
                };
                let b = if j == at {
                    view.keys.len() - 1
                } else {
                    j
                };
                assert(next.keys[i] == view.keys[a]);
                assert(next.keys[j] == view.keys[b]);
            }
        }
        assert forall|x: I| #[trigger] next.keys.contains(x) <==> next.map.contains_key(x) by {
            assert(view.keys.contains(x) <==> view.map.contains_key(x));
            if next.keys.contains(x) {
                let i = choose|i: int| 0 <= i < next.keys.len() && next.keys[i] == x;
                let a = if i == at {
                    view.keys.len() - 1
                } else {
                    i
                };
                assert(view.keys[a] == x);
                assert(view.keys[a] != view.keys[at]);
            }
            if view.keys.contains(x) && x != k {
                let i = choose|i: int| 0 <= i < view.keys.len() && view.keys[i] == x;
                if i == view.keys.len() - 1 {
                    assert(next.keys[at] == x);
                } else {
                    assert(next.keys[i] == x);
                }
            }
        }
    } else {
        assert(!view.keys.contains(k));
        assert(next.map =~= view.map);
        assert(next =~= view);
    }
}

/// No amount is over the total.
pub proof fn no_amount_is_over_the_total<I>(view: OrderedView<I, u128>, k: I)
    requires
        view.consistent(),
    ensures
        amount_of(view, k) <= total_of(view),
{
    if view.has(k) {
        assert(view.keys.contains(k));
        let at = choose|i: int| 0 <= i < view.keys.len() && view.keys[i] == k;
        lemma_changed_amount(view.keys, at, 0, view.map);
    }
}

} // verus!
