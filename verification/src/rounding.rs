//! Splitting an amount in proportion to integer shares.
//!
//! Every share first receives the floor of its exact quota. The units lost to
//! truncation, fewer than there are shares, then go one each to the shares whose
//! quota was cut the most; among equally cut quotas the earlier share comes first.

use vstd::prelude::*;
use vstd::arithmetic::div_mod::{
    lemma_fundamental_div_mod,
    lemma_fundamental_div_mod_converse,
    lemma_mod_pos_bound,
};
use crate::amount::{amount_limit, lemma_amount_value, Amount};
use crate::sums::{
    lemma_sum_below,
    lemma_front_loaded,
    lemma_sum_constant,
    lemma_sum_member,
    lemma_sum_monotone,
    lemma_sum_prefix,
    lemma_sum_push,
    lemma_sum_pointwise,
    lemma_sum_scaled,
    lemma_sum_take_next,
    lemma_sum_update,
    seq_sum,
};

verus! {

/// The whole units of `total * share / share_total`.
pub open spec fn quota_floor(total: nat, share: nat, share_total: nat) -> nat {
    ((total * share) / share_total) as nat
}

/// What truncation cuts from the quota, in units of `1 / share_total`.
pub open spec fn quota_rest(total: nat, share: nat, share_total: nat) -> nat {
    ((total * share) % share_total) as nat
}

/// The floors of all quotas.
pub open spec fn quota_floors(total: nat, shares: Seq<nat>) -> Seq<nat> {
    Seq::new(shares.len(), |i: int| quota_floor(total, shares[i], seq_sum(shares)))
}

/// The truncated parts of all quotas.
pub open spec fn quota_rests(total: nat, shares: Seq<nat>) -> Seq<nat> {
    Seq::new(shares.len(), |i: int| quota_rest(total, shares[i], seq_sum(shares)))
}

/// Position `i` is served before position `j`: its truncated part is larger, or
/// equal and it comes earlier.
pub open spec fn precedes(rests: Seq<nat>, i: int, j: int) -> bool {
    rests[i] > rests[j] || (rests[i] == rests[j] && i < j)
}

/// `amounts` splits `total` in proportion to `shares`: the amounts add up to
/// `total`, each is the floor of its quota or one unit more, and whoever got the
/// extra unit is served before everyone who did not.
pub open spec fn fair_rounding(total: nat, shares: Seq<nat>, amounts: Seq<nat>) -> bool {
    let floors = quota_floors(total, shares);
    let rests = quota_rests(total, shares);
    &&& amounts.len() == shares.len()
    &&& seq_sum(amounts) == total
    &&& forall|i: int|
        0 <= i < shares.len() ==> #[trigger] amounts[i] == floors[i] || amounts[i] == floors[i] + 1
    &&& forall|i: int, j: int|
        #![trigger amounts[i], amounts[j]]
        0 <= i < shares.len() && 0 <= j < shares.len() && amounts[i] == floors[i] + 1
            && amounts[j] == floors[j] ==> precedes(rests, i, j)
}

/// The values of a vector of 64-bit shares.
pub open spec fn share_values(shares: Seq<u64>) -> Seq<nat> {
    Seq::new(shares.len(), |i: int| shares[i] as nat)
}

/// The values of a vector of amounts.
pub open spec fn amount_values(amounts: Seq<Amount>) -> Seq<nat> {
    Seq::new(amounts.len(), |i: int| amounts[i]@)
}

/// One for every marked position, zero for the others.
pub open spec fn marks(picked: Seq<bool>) -> Seq<nat> {
    Seq::new(
        picked.len(),
        |i: int|
            if picked[i] {
                1nat
            } else {
                0nat
            },
    )
}

/// Truncation loses fewer units than there are shares, and never hands out more
/// than the total.
pub proof fn lemma_floor_sum(total: nat, shares: Seq<nat>)
    requires
        seq_sum(shares) > 0,
    ensures
        seq_sum(quota_floors(total, shares)) <= total,
        total - seq_sum(quota_floors(total, shares)) < shares.len(),
        seq_sum(quota_rests(total, shares)) == (total - seq_sum(quota_floors(total, shares)))
            * seq_sum(shares),
{
    let d = seq_sum(shares);
    let floors = quota_floors(total, shares);
    let rests = quota_rests(total, shares);
    let products = Seq::new(shares.len(), |i: int| total * shares[i]);
    let whole = Seq::new(shares.len(), |i: int| d * floors[i]);
    lemma_sum_scaled(shares, products, total);
    lemma_sum_scaled(floors, whole, d);
    assert forall|i: int| 0 <= i < shares.len() implies products[i] == whole[i] + rests[i]
        && rests[i] < d by {
        let x = (total * shares[i]) as int;
        lemma_fundamental_div_mod(x, d as int);
        lemma_mod_pos_bound(x, d as int);
        assert(0 <= x / (d as int)) by (nonlinear_arith)
            requires
                0 <= x,
                0 < d,
        ;
    }
    lemma_sum_pointwise(whole, rests, products);
    lemma_sum_below(rests, d);
    let f = seq_sum(floors);
    let r = seq_sum(rests);
    let n = shares.len();
    assert(total * d == d * f + r);
    assert(r + n <= n * d);
    assert(f <= total) by (nonlinear_arith)
        requires
            total * d == d * f + r,
            0 < d,
    ;
    assert(r == (total - f) * d) by (nonlinear_arith)
        requires
            total * d == d * f + r,
    ;
    let lost = total - f;
    if lost >= n {
        assert(lost * d >= n * d) by (nonlinear_arith)
            requires
                lost >= n,
                0 < d,
        ;
    }
}


/// The extra units of a split: one where an amount was rounded up, zero elsewhere.
pub open spec fn extra_units(total: nat, shares: Seq<nat>, amounts: Seq<nat>) -> Seq<nat> {
    Seq::new(
        shares.len(),
        |i: int| (amounts[i] - quota_floors(total, shares)[i]) as nat,
    )
}

/// In a fair split the extra units are as many as truncation lost.
pub proof fn lemma_extra_units(total: nat, shares: Seq<nat>, amounts: Seq<nat>)
    requires
        seq_sum(shares) > 0,
        fair_rounding(total, shares, amounts),
    ensures
        seq_sum(extra_units(total, shares, amounts)) + seq_sum(quota_floors(total, shares))
            == total,
        forall|i: int|
            0 <= i < shares.len() ==> extra_units(total, shares, amounts)[i] <= 1,
{
    let floors = quota_floors(total, shares);
    let extra = extra_units(total, shares, amounts);
    assert forall|i: int| 0 <= i < shares.len() implies amounts[i] == floors[i] + extra[i]
        && extra[i] <= 1 by {
        assert(amounts[i] == floors[i] || amounts[i] == floors[i] + 1);
    }
    lemma_sum_pointwise(floors, extra, amounts);
}

/// With equal shares the split is equal: everyone receives the whole quotient, and
/// the first `total % n` receive one unit more.
pub proof fn lemma_equal_shares(total: nat, shares: Seq<nat>, amounts: Seq<nat>)
    requires
        shares.len() > 0,
        forall|i: int| 0 <= i < shares.len() ==> shares[i] == 1,
        fair_rounding(total, shares, amounts),
    ensures
        forall|i: int|
            0 <= i < shares.len() ==> amounts[i] == total / shares.len() + (if i < total
                % shares.len() {
                1nat
            } else {
                0nat
            }),
{
    let n = shares.len();
    let floors = quota_floors(total, shares);
    let rests = quota_rests(total, shares);
    let extra = extra_units(total, shares, amounts);
    lemma_sum_constant(shares, 1);
    assert(seq_sum(shares) == n);
    assert(total * 1 == total);
    assert forall|i: int| 0 <= i < n implies floors[i] == total / n && rests[i] == total % n by {
        assert(total * shares[i] == total);
    }
    lemma_sum_constant(floors, total / n);
    lemma_extra_units(total, shares, amounts);
    lemma_fundamental_div_mod(total as int, n as int);
    assert(n * (total / n) == (n as int) * ((total as int) / (n as int)));
    assert(seq_sum(extra) == total % n);
    assert forall|i: int, j: int| 0 <= i < j < n && extra[j] == 1 implies extra[i] == 1 by {
        if extra[i] != 1 {
            assert(amounts[j] == floors[j] + 1);
            assert(amounts[i] == floors[i] || amounts[i] == floors[i] + 1);
            assert(amounts[i] == floors[i]);
            assert(precedes(rests, j, i));
        }
    }
    lemma_front_loaded(extra);
    assert forall|i: int| 0 <= i < n implies amounts[i] == total / n + (if i < total % n {
        1nat
    } else {
        0nat
    }) by {
        assert(amounts[i] == floors[i] || amounts[i] == floors[i] + 1);
        assert(extra[i] == 1 <==> i < seq_sum(extra));
    }
}

/// A fair split is the only one: two splits of the same total by the same
/// shares that are both fair are the same split.
pub proof fn lemma_fair_rounding_unique(
    total: nat,
    shares: Seq<nat>,
    first: Seq<nat>,
    second: Seq<nat>,
)
    requires
        fair_rounding(total, shares, first),
        fair_rounding(total, shares, second),
    ensures
        first == second,
{
    let floors = quota_floors(total, shares);
    let rests = quota_rests(total, shares);
    assert forall|i: int| 0 <= i < shares.len() implies first[i] == second[i] by {
        assert(first[i] == floors[i] || first[i] == floors[i] + 1);
        assert(second[i] == floors[i] || second[i] == floors[i] + 1);
        if first[i] != second[i] {
            // Whichever split is larger here must be smaller somewhere else, and
            // then each of the two positions would have to be served before the other.
            let (more, less) = if first[i] > second[i] {
                (first, second)
            } else {
                (second, first)
            };
            let raised = less.update(i, more[i]);
            lemma_sum_update(less, i, more[i]);
            if forall|j: int| 0 <= j < shares.len() ==> raised[j] <= more[j] {
                lemma_sum_monotone(raised, more);
                assert(false);
            }
            let j = choose|j: int| 0 <= j < shares.len() && !(raised[j] <= more[j]);
            assert(j != i);
            assert(more[j] == floors[j] || more[j] == floors[j] + 1);
            assert(less[j] == floors[j] || less[j] == floors[j] + 1);
            assert(more[i] == floors[i] + 1 && more[j] == floors[j]);
            assert(less[j] == floors[j] + 1 && less[i] == floors[i]);
            assert(precedes(rests, i, j));
            assert(precedes(rests, j, i));
        }
    }
    assert(first =~= second);
}

/// A share of zero receives nothing, as long as some share is not zero.
pub proof fn lemma_zero_share(total: nat, shares: Seq<nat>, amounts: Seq<nat>, at: int)
    requires
        seq_sum(shares) > 0,
        fair_rounding(total, shares, amounts),
        0 <= at < shares.len(),
        shares[at] == 0,
    ensures
        amounts[at] == 0,
{
    let d = seq_sum(shares);
    let n = shares.len();
    let floors = quota_floors(total, shares);
    let rests = quota_rests(total, shares);
    let extra = extra_units(total, shares, amounts);
    assert(total * shares[at] == 0) by (nonlinear_arith)
        requires
            shares[at] == 0,
    ;
    assert(floors[at] == 0 && rests[at] == 0);
    assert(amounts[at] == floors[at] || amounts[at] == floors[at] + 1);
    if amounts[at] == 1 {
        lemma_extra_units(total, shares, amounts);
        lemma_floor_sum(total, shares);
        let lost = seq_sum(extra);
        let caps = Seq::new(n, |i: int| ((d - 1) * extra[i]) as nat);
        assert forall|i: int| 0 <= i < n implies rests[i] <= caps[i] by {
            assert(amounts[i] == floors[i] || amounts[i] == floors[i] + 1);
            lemma_mod_pos_bound((total * shares[i]) as int, d as int);
            if amounts[i] == floors[i] {
                assert(precedes(rests, at, i));
            } else {
                assert(extra[i] == 1);
                assert((d - 1) * extra[i] == d - 1) by (nonlinear_arith)
                    requires
                        extra[i] == 1,
                ;
            }
            assert(0 <= (d - 1) * extra[i]) by (nonlinear_arith)
                requires
                    d >= 1,
                    extra[i] >= 0,
            ;
        }
        lemma_sum_monotone(rests, caps);
        assert forall|i: int| 0 <= i < n implies caps[i] == ((d - 1) as nat) * extra[i] by {
            assert(0 <= (d - 1) * extra[i]) by (nonlinear_arith)
                requires
                    d >= 1,
                    extra[i] >= 0,
            ;
        }
        lemma_sum_scaled(extra, caps, (d - 1) as nat);
        lemma_sum_member(extra, at);
        assert(false) by (nonlinear_arith)
            requires
                seq_sum(rests) == lost * d,
                seq_sum(rests) <= seq_sum(caps),
                seq_sum(caps) == (d - 1) * lost,
                lost >= 1,
        ;
    }
}

/// The values of a vector of truncated parts.
pub open spec fn rest_values(rests: Seq<u128>) -> Seq<nat> {
    Seq::new(rests.len(), |i: int| rests[i] as nat)
}

/// The sum of the shares. It always fits: a vector holds fewer than 2^64 shares of
/// fewer than 2^64 each.
pub fn sum_shares(shares: &Vec<u64>) -> (sum: u128)
    ensures
        sum == seq_sum(share_values(shares@)),
{
    let ghost values = share_values(shares@);
    let mut sum: u128 = 0;
    let mut i: usize = 0;
    while i < shares.len()
        invariant
            i <= shares.len(),
            values == share_values(shares@),
            sum == seq_sum(values.take(i as int)),
            sum <= i * 0xffff_ffff_ffff_ffff,
        decreases shares.len() - i,
    {
        proof {
            lemma_sum_take_next(values, i as int);
        }
        sum = sum + shares[i] as u128;
        i = i + 1;
    }
    proof {
        assert(values.take(i as int) =~= values);
    }
    sum
}

/// Floor and truncated part of one quota, computed from the quotient and the
/// remainder of the total by the sum of the shares.
fn split_quota(total: Amount, share: u64, share_total: u128, quotient: Amount, remainder: u128) -> (r:
    (Amount, u128))
    requires
        share_total > 0,
        share <= share_total,
        quotient@ == total@ / (share_total as nat),
        remainder == total@ % (share_total as nat),
    ensures
        r.0@ == quota_floor(total@, share as nat, share_total as nat),
        r.1 == quota_rest(total@, share as nat, share_total as nat),
{
    let share_amount = Amount::from_u64(share);
    let divisor = Amount::from_u128(share_total);
    let ghost d = share_total as int;
    let ghost q = quotient@ as int;
    let ghost m = remainder as int;
    let ghost s = share as int;
    let ghost t = total@ as int;
    proof {
        lemma_amount_value(total, total);
        lemma_fundamental_div_mod(t, d);
        assert(q * s <= t) by (nonlinear_arith)
            requires
                t == d * q + m,
                0 <= m,
                0 <= q,
                0 <= s <= d,
        ;
        let top: int = 0xffff_ffff_ffff_ffff_ffff_ffff_ffff_ffff;
        let side: int = 0xffff_ffff_ffff_ffff;
        assert(m * s <= top * side) by (nonlinear_arith)
            requires
                0 <= m <= top,
                0 <= s <= side,
        ;
        assert(top * side < amount_limit());
    }
    let whole = quotient.checked_mul(share_amount).unwrap();
    let cut = Amount::from_u128(remainder).checked_mul(share_amount).unwrap();
    let (extra, rest) = cut.div_rem(divisor).unwrap();
    let ghost e = extra@ as int;
    let ghost c = rest@ as int;
    proof {
        lemma_fundamental_div_mod(m * s, d);
        lemma_mod_pos_bound(m * s, d);
        assert(0 <= m * s) by (nonlinear_arith)
            requires
                0 <= m,
                0 <= s,
        ;
        assert(t * s == (q * s + e) * d + c) by (nonlinear_arith)
            requires
                t == d * q + m,
                m * s == d * e + c,
        ;
        lemma_fundamental_div_mod_converse(t * s, d, q * s + e, c);
        assert(q * s + e <= t) by (nonlinear_arith)
            requires
                t * s == (q * s + e) * d + c,
                0 <= c,
                0 <= s <= d,
                0 <= t,
                0 < d,
                0 <= q * s + e,
        ;
    }
    let floor = whole.checked_add(extra).unwrap();
    let rest_small = rest.to_u128().unwrap();
    (floor, rest_small)
}

/// Marks the `count` positions that are served first.
fn pick_largest(rests: &Vec<u128>, count: usize) -> (picked: Vec<bool>)
    requires
        count <= rests.len(),
    ensures
        picked.len() == rests.len(),
        seq_sum(marks(picked@)) == count,
        forall|i: int, j: int|
            #![trigger picked@[i], picked@[j]]
            0 <= i < rests.len() && 0 <= j < rests.len() && picked@[i] && !picked@[j] ==> precedes(
                rest_values(rests@),
                i,
                j,
            ),
{
    let n = rests.len();
    let ghost order = rest_values(rests@);
    let mut picked: Vec<bool> = Vec::new();
    let mut filled: usize = 0;
    while filled < n
        invariant
            filled <= n,
            picked.len() == filled,
            forall|i: int| 0 <= i < filled ==> !picked@[i],
            seq_sum(marks(picked@)) == 0,
        decreases n - filled,
    {
        proof {
            lemma_sum_push(marks(picked@), 0);
            assert(marks(picked@.push(false)) =~= marks(picked@).push(0));
        }
        picked.push(false);
        filled = filled + 1;
    }
    let mut served: usize = 0;
    while served < count
        invariant
            n == rests.len(),
            order == rest_values(rests@),
            served <= count <= n,
            picked.len() == n,
            seq_sum(marks(picked@)) == served,
            forall|i: int, j: int|
                #![trigger picked@[i], picked@[j]]
                0 <= i < n && 0 <= j < n && picked@[i] && !picked@[j] ==> precedes(order, i, j),
        decreases count - served,
    {
        let mut best: usize = n;
        let mut at: usize = 0;
        while at < n
            invariant
                n == rests.len(),
                order == rest_values(rests@),
                picked.len() == n,
                at <= n,
                best <= n,
                best == n ==> forall|t: int| 0 <= t < at ==> picked@[t],
                best < n ==> best < at && !picked@[best as int],
                best < n ==> forall|t: int|
                    0 <= t < at && !picked@[t] && t != best ==> precedes(order, best as int, t),
            decreases n - at,
        {
            if !picked[at] {
                if best == n || rests[at] > rests[best] {
                    best = at;
                }
            }
            at = at + 1;
        }
        proof {
            if best == n {
                lemma_sum_constant(marks(picked@), 1);
            }
            lemma_sum_update(marks(picked@), best as int, 1);
            assert(marks(picked@.update(best as int, true)) =~= marks(picked@).update(
                best as int,
                1,
            ));
        }
        picked.set(best, true);
        served = served + 1;
    }
    picked
}

/// Splits `total` in proportion to `shares`, or returns nothing when all shares are zero.
pub fn apportion(total: Amount, shares: &Vec<u64>) -> (r: Option<Vec<Amount>>)
    ensures
        r is Some <==> seq_sum(share_values(shares@)) > 0,
        r matches Some(amounts) ==> fair_rounding(
            total@,
            share_values(shares@),
            amount_values(amounts@),
        ),
{
    let share_total = sum_shares(shares);
    if share_total == 0 {
        return None;
    }
    let n = shares.len();
    let ghost weights = share_values(shares@);
    let ghost target_floors = quota_floors(total@, weights);
    let ghost target_rests = quota_rests(total@, weights);
    let (quotient, remainder_wide) = total.div_rem(Amount::from_u128(share_total)).unwrap();
    proof {
        lemma_mod_pos_bound(total@ as int, share_total as int);
        lemma_floor_sum(total@, weights);
        lemma_amount_value(total, total);
    }
    let remainder = remainder_wide.to_u128().unwrap();
    let mut floors: Vec<Amount> = Vec::new();
    let mut rests: Vec<u128> = Vec::new();
    let mut floor_sum = Amount::zero();
    let mut i: usize = 0;
    while i < n
        invariant
            n == shares.len(),
            i <= n,
            weights == share_values(shares@),
            target_floors == quota_floors(total@, weights),
            target_rests == quota_rests(total@, weights),
            share_total == seq_sum(weights),
            share_total > 0,
            quotient@ == total@ / (share_total as nat),
            remainder == total@ % (share_total as nat),
            floors.len() == i,
            rests.len() == i,
            amount_values(floors@) =~= target_floors.take(i as int),
            rest_values(rests@) =~= target_rests.take(i as int),
            floor_sum@ == seq_sum(target_floors.take(i as int)),
            seq_sum(target_floors) <= total@,
            total@ < amount_limit(),
        decreases n - i,
    {
        proof {
            lemma_sum_member(weights, i as int);
            lemma_sum_take_next(target_floors, i as int);
            lemma_sum_prefix(target_floors, i + 1);
        }
        let (floor, rest) = split_quota(total, shares[i], share_total, quotient, remainder);
        floor_sum = floor_sum.checked_add(floor).unwrap();
        floors.push(floor);
        rests.push(rest);
        i = i + 1;
    }
    proof {
        assert(target_floors.take(n as int) =~= target_floors);
        assert(target_rests.take(n as int) =~= target_rests);
    }
    let lost_wide = total.checked_sub(floor_sum).unwrap();
    let lost = lost_wide.to_u128().unwrap() as usize;
    let picked = pick_largest(&rests, lost);
    let mut amounts: Vec<Amount> = Vec::new();
    let mut k: usize = 0;
    while k < n
        invariant
            n == shares.len(),
            k <= n,
            floors.len() == n,
            picked.len() == n,
            amounts.len() == k,
            amount_values(floors@) =~= target_floors,
            seq_sum(target_floors) + lost == total@,
            seq_sum(marks(picked@)) == lost,
            total@ < amount_limit(),
            forall|t: int|
                0 <= t < k ==> (#[trigger] amounts@[t])@ == target_floors[t] + marks(picked@)[t],
        decreases n - k,
    {
        proof {
            lemma_sum_member(target_floors, k as int);
            lemma_sum_member(marks(picked@), k as int);
            assert(amount_values(floors@)[k as int] == floors@[k as int]@);
        }
        let amount = if picked[k] {
            floors[k].checked_add(Amount::from_u64(1)).unwrap()
        } else {
            floors[k]
        };
        amounts.push(amount);
        k = k + 1;
    }
    proof {
        let values = amount_values(amounts@);
        lemma_sum_pointwise(target_floors, marks(picked@), values);
        assert(rest_values(rests@) =~= target_rests);
        assert forall|a: int, b: int|
            #![trigger values[a], values[b]]
            0 <= a < n && 0 <= b < n && values[a] == target_floors[a] + 1 && values[b]
                == target_floors[b] implies precedes(target_rests, a, b) by {
            assert(picked@[a] && !picked@[b]);
        }
    }
    Some(amounts)
}

} // verus!
