//! The allocation engine: from a statistics snapshot to a capital split.
//!
//! Each protocol is scored by its yield weighed against its risk; a negative
//! score counts as zero. The total amount is then split in proportion to the
//! scores, or equally when every score is zero.

use vstd::prelude::*;
use crate::amount::Amount;
use crate::error::{AllocationFault, RestakingError};
use crate::protocol::{
    distinct_ids,
    has_duplicate_id,
    ProtocolId,
    ProtocolSnapshot,
    ProtocolStats,
    ScoringWeights,
    StatsFetch,
};
use crate::rounding::{
    amount_values,
    apportion,
    fair_rounding,
    lemma_equal_shares,
    lemma_fair_rounding_unique,
    lemma_zero_share,
    share_values,
    sum_shares,
};
use crate::sums::{lemma_sum_constant, lemma_sum_member, seq_sum};

verus! {

/// Weighted yield minus weighted risk.
pub open spec fn raw_score(stats: ProtocolStats, weights: ScoringWeights) -> int {
    stats.apy * weights.apy_weight - stats.risk_score * weights.risk_weight
}

/// The raw score, or zero when it is negative.
pub open spec fn clamped_score(stats: ProtocolStats, weights: ScoringWeights) -> nat {
    if raw_score(stats, weights) > 0 {
        raw_score(stats, weights) as nat
    } else {
        0
    }
}

/// The clamped scores of a snapshot, in its order.
pub open spec fn clamped_scores(snapshot: Seq<ProtocolSnapshot>, weights: ScoringWeights) -> Seq<nat> {
    Seq::new(snapshot.len(), |i: int| clamped_score(snapshot[i].stats, weights))
}

/// The shares the split is made by: the scores themselves, or one share each
/// when all scores are zero.
pub open spec fn effective_shares(scores: Seq<nat>) -> Seq<nat> {
    if seq_sum(scores) == 0 {
        Seq::new(scores.len(), |i: int| 1nat)
    } else {
        scores
    }
}

/// Why no plan can be computed for this input, if anything stands in the way.
pub open spec fn allocation_fault(total: nat, snapshot: Seq<ProtocolSnapshot>) -> Option<
    AllocationFault,
> {
    if snapshot.len() == 0 {
        Some(AllocationFault::NoProtocols)
    } else if total == 0 {
        Some(AllocationFault::ZeroTotalAmount)
    } else if !distinct_ids(snapshot) {
        Some(AllocationFault::DuplicateProtocol)
    } else {
        None
    }
}

/// The first failed fetch, if any fetch failed.
pub open spec fn first_failure(fetched: Seq<StatsFetch>) -> Option<RestakingError>
    decreases fetched.len(),
{
    if fetched.len() == 0 {
        None
    } else {
        match fetched[0].outcome {
            Err(e) => Some(e),
            Ok(_) => first_failure(fetched.drop_first()),
        }
    }
}

/// One protocol's part of a plan: `share` out of the plan's `share_total`, and
/// the amount recommended for it.
#[derive(Debug, PartialEq, Eq)]
pub struct Allocation {
    pub protocol: ProtocolId,
    pub share: u64,
    pub amount: Amount,
}

/// A split of `total_amount` across protocols. The percentage of a protocol is
/// its share divided by `share_total`.
#[derive(Debug, PartialEq, Eq)]
pub struct AllocationPlan {
    pub total_amount: Amount,
    pub share_total: u128,
    pub allocations: Vec<Allocation>,
}

impl AllocationPlan {
    /// The shares, in the plan's order.
    pub open spec fn shares(&self) -> Seq<nat> {
        Seq::new(self.allocations@.len(), |i: int| self.allocations@[i].share as nat)
    }

    /// The recommended amounts, in the plan's order.
    pub open spec fn amounts(&self) -> Seq<nat> {
        Seq::new(self.allocations@.len(), |i: int| self.allocations@[i].amount@)
    }

    /// The percentages add up to exactly one and the amounts to exactly the total.
    pub open spec fn well_formed(&self) -> bool {
        &&& self.allocations@.len() > 0
        &&& self.share_total > 0
        &&& seq_sum(self.shares()) == self.share_total
        &&& seq_sum(self.amounts()) == self.total_amount@
    }

    /// The plan is the split of `total` that the snapshot and the weights call for.
    pub open spec fn allocates(
        &self,
        total: nat,
        snapshot: Seq<ProtocolSnapshot>,
        weights: ScoringWeights,
    ) -> bool {
        &&& self.total_amount@ == total
        &&& self.allocations@.len() == snapshot.len()
        &&& forall|i: int|
            0 <= i < snapshot.len() ==> (#[trigger] self.allocations@[i]).protocol@
                == snapshot[i].id@
        &&& self.shares() == effective_shares(clamped_scores(snapshot, weights))
        &&& self.share_total == seq_sum(self.shares())
        &&& fair_rounding(total, self.shares(), self.amounts())
    }

    /// The position of a protocol in the plan.
    pub fn position(&self, id: &ProtocolId) -> (r: Option<usize>)
        ensures
            match r {
                Some(at) => at < self.allocations@.len() && self.allocations@[at as int].protocol@
                    == id@ && forall|i: int|
                    0 <= i < at ==> (#[trigger] self.allocations@[i]).protocol@ != id@,
                None => forall|i: int|
                    0 <= i < self.allocations@.len() ==> (#[trigger] self.allocations@[i]).protocol@
                        != id@,
            },
    {
        let mut i: usize = 0;
        while i < self.allocations.len()
            invariant
                i <= self.allocations@.len(),
                forall|k: int| 0 <= k < i ==> (#[trigger] self.allocations@[k]).protocol@ != id@,
            decreases self.allocations@.len() - i,
        {
            if self.allocations[i].protocol.same(id) {
                return Some(i);
            }
            i = i + 1;
        }
        None
    }

    /// The amount recommended for a protocol, if the plan names it.
    pub fn recommended_amount(&self, id: &ProtocolId) -> (r: Option<Amount>)
        ensures
            match r {
                Some(amount) => exists|at: int|
                    0 <= at < self.allocations@.len() && (#[trigger] self.allocations@[at]).protocol@
                        == id@ && self.allocations@[at].amount == amount && forall|i: int|
                        0 <= i < at ==> (#[trigger] self.allocations@[i]).protocol@ != id@,
                None => forall|i: int|
                    0 <= i < self.allocations@.len() ==> (#[trigger] self.allocations@[i]).protocol@
                        != id@,
            },
    {
        match self.position(id) {
            Some(at) => Some(self.allocations[at].amount),
            None => None,
        }
    }

    /// The percentage of a protocol as numerator and denominator, if the plan names it.
    pub fn percentage(&self, id: &ProtocolId) -> (r: Option<(u64, u128)>)
        ensures
            match r {
                Some(ratio) => ratio.1 == self.share_total && exists|at: int|
                    0 <= at < self.allocations@.len() && (#[trigger] self.allocations@[at]).protocol@
                        == id@ && self.allocations@[at].share == ratio.0 && forall|i: int|
                        0 <= i < at ==> (#[trigger] self.allocations@[i]).protocol@ != id@,
                None => forall|i: int|
                    0 <= i < self.allocations@.len() ==> (#[trigger] self.allocations@[i]).protocol@
                        != id@,
            },
    {
        match self.position(id) {
            Some(at) => Some((self.allocations[at].share, self.share_total)),
            None => None,
        }
    }
}

/// The clamped score of one protocol.
pub fn score(stats: &ProtocolStats, weights: &ScoringWeights) -> (r: u64)
    ensures
        r == clamped_score(*stats, *weights),
{
    assert(stats.apy * weights.apy_weight <= 0xffff_ffff * 0xffff_ffff) by (nonlinear_arith)
        requires
            stats.apy <= 0xffff_ffff,
            weights.apy_weight <= 0xffff_ffff,
    ;
    assert(stats.risk_score * weights.risk_weight <= 0xffff_ffff * 0xffff_ffff)
        by (nonlinear_arith)
        requires
            stats.risk_score <= 0xffff_ffff,
            weights.risk_weight <= 0xffff_ffff,
    ;
    let gain: u64 = stats.apy as u64 * weights.apy_weight as u64;
    let penalty: u64 = stats.risk_score as u64 * weights.risk_weight as u64;
    if gain > penalty {
        gain - penalty
    } else {
        0
    }
}

/// The shares by which a snapshot is split.
pub fn shares_of(snapshot: &Vec<ProtocolSnapshot>, weights: &ScoringWeights) -> (shares: Vec<u64>)
    ensures
        share_values(shares@) == effective_shares(clamped_scores(snapshot@, *weights)),
{
    let n = snapshot.len();
    let mut scores: Vec<u64> = Vec::new();
    let mut i: usize = 0;
    while i < n
        invariant
            n == snapshot.len(),
            i <= n,
            scores.len() == i,
            forall|k: int|
                0 <= k < i ==> (#[trigger] scores@[k]) == clamped_score(snapshot@[k].stats, *weights),
        decreases n - i,
    {
        scores.push(score(&snapshot[i].stats, weights));
        i = i + 1;
    }
    assert(share_values(scores@) =~= clamped_scores(snapshot@, *weights));
    if sum_shares(&scores) != 0 {
        return scores;
    }
    let mut equal: Vec<u64> = Vec::new();
    let mut k: usize = 0;
    while k < n
        invariant
            k <= n,
            equal.len() == k,
            forall|t: int| 0 <= t < k ==> (#[trigger] equal@[t]) == 1,
        decreases n - k,
    {
        equal.push(1);
        k = k + 1;
    }
    assert(share_values(equal@) =~= effective_shares(clamped_scores(snapshot@, *weights)));
    equal
}

/// Turns the fetched statistics into a snapshot, unless a fetch failed: then the
/// first failure is handed on as it is and no snapshot is made.
pub fn collect_snapshot(fetched: &Vec<StatsFetch>) -> (r: Result<
    Vec<ProtocolSnapshot>,
    RestakingError,
>)
    ensures
        match first_failure(fetched@) {
            Some(e) => r == Err::<Vec<ProtocolSnapshot>, RestakingError>(e),
            None => r matches Ok(snapshot) && snapshot@.len() == fetched@.len() && forall|i: int|
                0 <= i < fetched@.len() ==> (#[trigger] snapshot@[i]).id@ == fetched@[i].id@
                    && fetched@[i].outcome == Ok::<ProtocolStats, RestakingError>(
                    snapshot@[i].stats,
                ),
        },
{
    let n = fetched.len();
    let mut snapshot: Vec<ProtocolSnapshot> = Vec::new();
    let mut i: usize = 0;
    assert(fetched@.skip(0) =~= fetched@);
    while i < n
        invariant
            n == fetched.len(),
            i <= n,
            snapshot.len() == i,
            first_failure(fetched@) == first_failure(fetched@.skip(i as int)),
            forall|k: int|
                0 <= k < i ==> (#[trigger] snapshot@[k]).id@ == fetched@[k].id@
                    && fetched@[k].outcome == Ok::<ProtocolStats, RestakingError>(
                    snapshot@[k].stats,
                ),
        decreases n - i,
    {
        proof {
            assert(fetched@.skip(i as int).drop_first() =~= fetched@.skip(i + 1));
        }
        match fetched[i].outcome {
            Err(e) => {
                return Err(e);
            },
            Ok(stats) => {
                snapshot.push(ProtocolSnapshot { id: fetched[i].id.clone(), stats });
            },
        }
        i = i + 1;
    }
    Ok(snapshot)
}

/// The statistics source and allocation engine for one service account.
#[derive(Debug, PartialEq, Eq)]
pub struct StakingStrategy {
    pub api_key: String,
    pub base_url: String,
    pub weights: ScoringWeights,
}

impl StakingStrategy {
    /// A strategy against the production service with the standard weights.
    pub fn new(api_key: String) -> (r: StakingStrategy)
        ensures
            r.api_key@ == api_key@,
            r.base_url@ == "https://api.p2p.org"@,
            r.weights == (ScoringWeights { apy_weight: 7, risk_weight: 3 }),
    {
        StakingStrategy {
            api_key,
            base_url: "https://api.p2p.org".to_owned(),
            weights: ScoringWeights::standard(),
        }
    }

    /// The same strategy with other weights.
    pub fn with_weights(self, weights: ScoringWeights) -> (r: StakingStrategy)
        ensures
            r.api_key@ == self.api_key@,
            r.base_url@ == self.base_url@,
            r.weights == weights,
    {
        StakingStrategy { api_key: self.api_key, base_url: self.base_url, weights }
    }

    /// Splits `total_amount` across the protocols of the snapshot.
    ///
    /// Fails when the snapshot is empty, when the total is zero, or when a protocol
    /// occurs twice, in this order of precedence. Otherwise the plan lists the
    /// protocols in the snapshot's order, the percentages add up to exactly one,
    /// and the amounts add up to exactly `total_amount`.
    pub fn calculate_allocation(&self, total_amount: Amount, snapshot: &Vec<ProtocolSnapshot>) -> (r:
        Result<AllocationPlan, RestakingError>)
        ensures
            match allocation_fault(total_amount@, snapshot@) {
                Some(fault) => r == Err::<AllocationPlan, RestakingError>(
                    RestakingError::AllocationError(fault),
                ),
                None => r matches Ok(plan) && plan.allocates(
                    total_amount@,
                    snapshot@,
                    self.weights,
                ) && plan.well_formed(),
            },
    {
        if snapshot.len() == 0 {
            return Err(RestakingError::AllocationError(AllocationFault::NoProtocols));
        }
        if total_amount.is_zero() {
            return Err(RestakingError::AllocationError(AllocationFault::ZeroTotalAmount));
        }
        if has_duplicate_id(snapshot) {
            return Err(RestakingError::AllocationError(AllocationFault::DuplicateProtocol));
        }
        let n = snapshot.len();
        let shares = shares_of(snapshot, &self.weights);
        let share_total = sum_shares(&shares);
        proof {
            let scores = clamped_scores(snapshot@, self.weights);
            if seq_sum(scores) == 0 {
                lemma_sum_constant(share_values(shares@), 1);
            }
        }
        let amounts = apportion(total_amount, &shares).unwrap();
        let mut allocations: Vec<Allocation> = Vec::new();
        let mut i: usize = 0;
        while i < n
            invariant
                n == snapshot.len(),
                shares.len() == n,
                amounts.len() == n,
                i <= n,
                allocations.len() == i,
                forall|k: int|
                    0 <= k < i ==> (#[trigger] allocations@[k]).protocol@ == snapshot@[k].id@
                        && allocations@[k].share == shares@[k] && allocations@[k].amount
                        == amounts@[k],
            decreases n - i,
        {
            allocations.push(
                Allocation { protocol: snapshot[i].id.clone(), share: shares[i], amount: amounts[i] },
            );
            i = i + 1;
        }
        let plan = AllocationPlan { total_amount, share_total, allocations };
        proof {
            assert(plan.shares() =~= share_values(shares@));
            assert(plan.amounts() =~= amount_values(amounts@));
        }
        Ok(plan)
    }
}

/// The percentages of a plan add up to exactly one: the shares add up to the
/// denominator, which is not zero, and no share is negative or above it.
pub proof fn lemma_percentages_sum_to_one(
    plan: AllocationPlan,
    total: nat,
    snapshot: Seq<ProtocolSnapshot>,
    weights: ScoringWeights,
)
    requires
        snapshot.len() > 0,
        plan.allocates(total, snapshot, weights),
    ensures
        plan.share_total > 0,
        seq_sum(plan.shares()) == plan.share_total,
        forall|i: int|
            0 <= i < snapshot.len() ==> 0 <= (#[trigger] plan.shares()[i]) && plan.shares()[i]
                <= plan.share_total,
{
    let scores = clamped_scores(snapshot, weights);
    if seq_sum(scores) == 0 {
        lemma_sum_constant(plan.shares(), 1);
    }
    assert forall|i: int| 0 <= i < snapshot.len() implies plan.shares()[i]
        <= plan.share_total by {
        lemma_sum_member(plan.shares(), i);
    }
}

/// The amounts of a plan never exceed the total, and fall short of it by less
/// than one unit per protocol. (They add up to the total exactly.)
pub proof fn lemma_amounts_within_total(
    plan: AllocationPlan,
    total: nat,
    snapshot: Seq<ProtocolSnapshot>,
    weights: ScoringWeights,
)
    requires
        snapshot.len() > 0,
        plan.allocates(total, snapshot, weights),
    ensures
        seq_sum(plan.amounts()) <= total,
        total - seq_sum(plan.amounts()) < snapshot.len(),
{
}

/// When every clamped score is zero the plan is an equal split: each protocol
/// receives the whole quotient of the total by the number of protocols, and the
/// first `total % n` protocols one unit more.
pub proof fn lemma_equal_split(
    plan: AllocationPlan,
    total: nat,
    snapshot: Seq<ProtocolSnapshot>,
    weights: ScoringWeights,
)
    requires
        snapshot.len() > 0,
        plan.allocates(total, snapshot, weights),
        forall|i: int| 0 <= i < snapshot.len() ==> clamped_score(snapshot[i].stats, weights) == 0,
    ensures
        forall|i: int|
            0 <= i < snapshot.len() ==> plan.amounts()[i] == total / snapshot.len() + (if i
                < total % snapshot.len() {
                1nat
            } else {
                0nat
            }),
{
    lemma_sum_constant(clamped_scores(snapshot, weights), 0);
    lemma_equal_shares(total, plan.shares(), plan.amounts());
}

/// A protocol whose raw score is not positive receives a percentage of zero and
/// an amount of zero, as long as some protocol has a positive score.
pub proof fn lemma_negative_score_gets_nothing(
    plan: AllocationPlan,
    total: nat,
    snapshot: Seq<ProtocolSnapshot>,
    weights: ScoringWeights,
    at: int,
)
    requires
        plan.allocates(total, snapshot, weights),
        0 <= at < snapshot.len(),
        raw_score(snapshot[at].stats, weights) <= 0,
        seq_sum(clamped_scores(snapshot, weights)) > 0,
    ensures
        plan.shares()[at] == 0,
        plan.amounts()[at] == 0,
{
    lemma_zero_share(total, plan.shares(), plan.amounts(), at);
}

/// Snapshot, weights and total determine the plan: two plans for the same input
/// hold the same protocols in the same order with the same percentages and the
/// same amounts.
pub proof fn lemma_allocation_is_determined(
    first: AllocationPlan,
    second: AllocationPlan,
    total: nat,
    snapshot: Seq<ProtocolSnapshot>,
    weights: ScoringWeights,
)
    requires
        first.allocates(total, snapshot, weights),
        second.allocates(total, snapshot, weights),
    ensures
        first.share_total == second.share_total,
        first.shares() == second.shares(),
        first.amounts() == second.amounts(),
        forall|i: int|
            0 <= i < snapshot.len() ==> (#[trigger] first.allocations@[i]).protocol@
                == second.allocations@[i].protocol@,
{
    lemma_fair_rounding_unique(total, first.shares(), first.amounts(), second.amounts());
}

} // verus!
