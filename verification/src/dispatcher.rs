//! The execution dispatcher: the bookkeeping of stake orders.
//!
//! The dispatcher turns a plan into one order per protocol that is to receive
//! something, and decides for every reported outcome whether the order is done,
//! has failed for good, or is to be tried again after a delay. It performs no
//! call and keeps no clock: the caller submits the stakes and waits out the
//! delays. Orders are independent of each other; nothing that happens to one
//! order ever changes another.

use vstd::prelude::*;
use vstd::arithmetic::power2::{lemma2_to64, lemma_pow2_strictly_increases, lemma_pow2_unfold, pow2};
use crate::amount::Amount;
use crate::error::RestakingError;
use crate::protocol::ProtocolId;
use crate::strategy::{Allocation, AllocationPlan};
use crate::transport::TransactionReceipt;

verus! {

/// Where an order stands. `Confirmed` and `Failed` are final.
#[derive(Clone, Copy, Debug, PartialEq, Eq, Structural)]
pub enum OrderStatus {
    Pending,
    Submitted,
    Confirmed,
    Failed,
}

/// The instruction to stake `amount` with one protocol.
#[derive(Debug, PartialEq, Eq)]
pub struct StakeOrder {
    pub protocol_id: ProtocolId,
    pub amount: Amount,
    pub status: OrderStatus,
}

/// How an order ended.
#[derive(Debug, PartialEq, Eq)]
pub enum StakeOutcome {
    /// The stake was taken; here is the proof.
    Receipt(TransactionReceipt),
    /// The stake failed for this reason.
    Failure(RestakingError),
    /// The order was cancelled before a stake was under way.
    Cancelled,
}

/// How often a stake is attempted and how long to wait between attempts:
/// `base_delay_ms` after the first failure, twice as long after each further
/// one, and never longer than `max_delay_ms`. A limit of zero attempts counts as one.
#[derive(Clone, Copy, Debug, PartialEq, Eq, Structural)]
pub struct RetryPolicy {
    pub max_attempts: u32,
    pub base_delay_ms: u64,
    pub max_delay_ms: u64,
}

/// What the dispatcher made of a reported outcome.
#[derive(Clone, Copy, Debug, PartialEq, Eq, Structural)]
pub enum Settlement {
    /// There is no such order, or no stake of it is under way.
    Ignored,
    /// The order is confirmed.
    Confirmed,
    /// The order has failed for good.
    Failed,
    /// The order is pending again; submit it after this many milliseconds.
    RetryAfter(u64),
}

/// An order with its history.
#[derive(Debug, PartialEq, Eq)]
pub struct OrderSlot {
    pub order: StakeOrder,
    pub attempts: u32,
    pub outcome: Option<StakeOutcome>,
}

/// The orders of one plan.
#[derive(Debug, PartialEq, Eq)]
pub struct ExecutionDispatcher {
    pub slots: Vec<OrderSlot>,
    pub policy: RetryPolicy,
}

/// The number of attempts the policy allows for one order.
pub open spec fn attempt_limit(policy: RetryPolicy) -> nat {
    if policy.max_attempts == 0 {
        1
    } else {
        policy.max_attempts as nat
    }
}

/// The delay after the given number of failed attempts: the base delay,
/// doubled for every failure after the first, and capped.
pub open spec fn backoff(policy: RetryPolicy, attempts: nat) -> nat {
    let doublings = if attempts == 0 {
        0nat
    } else {
        (attempts - 1) as nat
    };
    let raw = (policy.base_delay_ms * pow2(doublings)) as nat;
    if raw < policy.max_delay_ms {
        raw
    } else {
        policy.max_delay_ms as nat
    }
}

/// The allocations that call for a stake: those of more than nothing, in order.
pub open spec fn staked(allocations: Seq<Allocation>) -> Seq<Allocation>
    decreases allocations.len(),
{
    if allocations.len() == 0 {
        Seq::<Allocation>::empty()
    } else if allocations.last().amount@ > 0 {
        staked(allocations.drop_last()).push(allocations.last())
    } else {
        staked(allocations.drop_last())
    }
}

/// Whether an adapter is registered under this name.
pub open spec fn is_registered(registered: Seq<ProtocolId>, id: Seq<char>) -> bool {
    exists|i: int| 0 <= i < registered.len() && (#[trigger] registered[i])@ == id
}

/// The slot an allocation starts in: pending if an adapter is registered for its
/// protocol, failed as unsupported if none is.
pub open spec fn opens(slot: OrderSlot, allocation: Allocation, registered: Seq<ProtocolId>) -> bool {
    &&& slot.order.protocol_id@ == allocation.protocol@
    &&& slot.order.amount == allocation.amount
    &&& slot.attempts == 0
    &&& if is_registered(registered, allocation.protocol@) {
        slot.order.status == OrderStatus::Pending && slot.outcome is None
    } else {
        slot.order.status == OrderStatus::Failed && slot.outcome == Some(
            StakeOutcome::Failure(RestakingError::UnsupportedOperation),
        )
    }
}

impl Clone for TransactionReceipt {
    fn clone(&self) -> (r: TransactionReceipt)
        ensures
            r == *self,
    {
        TransactionReceipt {
            protocol_id: self.protocol_id.clone(),
            amount: self.amount,
            tx_or_reference_id: self.tx_or_reference_id.clone(),
            timestamp: self.timestamp,
        }
    }
}

impl Clone for StakeOutcome {
    fn clone(&self) -> (r: StakeOutcome)
        ensures
            r == *self,
    {
        match self {
            StakeOutcome::Receipt(receipt) => StakeOutcome::Receipt(receipt.clone()),
            StakeOutcome::Failure(e) => StakeOutcome::Failure(*e),
            StakeOutcome::Cancelled => StakeOutcome::Cancelled,
        }
    }
}

impl OrderSlot {
    /// Status, attempts and outcome agree: an open order has no outcome yet, a
    /// confirmed one has its receipt, a failed one its reason, and no order was
    /// attempted more often than the limit allows.
    pub open spec fn consistent(&self, limit: nat) -> bool {
        match self.order.status {
            OrderStatus::Pending => self.outcome is None && self.attempts < limit,
            OrderStatus::Submitted => self.outcome is None && 1 <= self.attempts <= limit,
            OrderStatus::Confirmed => self.outcome matches Some(StakeOutcome::Receipt(_)),
            OrderStatus::Failed => self.outcome matches Some(StakeOutcome::Failure(_))
                || self.outcome == Some(StakeOutcome::Cancelled),
        }
    }

    /// The same order in another state.
    pub open spec fn moved(
        &self,
        status: OrderStatus,
        attempts: u32,
        outcome: Option<StakeOutcome>,
    ) -> OrderSlot {
        OrderSlot {
            order: StakeOrder {
                protocol_id: self.order.protocol_id,
                amount: self.order.amount,
                status,
            },
            attempts,
            outcome,
        }
    }
}

/// The orders after order `index` was submitted: a pending order goes into
/// flight and counts one more attempt; anything else changes nothing.
pub open spec fn submitted(slots: Seq<OrderSlot>, index: int) -> Seq<OrderSlot> {
    if 0 <= index < slots.len() && slots[index].order.status == OrderStatus::Pending {
        slots.update(
            index,
            slots[index].moved(OrderStatus::Submitted, (slots[index].attempts + 1) as u32, None),
        )
    } else {
        slots
    }
}

/// An order in flight after the outcome of its stake was reported.
pub open spec fn settled(
    slot: OrderSlot,
    policy: RetryPolicy,
    result: Result<TransactionReceipt, RestakingError>,
) -> OrderSlot {
    match result {
        Ok(receipt) => slot.moved(
            OrderStatus::Confirmed,
            slot.attempts,
            Some(StakeOutcome::Receipt(receipt)),
        ),
        Err(e) => if e == RestakingError::NetworkError && slot.attempts < attempt_limit(policy) {
            slot.moved(OrderStatus::Pending, slot.attempts, None)
        } else {
            slot.moved(OrderStatus::Failed, slot.attempts, Some(StakeOutcome::Failure(e)))
        },
    }
}

/// What the dispatcher says of an outcome reported for an order in flight.
pub open spec fn settlement(
    slot: OrderSlot,
    policy: RetryPolicy,
    result: Result<TransactionReceipt, RestakingError>,
) -> Settlement {
    match result {
        Ok(_) => Settlement::Confirmed,
        Err(e) => if e == RestakingError::NetworkError && slot.attempts < attempt_limit(policy) {
            Settlement::RetryAfter(backoff(policy, slot.attempts as nat) as u64)
        } else {
            Settlement::Failed
        },
    }
}

/// The orders after an outcome was reported for order `index`: an order in
/// flight is settled; anything else changes nothing.
pub open spec fn recorded(
    slots: Seq<OrderSlot>,
    policy: RetryPolicy,
    index: int,
    result: Result<TransactionReceipt, RestakingError>,
) -> Seq<OrderSlot> {
    if 0 <= index < slots.len() && slots[index].order.status == OrderStatus::Submitted {
        slots.update(index, settled(slots[index], policy, result))
    } else {
        slots
    }
}

/// The orders after one whole attempt at order `index`: it is submitted and the
/// outcome of the stake is recorded.
pub open spec fn attempted(
    slots: Seq<OrderSlot>,
    policy: RetryPolicy,
    index: int,
    result: Result<TransactionReceipt, RestakingError>,
) -> Seq<OrderSlot> {
    recorded(submitted(slots, index), policy, index, result)
}

/// The orders after so many attempts at order `index` that all met a network failure.
pub open spec fn retried(slots: Seq<OrderSlot>, policy: RetryPolicy, index: int, rounds: nat) -> Seq<
    OrderSlot,
>
    decreases rounds,
{
    if rounds == 0 {
        slots
    } else {
        retried(
            attempted(
                slots,
                policy,
                index,
                Err::<TransactionReceipt, RestakingError>(RestakingError::NetworkError),
            ),
            policy,
            index,
            (rounds - 1) as nat,
        )
    }
}

/// Whether an adapter is registered for a protocol.
pub fn has_adapter(registered: &Vec<ProtocolId>, id: &ProtocolId) -> (r: bool)
    ensures
        r == is_registered(registered@, id@),
{
    let mut i: usize = 0;
    while i < registered.len()
        invariant
            i <= registered.len(),
            forall|k: int| 0 <= k < i ==> (#[trigger] registered@[k])@ != id@,
        decreases registered.len() - i,
    {
        if registered[i].same(id) {
            return true;
        }
        i = i + 1;
    }
    false
}

/// The delay before the next attempt, after `attempts` failed ones.
pub fn backoff_delay(policy: &RetryPolicy, failed: u32) -> (r: u64)
    ensures
        r == backoff(*policy, failed as nat),
{
    let base = policy.base_delay_ms;
    let max = policy.max_delay_ms;
    let attempts: u32 = if failed == 0 {
        1
    } else {
        failed
    };
    if base == 0 {
        assert(0 * pow2((attempts - 1) as nat) == 0) by (nonlinear_arith);
        return 0;
    }
    let mut delay: u64 = base;
    let mut step: u32 = 1;
    proof {
        lemma2_to64();
        assert(base * pow2(0) == base) by (nonlinear_arith)
            requires
                pow2(0) == 1,
        ;
    }
    while step < attempts && delay < max
        invariant
            1 <= step <= attempts,
            failed == 0 ==> attempts == 1,
            failed != 0 ==> attempts == failed,
            base >= 1,
            base == policy.base_delay_ms,
            max == policy.max_delay_ms,
            delay == base * pow2((step - 1) as nat),
        decreases attempts - step,
    {
        proof {
            lemma_pow2_unfold(step as nat);
            assert(base * (2 * pow2((step - 1) as nat)) == 2 * (base * pow2((step - 1) as nat)))
                by (nonlinear_arith);
        }
        if delay > max / 2 {
            proof {
                if step < attempts - 1 {
                    lemma_pow2_strictly_increases(step as nat, (attempts - 1) as nat);
                }
                assert(base * pow2(step as nat) <= base * pow2((attempts - 1) as nat))
                    by (nonlinear_arith)
                    requires
                        pow2(step as nat) <= pow2((attempts - 1) as nat),
                        base >= 1,
                ;
            }
            return max;
        }
        delay = delay * 2;
        step = step + 1;
    }
    proof {
        if step < attempts {
            lemma_pow2_strictly_increases((step - 1) as nat, (attempts - 1) as nat);
            assert(base * pow2((step - 1) as nat) <= base * pow2((attempts - 1) as nat))
                by (nonlinear_arith)
                requires
                    pow2((step - 1) as nat) <= pow2((attempts - 1) as nat),
                    base >= 1,
            ;
        }
    }
    if delay < max {
        delay
    } else {
        max
    }
}

impl ExecutionDispatcher {
    /// Every order is consistent with the policy's limit.
    pub open spec fn well_formed(&self) -> bool {
        forall|i: int|
            0 <= i < self.slots@.len() ==> (#[trigger] self.slots@[i]).consistent(
                attempt_limit(self.policy),
            )
    }

    /// The orders are those of `before`, and every order that had ended in
    /// `before` is as it was: what is confirmed stays confirmed, what has failed
    /// stays failed.
    pub open spec fn keeps_ended(&self, before: ExecutionDispatcher) -> bool {
        &&& self.slots@.len() == before.slots@.len()
        &&& forall|i: int|
            0 <= i < before.slots@.len() && (#[trigger] before.slots@[i]).outcome is Some
                ==> self.slots@[i] == before.slots@[i]
    }

    /// Whether order `index` exists and is in the given status.
    pub open spec fn in_status(&self, index: usize, status: OrderStatus) -> bool {
        index < self.slots@.len() && self.slots@[index as int].order.status == status
    }

    /// The orders of a plan: one for every allocation of more than nothing, in
    /// the plan's order. An order for a protocol without a registered adapter
    /// has failed from the start.
    pub fn new(plan: &AllocationPlan, registered: &Vec<ProtocolId>, policy: RetryPolicy) -> (r:
        ExecutionDispatcher)
        ensures
            r.well_formed(),
            r.policy == policy,
            r.slots@.len() == staked(plan.allocations@).len(),
            forall|i: int|
                0 <= i < r.slots@.len() ==> opens(
                    #[trigger] r.slots@[i],
                    staked(plan.allocations@)[i],
                    registered@,
                ),
    {
        let n = plan.allocations.len();
        let mut slots: Vec<OrderSlot> = Vec::new();
        let mut k: usize = 0;
        assert(plan.allocations@.take(0) =~= Seq::<Allocation>::empty());
        while k < n
            invariant
                n == plan.allocations@.len(),
                k <= n,
                slots@.len() == staked(plan.allocations@.take(k as int)).len(),
                forall|i: int|
                    0 <= i < slots@.len() ==> opens(
                        #[trigger] slots@[i],
                        staked(plan.allocations@.take(k as int))[i],
                        registered@,
                    ),
                forall|i: int|
                    0 <= i < slots@.len() ==> (#[trigger] slots@[i]).consistent(
                        attempt_limit(policy),
                    ),
            decreases n - k,
        {
            proof {
                assert(plan.allocations@.take(k + 1).drop_last() =~= plan.allocations@.take(
                    k as int,
                ));
            }
            let allocation = &plan.allocations[k];
            if !allocation.amount.is_zero() {
                let known = has_adapter(registered, &allocation.protocol);
                let slot = OrderSlot {
                    order: StakeOrder {
                        protocol_id: allocation.protocol.clone(),
                        amount: allocation.amount,
                        status: if known {
                            OrderStatus::Pending
                        } else {
                            OrderStatus::Failed
                        },
                    },
                    attempts: 0,
                    outcome: if known {
                        None
                    } else {
                        Some(StakeOutcome::Failure(RestakingError::UnsupportedOperation))
                    },
                };
                slots.push(slot);
            }
            k = k + 1;
        }
        assert(plan.allocations@.take(n as int) =~= plan.allocations@);
        ExecutionDispatcher { slots, policy }
    }

    /// Whether every order is consistent with the policy's limit. A dispatcher
    /// that was made by `new` and changed only through its methods always is.
    pub fn is_well_formed(&self) -> (r: bool)
        ensures
            r == self.well_formed(),
    {
        let limit = if self.policy.max_attempts == 0 {
            1
        } else {
            self.policy.max_attempts
        };
        let mut i: usize = 0;
        while i < self.slots.len()
            invariant
                i <= self.slots@.len(),
                limit == attempt_limit(self.policy),
                forall|k: int| 0 <= k < i ==> (#[trigger] self.slots@[k]).consistent(limit as nat),
            decreases self.slots@.len() - i,
        {
            let slot = &self.slots[i];
            let fine = match slot.order.status {
                OrderStatus::Pending => slot.outcome.is_none() && slot.attempts < limit,
                OrderStatus::Submitted => slot.outcome.is_none() && 1 <= slot.attempts
                    && slot.attempts <= limit,
                OrderStatus::Confirmed => match &slot.outcome {
                    Some(StakeOutcome::Receipt(_)) => true,
                    _ => false,
                },
                OrderStatus::Failed => match &slot.outcome {
                    Some(StakeOutcome::Failure(_)) => true,
                    Some(StakeOutcome::Cancelled) => true,
                    _ => false,
                },
            };
            if !fine {
                return false;
            }
            i = i + 1;
        }
        true
    }

    /// The number of orders.
    pub fn len(&self) -> (r: usize)
        ensures
            r == self.slots@.len(),
    {
        self.slots.len()
    }

    /// The first order that waits to be submitted.
    pub fn next_pending(&self) -> (r: Option<usize>)
        ensures
            match r {
                Some(index) => self.in_status(index, OrderStatus::Pending) && forall|i: int|
                    0 <= i < index ==> (#[trigger] self.slots@[i]).order.status
                        != OrderStatus::Pending,
                None => forall|i: int|
                    0 <= i < self.slots@.len() ==> (#[trigger] self.slots@[i]).order.status
                        != OrderStatus::Pending,
            },
    {
        let mut i: usize = 0;
        while i < self.slots.len()
            invariant
                i <= self.slots@.len(),
                forall|k: int|
                    0 <= k < i ==> (#[trigger] self.slots@[k]).order.status != OrderStatus::Pending,
            decreases self.slots@.len() - i,
        {
            if self.slots[i].order.status == OrderStatus::Pending {
                return Some(i);
            }
            i = i + 1;
        }
        None
    }

    /// Whether every order has reached a final status.
    pub fn is_complete(&self) -> (r: bool)
        ensures
            r == forall|i: int|
                0 <= i < self.slots@.len() ==> {
                    let status = (#[trigger] self.slots@[i]).order.status;
                    status == OrderStatus::Confirmed || status == OrderStatus::Failed
                },
    {
        let mut i: usize = 0;
        while i < self.slots.len()
            invariant
                i <= self.slots@.len(),
                forall|k: int|
                    0 <= k < i ==> {
                        let status = (#[trigger] self.slots@[k]).order.status;
                        status == OrderStatus::Confirmed || status == OrderStatus::Failed
                    },
            decreases self.slots@.len() - i,
        {
            let status = self.slots[i].order.status;
            if status == OrderStatus::Pending || status == OrderStatus::Submitted {
                return false;
            }
            i = i + 1;
        }
        true
    }

    /// Takes a pending order into flight and says what to stake with whom. Any
    /// other index changes nothing.
    pub fn submit(&mut self, index: usize) -> (r: Option<(ProtocolId, Amount)>)
        requires
            old(self).well_formed(),
        ensures
            final(self).well_formed(),
            final(self).policy == old(self).policy,
            final(self).keeps_ended(*old(self)),
            final(self).slots@ == submitted(old(self).slots@, index as int),
            if old(self).in_status(index, OrderStatus::Pending) {
                let before = old(self).slots@[index as int];
                &&& r matches Some(stake)
                &&& stake.0@ == before.order.protocol_id@
                &&& stake.1 == before.order.amount
            } else {
                r is None
            },
    {
        if index >= self.slots.len() {
            return None;
        }
        if self.slots[index].order.status != OrderStatus::Pending {
            return None;
        }
        let id = self.slots[index].order.protocol_id.clone();
        let amount = self.slots[index].order.amount;
        let attempts = self.slots[index].attempts + 1;
        self.slots.set(
            index,
            OrderSlot {
                order: StakeOrder { protocol_id: id.clone(), amount, status: OrderStatus::Submitted },
                attempts,
                outcome: None,
            },
        );
        Some((id, amount))
    }

    /// Records what came of the stake that is under way for an order.
    ///
    /// A receipt confirms the order. A network failure makes it pending again as
    /// long as the policy allows another attempt; any other failure, or a network
    /// failure on the last attempt, fails it for good. No other order changes, so a
    /// stake that was confirmed stays confirmed whatever happens elsewhere.
    pub fn record(&mut self, index: usize, result: Result<TransactionReceipt, RestakingError>) -> (r:
        Settlement)
        requires
            old(self).well_formed(),
        ensures
            final(self).well_formed(),
            final(self).policy == old(self).policy,
            final(self).keeps_ended(*old(self)),
            final(self).slots@ == recorded(old(self).slots@, old(self).policy, index as int, result),
            if old(self).in_status(index, OrderStatus::Submitted) {
                r == settlement(old(self).slots@[index as int], old(self).policy, result)
            } else {
                r == Settlement::Ignored
            },
    {
        if index >= self.slots.len() {
            return Settlement::Ignored;
        }
        if self.slots[index].order.status != OrderStatus::Submitted {
            return Settlement::Ignored;
        }
        let id = self.slots[index].order.protocol_id.clone();
        let amount = self.slots[index].order.amount;
        let attempts = self.slots[index].attempts;
        let limit = if self.policy.max_attempts == 0 {
            1
        } else {
            self.policy.max_attempts
        };
        match result {
            Ok(receipt) => {
                self.slots.set(
                    index,
                    OrderSlot {
                        order: StakeOrder { protocol_id: id, amount, status: OrderStatus::Confirmed },
                        attempts,
                        outcome: Some(StakeOutcome::Receipt(receipt)),
                    },
                );
                Settlement::Confirmed
            },
            Err(e) => {
                if e.is_retryable() && attempts < limit {
                    let delay = backoff_delay(&self.policy, attempts);
                    self.slots.set(
                        index,
                        OrderSlot {
                            order: StakeOrder {
                                protocol_id: id,
                                amount,
                                status: OrderStatus::Pending,
                            },
                            attempts,
                            outcome: None,
                        },
                    );
                    Settlement::RetryAfter(delay)
                } else {
                    self.slots.set(
                        index,
                        OrderSlot {
                            order: StakeOrder { protocol_id: id, amount, status: OrderStatus::Failed },
                            attempts,
                            outcome: Some(StakeOutcome::Failure(e)),
                        },
                    );
                    Settlement::Failed
                }
            },
        }
    }

    /// Cancels an order that waits to be submitted. An order whose stake is under
    /// way, or that is final, cannot be cancelled: then nothing changes.
    pub fn cancel(&mut self, index: usize) -> (r: bool)
        requires
            old(self).well_formed(),
        ensures
            final(self).well_formed(),
            final(self).policy == old(self).policy,
            final(self).keeps_ended(*old(self)),
            r == old(self).in_status(index, OrderStatus::Pending),
            if r {
                let before = old(self).slots@[index as int];
                final(self).slots@ == old(self).slots@.update(
                    index as int,
                    before.moved(
                        OrderStatus::Failed,
                        before.attempts,
                        Some(StakeOutcome::Cancelled),
                    ),
                )
            } else {
                final(self).slots@ == old(self).slots@
            },
    {
        if index >= self.slots.len() {
            return false;
        }
        if self.slots[index].order.status != OrderStatus::Pending {
            return false;
        }
        let id = self.slots[index].order.protocol_id.clone();
        let amount = self.slots[index].order.amount;
        let attempts = self.slots[index].attempts;
        self.slots.set(
            index,
            OrderSlot {
                order: StakeOrder { protocol_id: id, amount, status: OrderStatus::Failed },
                attempts,
                outcome: Some(StakeOutcome::Cancelled),
            },
        );
        true
    }

    /// The composite result: for every order that has ended, its protocol and
    /// how it ended, in the order of the plan.
    pub fn results(&self) -> (r: Vec<(ProtocolId, StakeOutcome)>)
        ensures
            r@ == ended(self.slots@),
    {
        let mut results: Vec<(ProtocolId, StakeOutcome)> = Vec::new();
        let mut i: usize = 0;
        assert(self.slots@.take(0) =~= Seq::<OrderSlot>::empty());
        while i < self.slots.len()
            invariant
                i <= self.slots@.len(),
                results@ == ended(self.slots@.take(i as int)),
            decreases self.slots@.len() - i,
        {
            proof {
                assert(self.slots@.take(i + 1).drop_last() =~= self.slots@.take(i as int));
            }
            match &self.slots[i].outcome {
                Some(outcome) => {
                    results.push((self.slots[i].order.protocol_id.clone(), outcome.clone()));
                },
                None => {},
            }
            i = i + 1;
        }
        assert(self.slots@.take(i as int) =~= self.slots@);
        results
    }
}

/// Protocol and outcome of every order that has an outcome, in order.
pub open spec fn ended(slots: Seq<OrderSlot>) -> Seq<(ProtocolId, StakeOutcome)>
    decreases slots.len(),
{
    if slots.len() == 0 {
        Seq::<(ProtocolId, StakeOutcome)>::empty()
    } else {
        match slots.last().outcome {
            Some(outcome) => ended(slots.drop_last()).push((slots.last().order.protocol_id, outcome)),
            None => ended(slots.drop_last()),
        }
    }
}

/// An order whose every attempt meets a network failure is attempted as often
/// as the policy allows and then has failed with that failure. No other order
/// changes.
pub proof fn lemma_network_failures_exhaust(
    slots: Seq<OrderSlot>,
    policy: RetryPolicy,
    index: int,
)
    requires
        0 <= index < slots.len(),
        slots[index].order.status == OrderStatus::Pending,
        slots[index].consistent(attempt_limit(policy)),
    ensures
        retried(slots, policy, index, (attempt_limit(policy) - slots[index].attempts) as nat)
            == slots.update(
            index,
            slots[index].moved(
                OrderStatus::Failed,
                attempt_limit(policy) as u32,
                Some(StakeOutcome::Failure(RestakingError::NetworkError)),
            ),
        ),
    decreases attempt_limit(policy) - slots[index].attempts,
{
    let limit = attempt_limit(policy);
    let rounds = (limit - slots[index].attempts) as nat;
    let failure = Err::<TransactionReceipt, RestakingError>(RestakingError::NetworkError);
    let next = attempted(slots, policy, index, failure);
    let done = slots.update(
        index,
        slots[index].moved(
            OrderStatus::Failed,
            limit as u32,
            Some(StakeOutcome::Failure(RestakingError::NetworkError)),
        ),
    );
    assert(retried(slots, policy, index, rounds) == retried(
        next,
        policy,
        index,
        (rounds - 1) as nat,
    ));
    if slots[index].attempts + 1 < limit {
        lemma_network_failures_exhaust(next, policy, index);
        assert(next.update(
            index,
            next[index].moved(
                OrderStatus::Failed,
                limit as u32,
                Some(StakeOutcome::Failure(RestakingError::NetworkError)),
            ),
        ) =~= done);
    } else {
        assert(next =~= done);
        assert(retried(next, policy, index, 0) == next);
    }
}

/// One adapter that never answers and one that takes the stake: whichever of
/// the two orders is attempted first, the failing order ends as failed with the
/// network failure after all the attempts the policy allows, the other order
/// ends as confirmed with its receipt, and no other order changes. The failure
/// of the one neither prevents nor undoes the stake of the other.
pub proof fn lemma_failure_leaves_success_committed(
    slots: Seq<OrderSlot>,
    policy: RetryPolicy,
    failing: int,
    succeeding: int,
    receipt: TransactionReceipt,
)
    requires
        0 <= failing < slots.len(),
        0 <= succeeding < slots.len(),
        failing != succeeding,
        slots[failing].order.status == OrderStatus::Pending,
        slots[succeeding].order.status == OrderStatus::Pending,
        slots[failing].consistent(attempt_limit(policy)),
        slots[succeeding].consistent(attempt_limit(policy)),
    ensures
        ({
            let rounds = (attempt_limit(policy) - slots[failing].attempts) as nat;
            let result = Ok::<TransactionReceipt, RestakingError>(receipt);
            let ends = slots.update(
                failing,
                slots[failing].moved(
                    OrderStatus::Failed,
                    attempt_limit(policy) as u32,
                    Some(StakeOutcome::Failure(RestakingError::NetworkError)),
                ),
            ).update(
                succeeding,
                slots[succeeding].moved(
                    OrderStatus::Confirmed,
                    (slots[succeeding].attempts + 1) as u32,
                    Some(StakeOutcome::Receipt(receipt)),
                ),
            );
            &&& attempted(retried(slots, policy, failing, rounds), policy, succeeding, result)
                == ends
            &&& retried(attempted(slots, policy, succeeding, result), policy, failing, rounds)
                == ends
        }),
{
    let limit = attempt_limit(policy);
    let result = Ok::<TransactionReceipt, RestakingError>(receipt);
    let failed = slots[failing].moved(
        OrderStatus::Failed,
        limit as u32,
        Some(StakeOutcome::Failure(RestakingError::NetworkError)),
    );
    let confirmed = slots[succeeding].moved(
        OrderStatus::Confirmed,
        (slots[succeeding].attempts + 1) as u32,
        Some(StakeOutcome::Receipt(receipt)),
    );
    let ends = slots.update(failing, failed).update(succeeding, confirmed);
    lemma_network_failures_exhaust(slots, policy, failing);
    assert(attempted(slots.update(failing, failed), policy, succeeding, result) =~= ends);
    let first = attempted(slots, policy, succeeding, result);
    assert(first =~= slots.update(succeeding, confirmed));
    lemma_network_failures_exhaust(first, policy, failing);
    assert(first.update(failing, first[failing].moved(
        OrderStatus::Failed,
        limit as u32,
        Some(StakeOutcome::Failure(RestakingError::NetworkError)),
    )) =~= ends);
}

/// The composite result of a plan of two orders, of which the first never gets
/// an answer and the second is taken: one failure and one receipt.
pub proof fn lemma_one_failure_one_receipt(
    slots: Seq<OrderSlot>,
    policy: RetryPolicy,
    receipt: TransactionReceipt,
)
    requires
        slots.len() == 2,
        slots[0].order.status == OrderStatus::Pending,
        slots[1].order.status == OrderStatus::Pending,
        slots[0].consistent(attempt_limit(policy)),
        slots[1].consistent(attempt_limit(policy)),
    ensures
        ended(
            attempted(
                retried(slots, policy, 0, (attempt_limit(policy) - slots[0].attempts) as nat),
                policy,
                1,
                Ok::<TransactionReceipt, RestakingError>(receipt),
            ),
        ) == seq![
            (slots[0].order.protocol_id, StakeOutcome::Failure(RestakingError::NetworkError)),
            (slots[1].order.protocol_id, StakeOutcome::Receipt(receipt)),
        ],
{
    lemma_failure_leaves_success_committed(slots, policy, 0, 1, receipt);
    let rounds = (attempt_limit(policy) - slots[0].attempts) as nat;
    let after = attempted(
        retried(slots, policy, 0, rounds),
        policy,
        1,
        Ok::<TransactionReceipt, RestakingError>(receipt),
    );
    let front = after.drop_last();
    assert(front.len() == 1);
    assert(front.drop_last() =~= Seq::<OrderSlot>::empty());
    assert(ended(front.drop_last()) =~= Seq::<(ProtocolId, StakeOutcome)>::empty());
    assert(ended(front) =~= seq![
        (slots[0].order.protocol_id, StakeOutcome::Failure(RestakingError::NetworkError)),
    ]);
    assert(ended(after) =~= seq![
        (slots[0].order.protocol_id, StakeOutcome::Failure(RestakingError::NetworkError)),
        (slots[1].order.protocol_id, StakeOutcome::Receipt(receipt)),
    ]);
}

} // verus!
