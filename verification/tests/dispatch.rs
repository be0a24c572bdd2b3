use restaking_mechanism::adapter::RestakingProtocol;
use restaking_mechanism::address::Address;
use restaking_mechanism::amount::Amount;
use restaking_mechanism::dispatcher::{
    backoff_delay, has_adapter, ExecutionDispatcher, OrderStatus, RetryPolicy, Settlement, StakeOutcome,
};
use restaking_mechanism::error::RestakingError;
use restaking_mechanism::lido::Lido;
use restaking_mechanism::p2p::P2PRestaker;
use restaking_mechanism::protocol::{ProtocolId, ProtocolSnapshot, ProtocolStats};
use restaking_mechanism::strategy::{Allocation, AllocationPlan, StakingStrategy};
use restaking_mechanism::transport::{AdapterReply, TransactionReceipt};

fn policy() -> RetryPolicy {
    RetryPolicy { max_attempts: 3, base_delay_ms: 100, max_delay_ms: 1000 }
}

fn plan_of(parts: &[(&str, u64)]) -> AllocationPlan {
    let total: u64 = parts.iter().map(|p| p.1).sum();
    AllocationPlan {
        total_amount: Amount::from_u64(total),
        share_total: parts.len() as u128,
        allocations: parts
            .iter()
            .map(|(name, amount)| Allocation {
                protocol: ProtocolId::new(name),
                share: 1,
                amount: Amount::from_u64(*amount),
            })
            .collect(),
    }
}

fn ids(names: &[&str]) -> Vec<ProtocolId> {
    names.iter().map(|n| ProtocolId::new(n)).collect()
}

fn receipt(name: &str, amount: u64) -> TransactionReceipt {
    TransactionReceipt {
        protocol_id: ProtocolId::new(name),
        amount: Amount::from_u64(amount),
        tx_or_reference_id: "ref".to_string(),
        timestamp: 9,
    }
}

#[test]
fn one_failing_and_one_succeeding_adapter() {
    let snapshot = vec![
        ProtocolSnapshot {
            id: ProtocolId::new("lido"),
            stats: ProtocolStats { apy: 500, tvl: Amount::zero(), risk_score: 20 },
        },
        ProtocolSnapshot {
            id: ProtocolId::new("eigenlayer-p2p"),
            stats: ProtocolStats { apy: 800, tvl: Amount::zero(), risk_score: 50 },
        },
    ];
    let plan = StakingStrategy::new("k".to_string())
        .calculate_allocation(Amount::from_u64(1000), &snapshot)
        .unwrap();
    let lido = Lido::new("http://node").unwrap();
    let restaker = P2PRestaker::new("k".to_string(), Address::zero(), "ETH".to_string());
    let registered = vec![lido.protocol_id(), restaker.protocol_id()];
    let mut dispatcher = ExecutionDispatcher::new(&plan, &registered, policy());
    assert_eq!(dispatcher.len(), 2);
    let mut waits = Vec::new();
    let mut calls_to_lido = 0;
    while let Some(index) = dispatcher.next_pending() {
        let (id, amount) = dispatcher.submit(index).unwrap();
        // The node behind the first adapter is never reached; the service behind
        // the second always answers.
        let result = if id == lido.protocol_id() {
            calls_to_lido += 1;
            assert!(lido.stake(amount).is_ok());
            lido.confirm_stake(amount, &AdapterReply::Unreachable)
        } else {
            assert!(restaker.stake(amount).is_ok());
            let reply = AdapterReply::Answered { status: 200, body: "{}".to_string(), timestamp: 42 };
            restaker.confirm_stake(amount, &reply)
        };
        if let Settlement::RetryAfter(ms) = dispatcher.record(index, result) {
            waits.push(ms);
        }
    }
    assert!(dispatcher.is_complete());
    assert_eq!(calls_to_lido, 3);
    assert_eq!(waits, vec![100, 200]);
    let results = dispatcher.results();
    assert_eq!(results.len(), 2);
    assert_eq!(results[0], (ProtocolId::new("lido"), StakeOutcome::Failure(RestakingError::NetworkError)));
    assert_eq!(results[1].0, ProtocolId::new("eigenlayer-p2p"));
    match &results[1].1 {
        StakeOutcome::Receipt(r) => {
            assert_eq!(r.amount, Amount::from_u64(613));
            assert_eq!(r.protocol_id, ProtocolId::new("eigenlayer-p2p"));
            assert_eq!(r.timestamp, 42);
        }
        other => panic!("unexpected outcome {:?}", other),
    }
    assert_eq!(dispatcher.slots[0].order.status, OrderStatus::Failed);
    assert_eq!(dispatcher.slots[0].order.amount, Amount::from_u64(387));
    assert_eq!(dispatcher.slots[1].order.status, OrderStatus::Confirmed);
}

#[test]
fn failure_after_success_leaves_the_success_committed() {
    let mut d = ExecutionDispatcher::new(&plan_of(&[("a", 5), ("b", 7)]), &ids(&["a", "b"]), policy());
    assert_eq!(d.submit(0), Some((ProtocolId::new("a"), Amount::from_u64(5))));
    assert_eq!(d.submit(1), Some((ProtocolId::new("b"), Amount::from_u64(7))));
    assert_eq!(d.record(0, Ok(receipt("a", 5))), Settlement::Confirmed);
    assert_eq!(d.record(1, Err(RestakingError::AuthError)), Settlement::Failed);
    assert_eq!(d.slots[0].order.status, OrderStatus::Confirmed);
    assert_eq!(d.slots[0].outcome, Some(StakeOutcome::Receipt(receipt("a", 5))));
    assert_eq!(d.slots[1].outcome, Some(StakeOutcome::Failure(RestakingError::AuthError)));
    // Nothing that is reported later touches an order that has ended.
    assert_eq!(d.record(0, Err(RestakingError::NetworkError)), Settlement::Ignored);
    assert_eq!(d.submit(0), None);
    assert!(!d.cancel(0));
    assert_eq!(d.slots[0].outcome, Some(StakeOutcome::Receipt(receipt("a", 5))));
    assert!(d.is_complete());
}

#[test]
fn fatal_failures_are_never_retried() {
    for e in [
        RestakingError::AuthError,
        RestakingError::ValidationError,
        RestakingError::UnsupportedOperation,
        RestakingError::ParseError,
    ] {
        let mut d = ExecutionDispatcher::new(&plan_of(&[("a", 5)]), &ids(&["a"]), policy());
        d.submit(0).unwrap();
        assert_eq!(d.record(0, Err(e)), Settlement::Failed);
        assert_eq!(d.slots[0].attempts, 1);
        assert_eq!(d.next_pending(), None);
        assert_eq!(d.results(), vec![(ProtocolId::new("a"), StakeOutcome::Failure(e))]);
    }
}

#[test]
fn network_failures_are_retried_up_to_the_limit() {
    let mut d = ExecutionDispatcher::new(&plan_of(&[("a", 5)]), &ids(&["a"]), policy());
    d.submit(0).unwrap();
    assert_eq!(d.slots[0].order.status, OrderStatus::Submitted);
    assert_eq!(d.next_pending(), None);
    assert!(!d.is_complete());
    assert_eq!(d.record(0, Err(RestakingError::NetworkError)), Settlement::RetryAfter(100));
    assert_eq!(d.slots[0].order.status, OrderStatus::Pending);
    assert_eq!(d.next_pending(), Some(0));
    d.submit(0).unwrap();
    assert_eq!(d.record(0, Err(RestakingError::NetworkError)), Settlement::RetryAfter(200));
    d.submit(0).unwrap();
    assert_eq!(d.slots[0].attempts, 3);
    assert_eq!(d.record(0, Err(RestakingError::NetworkError)), Settlement::Failed);
    assert_eq!(d.slots[0].order.status, OrderStatus::Failed);
    assert_eq!(d.submit(0), None);
}

#[test]
fn retry_can_still_succeed() {
    let mut d = ExecutionDispatcher::new(&plan_of(&[("a", 5)]), &ids(&["a"]), policy());
    d.submit(0).unwrap();
    assert_eq!(d.record(0, Err(RestakingError::NetworkError)), Settlement::RetryAfter(100));
    d.submit(0).unwrap();
    assert_eq!(d.record(0, Ok(receipt("a", 5))), Settlement::Confirmed);
    assert_eq!(d.slots[0].attempts, 2);
    assert_eq!(d.results(), vec![(ProtocolId::new("a"), StakeOutcome::Receipt(receipt("a", 5)))]);
}

#[test]
fn a_limit_of_zero_attempts_counts_as_one() {
    let once = RetryPolicy { max_attempts: 0, base_delay_ms: 1, max_delay_ms: 1 };
    let mut d = ExecutionDispatcher::new(&plan_of(&[("a", 5)]), &ids(&["a"]), once);
    assert!(d.submit(0).is_some());
    assert_eq!(d.record(0, Err(RestakingError::NetworkError)), Settlement::Failed);
}

#[test]
fn backoff_doubles_up_to_the_cap() {
    let p = policy();
    assert_eq!(backoff_delay(&p, 0), 100);
    assert_eq!(backoff_delay(&p, 1), 100);
    assert_eq!(backoff_delay(&p, 2), 200);
    assert_eq!(backoff_delay(&p, 3), 400);
    assert_eq!(backoff_delay(&p, 4), 800);
    assert_eq!(backoff_delay(&p, 5), 1000);
    assert_eq!(backoff_delay(&p, 6), 1000);
    assert_eq!(backoff_delay(&p, u32::MAX), 1000);
    let exact = RetryPolicy { max_attempts: 9, base_delay_ms: 125, max_delay_ms: 1000 };
    assert_eq!(backoff_delay(&exact, 4), 1000);
    let none = RetryPolicy { max_attempts: 9, base_delay_ms: 0, max_delay_ms: 1000 };
    assert_eq!(backoff_delay(&none, 7), 0);
    let capped = RetryPolicy { max_attempts: 9, base_delay_ms: 50, max_delay_ms: 0 };
    assert_eq!(backoff_delay(&capped, 1), 0);
    let wide = RetryPolicy { max_attempts: 9, base_delay_ms: 1, max_delay_ms: u64::MAX };
    assert_eq!(backoff_delay(&wide, 64), 1 << 63);
    assert_eq!(backoff_delay(&wide, 65), u64::MAX);
    let small = RetryPolicy { max_attempts: 9, base_delay_ms: 2000, max_delay_ms: 1000 };
    assert_eq!(backoff_delay(&small, 1), 1000);
}

#[test]
fn allocations_of_nothing_get_no_order() {
    let plan = plan_of(&[("a", 0), ("b", 7), ("c", 0), ("d", 1)]);
    let d = ExecutionDispatcher::new(&plan, &ids(&["a", "b", "c", "d"]), policy());
    assert_eq!(d.len(), 2);
    assert_eq!(d.slots[0].order.protocol_id, ProtocolId::new("b"));
    assert_eq!(d.slots[0].order.amount, Amount::from_u64(7));
    assert_eq!(d.slots[0].order.status, OrderStatus::Pending);
    assert_eq!(d.slots[1].order.protocol_id, ProtocolId::new("d"));
    assert_eq!(d.results(), vec![]);
    let empty = ExecutionDispatcher::new(&plan_of(&[("a", 0)]), &ids(&["a"]), policy());
    assert_eq!(empty.len(), 0);
    assert!(empty.is_complete());
    assert_eq!(empty.next_pending(), None);
}

#[test]
fn protocol_without_adapter_fails_from_the_start() {
    let mut d = ExecutionDispatcher::new(&plan_of(&[("a", 5), ("b", 7)]), &ids(&["b"]), policy());
    assert_eq!(d.slots[0].order.status, OrderStatus::Failed);
    assert_eq!(d.slots[0].attempts, 0);
    assert_eq!(d.next_pending(), Some(1));
    assert_eq!(d.submit(0), None);
    assert_eq!(
        d.results(),
        vec![(ProtocolId::new("a"), StakeOutcome::Failure(RestakingError::UnsupportedOperation))]
    );
    assert!(has_adapter(&ids(&["b"]), &ProtocolId::new("b")));
    assert!(!has_adapter(&ids(&["b"]), &ProtocolId::new("a")));
    assert!(!has_adapter(&ids(&[]), &ProtocolId::new("a")));
}

#[test]
fn only_a_waiting_order_can_be_cancelled() {
    let mut d = ExecutionDispatcher::new(&plan_of(&[("a", 5), ("b", 7)]), &ids(&["a", "b"]), policy());
    d.submit(0).unwrap();
    assert!(!d.cancel(0));
    assert_eq!(d.slots[0].order.status, OrderStatus::Submitted);
    assert!(d.cancel(1));
    assert_eq!(d.slots[1].order.status, OrderStatus::Failed);
    assert_eq!(d.slots[1].outcome, Some(StakeOutcome::Cancelled));
    assert!(!d.cancel(1));
    assert!(!d.cancel(2));
    assert_eq!(d.record(0, Ok(receipt("a", 5))), Settlement::Confirmed);
    assert_eq!(
        d.results(),
        vec![
            (ProtocolId::new("a"), StakeOutcome::Receipt(receipt("a", 5))),
            (ProtocolId::new("b"), StakeOutcome::Cancelled),
        ]
    );
}

#[test]
fn unknown_orders_are_ignored() {
    let mut d = ExecutionDispatcher::new(&plan_of(&[("a", 5)]), &ids(&["a"]), policy());
    assert_eq!(d.submit(1), None);
    assert_eq!(d.record(1, Ok(receipt("a", 5))), Settlement::Ignored);
    assert_eq!(d.record(0, Ok(receipt("a", 5))), Settlement::Ignored);
    assert_eq!(d.slots[0].order.status, OrderStatus::Pending);
    assert_eq!(d.slots[0].outcome, None);
}
