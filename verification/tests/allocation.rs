use restaking_mechanism::amount::Amount;
use restaking_mechanism::error::{AllocationFault, RestakingError};
use restaking_mechanism::protocol::{
    ProtocolId, ProtocolSnapshot, ProtocolStats, ScoringWeights, StatsFetch,
};
use restaking_mechanism::rounding::apportion;
use restaking_mechanism::strategy::{collect_snapshot, score, shares_of, StakingStrategy};

fn entry(name: &str, apy: u32, risk_score: u32) -> ProtocolSnapshot {
    ProtocolSnapshot {
        id: ProtocolId::new(name),
        stats: ProtocolStats { apy, tvl: Amount::from_u64(1_000_000), risk_score },
    }
}

fn strategy() -> StakingStrategy {
    StakingStrategy::new("key".to_string())
}

fn amounts_of(plan: &restaking_mechanism::strategy::AllocationPlan) -> Vec<u128> {
    plan.allocations.iter().map(|a| a.amount.to_u128().unwrap()).collect()
}

#[test]
fn two_protocols_split_by_score() {
    // APY 5% and 8%, risk 0.2 and 0.5, in hundredths; weights 0.7 and 0.3 in tenths.
    let snapshot = vec![entry("lido", 500, 20), entry("eigenlayer", 800, 50)];
    let plan = strategy().calculate_allocation(Amount::from_u64(1000), &snapshot).unwrap();
    assert_eq!(plan.allocations[0].share, 3440);
    assert_eq!(plan.allocations[1].share, 5450);
    assert_eq!(plan.share_total, 8890);
    assert_eq!(amounts_of(&plan), vec![387, 613]);
    let first = plan.allocations[0].share as f64 / plan.share_total as f64;
    let second = plan.allocations[1].share as f64 / plan.share_total as f64;
    assert!((first - 0.387).abs() < 0.0005);
    assert!((second - 0.613).abs() < 0.0005);
    assert!((first + second - 1.0).abs() < 1e-12);
    assert_eq!(plan.allocations[0].protocol, ProtocolId::new("lido"));
    assert_eq!(plan.allocations[1].protocol, ProtocolId::new("eigenlayer"));
}

#[test]
fn negative_raw_score_gets_percentage_zero() {
    // 100 * 7 - 400 * 3 is negative.
    let snapshot = vec![entry("risky", 100, 400), entry("lido", 500, 20)];
    let plan = strategy().calculate_allocation(Amount::from_u64(1000), &snapshot).unwrap();
    assert_eq!(plan.allocations[0].share, 0);
    assert_eq!(plan.percentage(&ProtocolId::new("risky")), Some((0, 3440)));
    assert_eq!(amounts_of(&plan), vec![0, 1000]);
}

#[test]
fn all_scores_zero_falls_back_to_equal_split() {
    let snapshot = vec![entry("a", 0, 10), entry("b", 1, 900), entry("c", 0, 0)];
    let plan = strategy().calculate_allocation(Amount::from_u64(1000), &snapshot).unwrap();
    assert_eq!(plan.share_total, 3);
    assert_eq!(plan.allocations.iter().map(|a| a.share).collect::<Vec<_>>(), vec![1, 1, 1]);
    assert_eq!(amounts_of(&plan), vec![334, 333, 333]);
}

#[test]
fn equal_split_hands_remainder_to_the_first() {
    let snapshot = vec![entry("a", 0, 0), entry("b", 0, 0), entry("c", 0, 0), entry("d", 0, 0)];
    let plan = strategy().calculate_allocation(Amount::from_u64(10), &snapshot).unwrap();
    assert_eq!(amounts_of(&plan), vec![3, 3, 2, 2]);
}

#[test]
fn amounts_add_up_to_the_total() {
    let snapshot = vec![entry("a", 333, 1), entry("b", 334, 2), entry("c", 335, 3), entry("d", 1, 0)];
    for total in [1u64, 2, 3, 7, 100, 999, 1_000_003] {
        let plan = strategy().calculate_allocation(Amount::from_u64(total), &snapshot).unwrap();
        let sum: u128 = amounts_of(&plan).iter().sum();
        assert_eq!(sum, total as u128);
        let shares: u128 = plan.allocations.iter().map(|a| a.share as u128).sum();
        assert_eq!(shares, plan.share_total);
    }
}

#[test]
fn largest_truncated_part_is_served_first() {
    // Quotas of 10 by shares 1, 1, 4 out of 6: 1.67, 1.67, 6.67; two units are left
    // and the tie goes to the earlier positions.
    let amounts = apportion(Amount::from_u64(10), &vec![1, 1, 4]).unwrap();
    let values: Vec<u128> = amounts.iter().map(|a| a.to_u128().unwrap()).collect();
    assert_eq!(values, vec![2, 2, 6]);
    // Quotas of 7 by shares 3, 1, 1 out of 5: 4.2, 1.4, 1.4; one unit is left.
    let amounts = apportion(Amount::from_u64(7), &vec![3, 1, 1]).unwrap();
    let values: Vec<u128> = amounts.iter().map(|a| a.to_u128().unwrap()).collect();
    assert_eq!(values, vec![4, 2, 1]);
}

#[test]
fn apportion_refuses_all_zero_shares() {
    assert_eq!(apportion(Amount::from_u64(10), &vec![0, 0]), None);
    assert_eq!(apportion(Amount::from_u64(10), &vec![]), None);
}

#[test]
fn apportion_handles_amounts_beyond_128_bits() {
    let total = Amount::from_words(5, 0, 0, 1);
    let amounts = apportion(total, &vec![1, 1]).unwrap();
    // 2^192 + 5 halves into 2^191 + 2 and a remainder of one for the first.
    assert_eq!(amounts[0], Amount::from_words(3, 0, 1 << 63, 0));
    assert_eq!(amounts[1], Amount::from_words(2, 0, 1 << 63, 0));
    assert_eq!(amounts[0].checked_add(amounts[1]), Some(total));
}

#[test]
fn largest_total_is_split_without_overflow() {
    let total = Amount::from_words(u64::MAX, u64::MAX, u64::MAX, u64::MAX);
    let snapshot = vec![entry("a", u32::MAX, 0), entry("b", u32::MAX, 0), entry("c", 1, 0)];
    let custom = strategy().with_weights(ScoringWeights { apy_weight: u32::MAX, risk_weight: 0 });
    let plan = custom.calculate_allocation(total, &snapshot).unwrap();
    let sum = plan.allocations[0]
        .amount
        .checked_add(plan.allocations[1].amount)
        .unwrap()
        .checked_add(plan.allocations[2].amount);
    assert_eq!(sum, Some(total));
}

#[test]
fn empty_snapshot_is_rejected() {
    let r = strategy().calculate_allocation(Amount::from_u64(1000), &vec![]);
    assert_eq!(r, Err(RestakingError::AllocationError(AllocationFault::NoProtocols)));
}

#[test]
fn zero_total_is_rejected() {
    let snapshot = vec![entry("lido", 500, 20)];
    let r = strategy().calculate_allocation(Amount::zero(), &snapshot);
    assert_eq!(r, Err(RestakingError::AllocationError(AllocationFault::ZeroTotalAmount)));
}

#[test]
fn duplicate_protocol_is_rejected() {
    let snapshot = vec![entry("lido", 500, 20), entry("p2p", 1, 1), entry("lido", 800, 50)];
    let r = strategy().calculate_allocation(Amount::from_u64(5), &snapshot);
    assert_eq!(r, Err(RestakingError::AllocationError(AllocationFault::DuplicateProtocol)));
}

#[test]
fn single_protocol_receives_everything() {
    let snapshot = vec![entry("lido", 500, 20)];
    let plan = strategy().calculate_allocation(Amount::from_u64(12345), &snapshot).unwrap();
    assert_eq!(amounts_of(&plan), vec![12345]);
    assert_eq!(plan.recommended_amount(&ProtocolId::new("lido")), Some(Amount::from_u64(12345)));
    assert_eq!(plan.recommended_amount(&ProtocolId::new("other")), None);
    assert_eq!(plan.position(&ProtocolId::new("lido")), Some(0));
}

#[test]
fn score_is_clamped_at_zero() {
    let weights = ScoringWeights::standard();
    let stats = |apy, risk_score| ProtocolStats { apy, tvl: Amount::zero(), risk_score };
    assert_eq!(score(&stats(500, 20), &weights), 3440);
    assert_eq!(score(&stats(3, 7), &weights), 0);
    assert_eq!(score(&stats(0, 1), &weights), 0);
    assert_eq!(score(&stats(u32::MAX, 0), &ScoringWeights { apy_weight: u32::MAX, risk_weight: 0 }),
        (u32::MAX as u64) * (u32::MAX as u64));
}

#[test]
fn shares_fall_back_to_one_each() {
    let weights = ScoringWeights::standard();
    assert_eq!(shares_of(&vec![entry("a", 0, 5), entry("b", 0, 0)], &weights), vec![1, 1]);
    assert_eq!(shares_of(&vec![entry("a", 1, 5), entry("b", 1, 0)], &weights), vec![0, 7]);
}

#[test]
fn failed_fetch_aborts_the_snapshot() {
    let ok = |name: &str| StatsFetch {
        id: ProtocolId::new(name),
        outcome: Ok(ProtocolStats { apy: 1, tvl: Amount::zero(), risk_score: 2 }),
    };
    let failed = |name: &str, e| StatsFetch { id: ProtocolId::new(name), outcome: Err(e) };
    let fetched = vec![
        ok("a"),
        failed("b", RestakingError::ParseError),
        failed("c", RestakingError::NetworkError),
    ];
    assert_eq!(collect_snapshot(&fetched), Err(RestakingError::ParseError));
    let snapshot = collect_snapshot(&vec![ok("a"), ok("b")]).unwrap();
    assert_eq!(snapshot.len(), 2);
    assert_eq!(snapshot[1].id, ProtocolId::new("b"));
    assert_eq!(snapshot[1].stats.risk_score, 2);
    assert_eq!(collect_snapshot(&vec![]), Ok(vec![]));
}
