use solana_low_latency::compute_budget::ComputeBudget;

#[test]
fn with_margin_supports_other_percentages() {
    let limit = ComputeBudget::with_margin(100_000, 20, 1_400_000);

    assert_eq!(limit, 120_000);
}

#[test]
fn with_margin_adds_normal_margin() {
    let limit = ComputeBudget::with_margin(100_000, 10, 1_400_000);

    assert_eq!(limit, 110_000);
}

#[test]
fn with_margin_zero_consumed_stays_zero() {
    let limit = ComputeBudget::with_margin(0, 10, 1_400_000);

    assert_eq!(limit, 0);
}

#[test]
fn with_margin_does_not_exceed_max_limit() {
    let limit = ComputeBudget::with_margin(1_390_000, 10, 1_400_000);

    assert_eq!(limit, 1_400_000);
}

#[test]
fn with_margin_handles_large_values_without_overflow() {
    let limit = ComputeBudget::with_margin(u32::MAX, 100, 1_400_000);

    assert_eq!(limit, 1_400_000);
}

#[test]
fn multiplication_can_overflow_before_max() {
    let limit = ComputeBudget::with_margin(3_000_000_000, 100, u32::MAX);

    assert_eq!(limit, u32::MAX);
}

#[test]
fn with_margin_rounds_up() {
    let limit = ComputeBudget::with_margin(1, 10, 1_400_000);

    assert_eq!(limit, 2);
}

#[test]
fn zero_price_means_zero_priority_fee() {
    let fee = ComputeBudget::priority_fee_lamports(100_000, 0);
    assert_eq!(fee, 0);

    let fee_large_limit = ComputeBudget::priority_fee_lamports(1_400_000, 0);
    assert_eq!(fee_large_limit, 0);
}

#[test]
fn computes_exact_priority_fee() {
    let fee = ComputeBudget::priority_fee_lamports(200_000, 5_000_000);
    assert_eq!(fee, 1_000_000);
}

#[test]
fn rounds_priority_fee_up() {
    let fee = ComputeBudget::priority_fee_lamports(1, 1);
    assert_eq!(fee, 1);

    let fee_exact_plus_one = ComputeBudget::priority_fee_lamports(1_000_001, 1);
    assert_eq!(fee_exact_plus_one, 2);
}

#[test]
fn larger_requested_limit_costs_more() {
    let price = 2_500;
    let low_limit_fee = ComputeBudget::priority_fee_lamports(200_000, price);
    let high_limit_fee = ComputeBudget::priority_fee_lamports(400_000, price);

    assert!(
        high_limit_fee > low_limit_fee,
        "a larger limit must cost more: small {}, large {}",
        low_limit_fee,
        high_limit_fee
    );
}

#[test]
fn test_to_instructions() {
    let compute_unit_limit = 400_000;
    let compute_unit_price_micro_lamports = 10_000;

    let budget = ComputeBudget::new(compute_unit_limit, compute_unit_price_micro_lamports);

    let actual = budget.to_instructions();

    let expected_limit_instruction =
        solana_compute_budget_interface::ComputeBudgetInstruction::set_compute_unit_limit(compute_unit_limit);
    let expected_price_instruction =
        solana_compute_budget_interface::ComputeBudgetInstruction::set_compute_unit_price(
            compute_unit_price_micro_lamports,
        );

    assert_eq!(
        actual[0], expected_limit_instruction,
        "the first instruction sets the compute-unit limit"
    );
    assert_eq!(
        actual[1], expected_price_instruction,
        "the second instruction sets the compute-unit price"
    );
}

#[test]
fn to_instructions_encode_limit_and_price_data() {
    let budget = ComputeBudget::new(257, u64::MAX);
    let actual = budget.to_instructions();
    assert_eq!(actual[0].data, vec![2, 1, 1, 0, 0]);
    assert_eq!(actual[1].data, vec![3, 255, 255, 255, 255, 255, 255, 255, 255]);
    assert!(actual[0].accounts.is_empty());
    assert_eq!(actual[0].program_id, solana_compute_budget_interface::id());
    assert_eq!(actual[1].program_id, solana_compute_budget_interface::id());
}

#[test]
fn new_keeps_fields() {
    let a = ComputeBudget::new(1, 2);
    let b = ComputeBudget::new(1, 2);
    let c = ComputeBudget::new(1, 3);
    assert_eq!(a, b);
    assert_ne!(a, c);
}

#[test]
fn priority_fee_exact_values() {
    assert_eq!(ComputeBudget::priority_fee_lamports(0, u64::MAX), 0);
    assert_eq!(ComputeBudget::priority_fee_lamports(1_000_000, 1), 1);
    assert_eq!(ComputeBudget::priority_fee_lamports(999_999, 1), 1);
    assert_eq!(ComputeBudget::priority_fee_lamports(2_000_001, 1), 3);
    let max = ComputeBudget::priority_fee_lamports(u32::MAX, u64::MAX);
    let product = (u32::MAX as u128) * (u64::MAX as u128);
    assert_eq!(max, (product + 999_999) / 1_000_000);
}

#[test]
fn priority_fee_covers_cost_and_no_more() {
    for (limit, price) in [(1u32, 1u64), (3, 333_333), (200_000, 2_500), (1_400_000, 7), (u32::MAX, 12_345)] {
        let fee = ComputeBudget::priority_fee_lamports(limit, price);
        let cost = limit as u128 * price as u128;
        assert!(fee * 1_000_000 >= cost);
        assert!(fee == 0 || (fee - 1) * 1_000_000 < cost);
    }
}

#[test]
fn priority_fee_is_monotone_but_may_tie() {
    let a = ComputeBudget::priority_fee_lamports(1, 1);
    let b = ComputeBudget::priority_fee_lamports(2, 1);
    assert_eq!(a, b);
    let c = ComputeBudget::priority_fee_lamports(2, 1_000_000);
    assert!(c > b);
}

#[test]
fn with_margin_exact_values() {
    assert_eq!(ComputeBudget::with_margin(100, 0, 1_000), 100);
    assert_eq!(ComputeBudget::with_margin(101, 1, 1_000), 103);
    assert_eq!(ComputeBudget::with_margin(100, 1, 1_000), 101);
    assert_eq!(ComputeBudget::with_margin(2_000, 0, 1_000), 1_000);
    assert_eq!(ComputeBudget::with_margin(u32::MAX, u32::MAX, u32::MAX), u32::MAX);
    assert_eq!(ComputeBudget::with_margin(0, u32::MAX, 0), 0);
}

#[test]
fn with_margin_is_monotone_and_bounded() {
    let mut previous = 0;
    for consumed in [0u32, 1, 9, 10, 11, 1_000, 1_272_727, 1_272_728, 2_000_000] {
        let limit = ComputeBudget::with_margin(consumed, 10, 1_400_000);
        assert!(limit <= 1_400_000);
        assert!(limit >= previous);
        if consumed <= 1_400_000 {
            assert!(limit >= consumed);
        }
        previous = limit;
    }
}
