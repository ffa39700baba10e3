use flash_arbitrage::shared::{
    to_unsigned, DexTradeState, FlashLoanState, Identity, LendingStatus, LoanStatus, PoolLendingState,
    TradeStatus, TransactionRecord,
};

fn party(n: u128) -> Identity {
    Identity { hi: 2, lo: n }
}

fn loan(status: LoanStatus) -> FlashLoanState {
    FlashLoanState {
        loan_id: 1,
        borrower: party(1),
        amount: 50_000,
        fee: 150,
        status,
        arbitrage_bot: Some(party(2)),
        profit: 40_399,
        created_at: 9,
        bump: 1,
    }
}

#[test]
fn flash_loan_state_follows_its_status() {
    assert!(loan(LoanStatus::Active).can_start_arbitrage());
    assert!(!loan(LoanStatus::Arbitraging).can_start_arbitrage());
    assert!(loan(LoanStatus::Active).can_repay());
    assert!(loan(LoanStatus::Completed).can_repay());
    assert!(!loan(LoanStatus::Arbitraging).can_repay());
    assert!(!loan(LoanStatus::Repaid).can_repay());
    assert!(!loan(LoanStatus::Failed).can_repay());
    assert!(loan(LoanStatus::Completed).is_completed());
    assert!(!loan(LoanStatus::Active).is_completed());
}

#[test]
fn flash_loan_state_adds_principal_and_fee() {
    assert_eq!(loan(LoanStatus::Active).total_repay_amount(), 50_150);
    assert_eq!(loan(LoanStatus::Active).net_profit(), 40_399);
    let mut largest = loan(LoanStatus::Active);
    largest.amount = u64::MAX - 150;
    assert_eq!(largest.total_repay_amount(), u64::MAX);
}

fn trade(status: TradeStatus, expected_min_out: u64, actual_amount_out: u64) -> DexTradeState {
    DexTradeState {
        trade_id: 1,
        trader: party(1),
        amount_in: 10_000,
        amount_out: actual_amount_out,
        token_in_mint: party(3),
        token_out_mint: party(4),
        status,
        expected_min_out,
        actual_amount_out,
        created_at: 9,
        bump: 1,
    }
}

#[test]
fn trade_state_follows_its_status() {
    assert!(trade(TradeStatus::Pending, 0, 0).can_execute());
    assert!(!trade(TradeStatus::Executing, 0, 0).can_execute());
    assert!(trade(TradeStatus::Completed, 0, 0).is_completed());
    assert!(!trade(TradeStatus::Failed, 0, 0).is_completed());
    assert!(trade(TradeStatus::Failed, 0, 0).is_failed());
    assert!(!trade(TradeStatus::Pending, 0, 0).is_failed());
}

#[test]
fn slippage_is_the_shortfall_and_never_negative() {
    assert_eq!(trade(TradeStatus::Completed, 9_900, 9_871).calculate_slippage(), 29);
    assert_eq!(trade(TradeStatus::Completed, 9_871, 9_871).calculate_slippage(), 0);
    assert_eq!(trade(TradeStatus::Completed, 9_000, 9_871).calculate_slippage(), 0);
    assert_eq!(trade(TradeStatus::Completed, u64::MAX, 0).calculate_slippage(), u64::MAX);
}

fn lending(status: LendingStatus, amount: u64, rate: u64, borrowed_at: i64, repaid_at: Option<i64>) -> PoolLendingState {
    PoolLendingState {
        lending_id: 1,
        borrower: party(1),
        amount,
        pool_id: party(5),
        status,
        borrowed_at,
        repaid_at,
        interest_rate: rate,
        bump: 1,
    }
}

#[test]
fn lending_state_follows_its_status() {
    assert!(lending(LendingStatus::Requested, 1, 1, 0, None).can_lend());
    assert!(!lending(LendingStatus::Approved, 1, 1, 0, None).can_lend());
    assert!(lending(LendingStatus::Approved, 1, 1, 0, None).can_repay());
    assert!(lending(LendingStatus::Active, 1, 1, 0, None).can_repay());
    assert!(!lending(LendingStatus::Requested, 1, 1, 0, None).can_repay());
    assert!(!lending(LendingStatus::Defaulted, 1, 1, 0, None).can_repay());
    assert!(lending(LendingStatus::Repaid, 1, 1, 0, None).is_repaid());
    assert!(!lending(LendingStatus::Active, 1, 1, 0, None).is_repaid());
}

#[test]
fn borrow_duration_runs_to_repayment_or_to_now() {
    assert_eq!(lending(LendingStatus::Active, 1, 1, 1_000, None).get_borrow_duration(8_200), 7_200);
    assert_eq!(lending(LendingStatus::Repaid, 1, 1, 1_000, Some(4_600)).get_borrow_duration(8_200), 3_600);
    assert_eq!(lending(LendingStatus::Active, 1, 1, -50, None).get_borrow_duration(50), 100);
}

#[test]
fn a_borrow_that_ends_before_it_starts_wraps() {
    assert_eq!(lending(LendingStatus::Active, 1, 1, 10, None).get_borrow_duration(5), u64::MAX - 4);
    assert_eq!(to_unsigned(-1), u64::MAX);
    assert_eq!(to_unsigned(i64::MIN), 1u64 << 63);
    assert_eq!(to_unsigned(0), 0);
    assert_eq!(to_unsigned(i64::MAX), i64::MAX as u64);
}

#[test]
fn interest_is_simple_over_whole_hours() {
    // 1_000_000 at 5% a year over two hours.
    assert_eq!(lending(LendingStatus::Active, 1_000_000, 500, 0, None).calculate_interest(7_200), 11);
    // A whole year at 10%.
    assert_eq!(
        lending(LendingStatus::Active, 1_000_000_000, 1_000, 0, None).calculate_interest(8_760 * 3_600),
        100_000_000
    );
    // Less than an hour earns nothing.
    assert_eq!(lending(LendingStatus::Active, 1_000_000, 500, 0, None).calculate_interest(3_599), 0);
}

#[test]
fn interest_is_zero_where_the_product_overflows() {
    assert_eq!(lending(LendingStatus::Active, u64::MAX, 2, 0, None).calculate_interest(7_200), 0);
    assert_eq!(lending(LendingStatus::Active, u64::MAX / 2, 2, 0, None).calculate_interest(7_200), 0);
    assert_eq!(
        lending(LendingStatus::Active, u64::MAX / 2, 2, 0, None).calculate_interest(3_600),
        (u64::MAX - 1) / 10_000 / 8_760
    );
}

fn record(loan_amount: u64, fee: u64, profit: u64, net_profit: u64) -> TransactionRecord {
    TransactionRecord {
        transaction_id: 1,
        user: party(1),
        loan_amount,
        fee,
        profit,
        net_profit,
        timestamp: 1,
        bump: 1,
    }
}

#[test]
fn roi_is_net_profit_over_loan_in_basis_points() {
    assert_eq!(record(50_000, 30, 100, 70).calculate_roi_bps(), 14);
    assert_eq!(record(50_000, 150, 40_399, 40_249).calculate_roi_bps(), 8_049);
    assert_eq!(record(0, 0, 100, 100).calculate_roi_bps(), 0);
    assert_eq!(record(50_000, 0, 0, 0).calculate_roi_bps(), 0);
    // No intermediate overflow.
    assert_eq!(record(u64::MAX, 0, u64::MAX, u64::MAX).calculate_roi_bps(), 10_000);
}

#[test]
fn checked_roi_says_when_the_return_is_no_64_bit_number() {
    assert_eq!(record(50_000, 30, 100, 70).checked_roi_bps(), Some(14));
    assert_eq!(record(0, 0, 100, 100).checked_roi_bps(), Some(0));
    assert_eq!(record(1, 0, u64::MAX, u64::MAX).checked_roi_bps(), None);
    assert_eq!(record(10_000, 0, u64::MAX, u64::MAX).checked_roi_bps(), Some(u64::MAX));
    assert_eq!(record(9_999, 0, u64::MAX, u64::MAX).checked_roi_bps(), None);
}

#[test]
fn annualized_return_counts_whole_multiples_of_the_loan() {
    assert_eq!(record(100, 0, 250, 250).calculate_annualized_return(5), 2 * 525_600);
    assert_eq!(record(100, 0, 99, 99).calculate_annualized_return(5), 0);
    assert_eq!(record(100, 0, 250, 250).calculate_annualized_return(0), 0);
    assert_eq!(record(0, 0, 250, 250).calculate_annualized_return(5), 0);
}

#[test]
fn a_record_is_profitable_when_something_is_left() {
    assert!(record(50_000, 30, 100, 70).is_profitable());
    assert!(!record(50_000, 30, 10, 0).is_profitable());
}
