use flash_arbitrage::arbitrage_bot::ArbitrageBotState;
use flash_arbitrage::custody::{Holding, Wallet};
use flash_arbitrage::flash_loan::{
    atomic_flash_loan_with_arbitrage, get_transaction_record, AtomicFlashLoanCompleted,
    AtomicFlashLoanWithArbitrage, FlashLoanError, FlashLoanHandler, GetTransactionRecord, TransactionReport,
};
use flash_arbitrage::mock_dex::MockDexPool;
use flash_arbitrage::shared::{ErrorKind, Identity, MockPoolState, PoolStatus, TransactionRecord};

fn name(n: u128) -> Identity {
    Identity { hi: 4, lo: n }
}

const X: u128 = 100;
const Y: u128 = 200;
const BORROWER: u128 = 1;
const NOW: i64 = 1_700_000_000;

fn wallet_of(mint: u128, owner: u128, amount: u64) -> Holding {
    Holding { mint: name(mint), owner: name(owner), amount }
}

fn empty_record() -> TransactionRecord {
    TransactionRecord {
        transaction_id: 0,
        user: name(0),
        loan_amount: 0,
        fee: 0,
        profit: 0,
        net_profit: 0,
        timestamp: 0,
        bump: 0,
    }
}

// A loan pool of 1_000_000 at 30 basis points, pool A at 1_000_000 to
// 1_000_000 and pool B paying about two X for one Y.
fn transaction(borrower_funds: u64, bx: u64, by: u64) -> AtomicFlashLoanWithArbitrage {
    AtomicFlashLoanWithArbitrage {
        mock_pool_state: MockPoolState {
            pool_id: 11,
            balance: 1_000_000,
            fee_bps: 30,
            authority: name(9),
            total_borrowed: 0,
            total_repaid: 0,
            active_loans: 0,
            created_at: 5,
            last_updated: 5,
            status: PoolStatus::Active,
            bump: 254,
        },
        pool_lamports: 1_000_000,
        transaction_record: empty_record(),
        borrower: Wallet { key: name(BORROWER), lamports: borrower_funds },
        arbitrage_bot: ArbitrageBotState { owner: name(2), is_executing: false, total_trades: 0, total_profit: 0 },
        dex_pool_a: MockDexPool { x_balance: 1_000_000, y_balance: 1_000_000, name: String::from("pool-a") },
        dex_a_token_x_vault: wallet_of(X, 10, 1_000_000),
        dex_a_token_y_vault: wallet_of(Y, 10, 1_000_000),
        dex_pool_b: MockDexPool { x_balance: bx, y_balance: by, name: String::from("pool-b") },
        dex_b_token_x_vault: wallet_of(X, 11, bx),
        dex_b_token_y_vault: wallet_of(Y, 11, by),
        token_in_account: wallet_of(X, 2, 50_000),
        user_token_x: wallet_of(X, 2, 0),
        user_token_y: wallet_of(Y, 2, 0),
        bump: 253,
    }
}

#[test]
fn a_whole_transaction_lends_arbitrages_repays_and_records() {
    let mut ctx = transaction(1_000, 2_000_000, 1_000_000);
    let event = atomic_flash_loan_with_arbitrage(&mut ctx, 50_000, 100, String::from("first"), NOW);
    assert_eq!(
        event,
        Ok(AtomicFlashLoanCompleted {
            user: name(BORROWER),
            transaction_id: 1_700_000_000,
            loan_amount: 50_000,
            fee: 150,
            net_profit: 40_249,
            timestamp: NOW,
        })
    );
    // The pool has its principal back and has earned exactly the fee.
    assert_eq!(ctx.mock_pool_state.balance, 1_000_150);
    assert_eq!(ctx.mock_pool_state.total_borrowed, 50_000);
    assert_eq!(ctx.mock_pool_state.total_repaid, 50_150);
    assert_eq!(ctx.mock_pool_state.status, PoolStatus::Active);
    assert_eq!(ctx.pool_lamports, 1_000_150);
    assert_eq!(ctx.borrower, Wallet { key: name(BORROWER), lamports: 850 });
    assert_eq!(
        ctx.transaction_record,
        TransactionRecord {
            transaction_id: 1_700_000_000,
            user: name(BORROWER),
            loan_amount: 50_000,
            fee: 150,
            profit: 40_399,
            net_profit: 40_249,
            timestamp: NOW,
            bump: 253,
        }
    );
    assert_eq!(
        ctx.arbitrage_bot,
        ArbitrageBotState { owner: name(2), is_executing: false, total_trades: 1, total_profit: 40_399 }
    );
    assert_eq!(ctx.dex_pool_a.x_balance, 1_050_000);
    assert_eq!(ctx.dex_pool_a.y_balance, 952_518);
    assert_eq!(ctx.dex_pool_b.x_balance, 1_909_601);
    assert_eq!(ctx.dex_pool_b.y_balance, 1_047_482);
    assert_eq!(ctx.user_token_x.amount, 90_399);
}

// The borrower holds 149 on top of the loan and owes 150 on top of it: the
// repayment fails, and neither the loan nor the arbitrage has left a trace.
#[test]
fn a_failed_repayment_leaves_no_trace_of_loan_or_arbitrage() {
    let mut ctx = transaction(149, 2_000_000, 1_000_000);
    let before = ctx.clone();
    assert_eq!(
        atomic_flash_loan_with_arbitrage(&mut ctx, 50_000, 100, String::from("short"), NOW),
        Err(FlashLoanError::InsufficientFundsForRepayment)
    );
    assert_eq!(ctx, before);

    let mut enough = transaction(150, 2_000_000, 1_000_000);
    assert!(atomic_flash_loan_with_arbitrage(&mut enough, 50_000, 100, String::from("enough"), NOW).is_ok());
    assert_eq!(enough.borrower.lamports, 0);
}

#[test]
fn a_failed_arbitrage_leaves_no_trace_of_the_loan() {
    let mut ctx = transaction(1_000, 1_000_000, 1_050_000);
    let before = ctx.clone();
    assert_eq!(
        atomic_flash_loan_with_arbitrage(&mut ctx, 50_000, 100, String::new(), NOW),
        Err(FlashLoanError::ArbitrageFailed(flash_arbitrage::arbitrage_bot::ErrorCode::InsufficientProfit))
    );
    assert_eq!(ctx, before);
    assert_eq!(ctx.arbitrage_bot.total_trades, 0);
}

#[test]
fn a_session_that_is_executing_fails_the_transaction() {
    let mut ctx = transaction(1_000, 2_000_000, 1_000_000);
    ctx.arbitrage_bot.is_executing = true;
    let before = ctx.clone();
    assert_eq!(
        atomic_flash_loan_with_arbitrage(&mut ctx, 50_000, 100, String::new(), NOW),
        Err(FlashLoanError::ArbitrageFailed(flash_arbitrage::arbitrage_bot::ErrorCode::ReentrancyDetected))
    );
    assert_eq!(ctx, before);
}

#[test]
fn a_pool_that_is_not_active_does_not_lend() {
    for status in [PoolStatus::Initializing, PoolStatus::Paused, PoolStatus::Emergency, PoolStatus::Deprecated] {
        let mut ctx = transaction(1_000, 2_000_000, 1_000_000);
        ctx.mock_pool_state.status = status;
        let before = ctx.clone();
        assert_eq!(
            atomic_flash_loan_with_arbitrage(&mut ctx, 50_000, 100, String::new(), NOW),
            Err(FlashLoanError::PoolNotActive)
        );
        assert_eq!(ctx, before);
    }
}

#[test]
fn a_pool_does_not_lend_more_than_it_has() {
    let mut ctx = transaction(1_000, 2_000_000, 1_000_000);
    let before = ctx.clone();
    assert_eq!(
        atomic_flash_loan_with_arbitrage(&mut ctx, 1_000_001, 100, String::new(), NOW),
        Err(FlashLoanError::InsufficientPoolBalance)
    );
    assert_eq!(ctx, before);
}

#[test]
fn a_fee_that_cannot_be_computed_is_an_overflow() {
    let mut ctx = transaction(1_000, 2_000_000, 1_000_000);
    ctx.mock_pool_state.fee_bps = u16::MAX;
    ctx.mock_pool_state.balance = u64::MAX;
    assert_eq!(FlashLoanHandler::validate_and_prepare(&ctx, u64::MAX), Err(FlashLoanError::Overflow));
}

#[test]
fn a_loan_of_nothing_is_rejected_by_the_orchestrator() {
    let mut ctx = transaction(1_000, 2_000_000, 1_000_000);
    let before = ctx.clone();
    assert_eq!(
        atomic_flash_loan_with_arbitrage(&mut ctx, 0, 100, String::new(), NOW),
        Err(FlashLoanError::ArbitrageFailed(flash_arbitrage::arbitrage_bot::ErrorCode::InvalidLoanAmount))
    );
    assert_eq!(ctx, before);
}

#[test]
fn prepare_computes_the_fee_and_tests_the_pool() {
    let ctx = transaction(0, 2_000_000, 1_000_000);
    assert_eq!(FlashLoanHandler::validate_and_prepare(&ctx, 50_000), Ok(150));
    assert_eq!(FlashLoanHandler::validate_and_prepare(&ctx, 1_000_000), Ok(3_000));
    assert_eq!(
        FlashLoanHandler::validate_and_prepare(&ctx, 1_000_001),
        Err(FlashLoanError::InsufficientPoolBalance)
    );
    let mut stopped = transaction(0, 2_000_000, 1_000_000);
    stopped.mock_pool_state.status = PoolStatus::Emergency;
    // The status is tested before the balance.
    assert_eq!(FlashLoanHandler::validate_and_prepare(&stopped, 1_000_001), Err(FlashLoanError::PoolNotActive));
}

#[test]
fn issue_lowers_the_balance_by_exactly_the_amount() {
    let mut ctx = transaction(7, 2_000_000, 1_000_000);
    assert_eq!(FlashLoanHandler::execute_loan(&mut ctx, 50_000), Ok(()));
    assert_eq!(ctx.mock_pool_state.balance, 950_000);
    assert_eq!(ctx.mock_pool_state.total_borrowed, 50_000);
    assert_eq!(ctx.pool_lamports, 950_000);
    assert_eq!(ctx.borrower.lamports, 50_007);
    let mut expected = transaction(7, 2_000_000, 1_000_000);
    expected.mock_pool_state.balance = 950_000;
    expected.mock_pool_state.total_borrowed = 50_000;
    expected.pool_lamports = 950_000;
    expected.borrower.lamports = 50_007;
    assert_eq!(ctx, expected);
}

#[test]
fn issue_rejections_change_nothing() {
    let mut stopped = transaction(7, 2_000_000, 1_000_000);
    stopped.mock_pool_state.status = PoolStatus::Paused;
    let mut counted_out = transaction(7, 2_000_000, 1_000_000);
    counted_out.mock_pool_state.total_borrowed = u64::MAX - 49_999;
    let mut custody_short = transaction(7, 2_000_000, 1_000_000);
    custody_short.pool_lamports = 49_999;
    let mut borrower_full = transaction(u64::MAX - 49_999, 2_000_000, 1_000_000);
    borrower_full.mock_pool_state.balance = 1_000_000;
    let cases: Vec<(AtomicFlashLoanWithArbitrage, u64, FlashLoanError)> = vec![
        (stopped, 50_000, FlashLoanError::PoolNotActive),
        (transaction(7, 2_000_000, 1_000_000), 1_000_001, FlashLoanError::InsufficientPoolBalance),
        (counted_out, 50_000, FlashLoanError::Overflow),
        (custody_short, 50_000, FlashLoanError::InsufficientPoolBalance),
        (borrower_full, 50_000, FlashLoanError::Overflow),
    ];
    for (mut ctx, amount, expected) in cases {
        let before = ctx.clone();
        assert_eq!(FlashLoanHandler::execute_loan(&mut ctx, amount), Err(expected));
        assert_eq!(ctx, before);
    }
}

#[test]
fn repayment_raises_the_balance_by_exactly_amount_and_fee() {
    let mut ctx = transaction(50_150, 2_000_000, 1_000_000);
    ctx.mock_pool_state.balance = 950_000;
    ctx.pool_lamports = 950_000;
    assert_eq!(FlashLoanHandler::process_repayment(&mut ctx, 50_000, 150), Ok(()));
    assert_eq!(ctx.mock_pool_state.balance, 1_000_150);
    assert_eq!(ctx.mock_pool_state.total_repaid, 50_150);
    assert_eq!(ctx.pool_lamports, 1_000_150);
    assert_eq!(ctx.borrower.lamports, 0);
}

#[test]
fn repayment_rejections_change_nothing() {
    let mut ledger_full = transaction(50_150, 2_000_000, 1_000_000);
    ledger_full.mock_pool_state.balance = u64::MAX - 50_149;
    let mut repaid_full = transaction(50_150, 2_000_000, 1_000_000);
    repaid_full.mock_pool_state.total_repaid = u64::MAX - 50_149;
    let mut custody_full = transaction(50_150, 2_000_000, 1_000_000);
    custody_full.pool_lamports = u64::MAX - 50_149;
    let cases: Vec<(AtomicFlashLoanWithArbitrage, u64, u64, FlashLoanError)> = vec![
        (transaction(50_150, 2_000_000, 1_000_000), u64::MAX, 1, FlashLoanError::Overflow),
        (transaction(50_149, 2_000_000, 1_000_000), 50_000, 150, FlashLoanError::InsufficientFundsForRepayment),
        (ledger_full, 50_000, 150, FlashLoanError::Overflow),
        (repaid_full, 50_000, 150, FlashLoanError::Overflow),
        (custody_full, 50_000, 150, FlashLoanError::Overflow),
    ];
    for (mut ctx, amount, fee, expected) in cases {
        let before = ctx.clone();
        assert_eq!(FlashLoanHandler::process_repayment(&mut ctx, amount, fee), Err(expected));
        assert_eq!(ctx, before);
    }
}

#[test]
fn the_orchestrator_keeps_its_count_when_called_as_a_step() {
    let mut ctx = transaction(1_000, 1_000_000, 1_050_000);
    let before = ctx.clone();
    assert_eq!(
        FlashLoanHandler::call_arbitrage_bot(&mut ctx, 50_000, 100, NOW),
        Err(FlashLoanError::ArbitrageFailed(flash_arbitrage::arbitrage_bot::ErrorCode::InsufficientProfit))
    );
    let mut expected = before.clone();
    expected.arbitrage_bot.total_trades = 1;
    assert_eq!(ctx, expected);

    let mut profitable = transaction(1_000, 2_000_000, 1_000_000);
    assert_eq!(FlashLoanHandler::execute_arbitrage(&mut profitable, 50_000, 100, NOW), Ok(40_399));
    assert_eq!(profitable.user_token_x.amount, 90_399);
    assert_eq!(profitable.mock_pool_state.balance, 1_000_000);
}

#[test]
fn net_profit_is_profit_less_fee_and_never_below_zero() {
    let cases: Vec<(u64, u64, u64)> = vec![
        (100, 30, 70),
        (30, 30, 0),
        (10, 30, 0),
        (0, 0, 0),
        (0, u64::MAX, 0),
        (u64::MAX, 0, u64::MAX),
        (u64::MAX, u64::MAX, 0),
        (40_399, 150, 40_249),
    ];
    for (profit, fee, net) in cases {
        let mut ctx = transaction(0, 2_000_000, 1_000_000);
        let event = FlashLoanHandler::record_transaction(&mut ctx, 50_000, fee, profit, -7);
        assert_eq!(ctx.transaction_record.net_profit, net);
        assert!(ctx.transaction_record.net_profit <= ctx.transaction_record.profit);
        assert_eq!(
            ctx.transaction_record,
            TransactionRecord {
                transaction_id: u64::MAX - 6,
                user: name(BORROWER),
                loan_amount: 50_000,
                fee,
                profit,
                net_profit: net,
                timestamp: -7,
                bump: 253,
            }
        );
        assert_eq!(
            event,
            AtomicFlashLoanCompleted {
                user: name(BORROWER),
                transaction_id: u64::MAX - 6,
                loan_amount: 50_000,
                fee,
                net_profit: net,
                timestamp: -7,
            }
        );
    }
}

#[test]
fn a_record_is_reported_to_its_user_only() {
    let ctx = GetTransactionRecord {
        transaction_record: TransactionRecord {
            transaction_id: 3,
            user: name(BORROWER),
            loan_amount: 50_000,
            fee: 150,
            profit: 40_399,
            net_profit: 40_249,
            timestamp: 3,
            bump: 1,
        },
    };
    assert_eq!(
        get_transaction_record(&ctx, name(BORROWER)),
        Ok(TransactionReport {
            transaction_id: 3,
            user: name(BORROWER),
            loan_amount: 50_000,
            fee: 150,
            profit: 40_399,
            net_profit: 40_249,
            roi_bps: 8_049,
            is_profitable: true,
        })
    );
    assert_eq!(get_transaction_record(&ctx, name(8)), Err(FlashLoanError::UnauthorizedAccess));
}

#[test]
fn a_return_beyond_64_bits_is_reported_as_an_overflow() {
    let ctx = GetTransactionRecord {
        transaction_record: TransactionRecord {
            transaction_id: 3,
            user: name(BORROWER),
            loan_amount: 1,
            fee: 0,
            profit: u64::MAX,
            net_profit: u64::MAX,
            timestamp: 3,
            bump: 1,
        },
    };
    assert_eq!(get_transaction_record(&ctx, name(BORROWER)), Err(FlashLoanError::Overflow));
    // The user is tested first.
    assert_eq!(get_transaction_record(&ctx, name(8)), Err(FlashLoanError::UnauthorizedAccess));
}

#[test]
fn coordinator_errors_fall_into_the_taxonomy() {
    assert_eq!(FlashLoanError::InsufficientFundsForRepayment.kind(), ErrorKind::InsufficientFunds);
    assert_eq!(FlashLoanError::InvalidAmount.kind(), ErrorKind::InvalidParameters);
    assert_eq!(FlashLoanError::InsufficientPoolBalance.kind(), ErrorKind::InsufficientFunds);
    assert_eq!(FlashLoanError::PoolNotActive.kind(), ErrorKind::PoolNotActive);
    assert_eq!(FlashLoanError::Overflow.kind(), ErrorKind::ArithmeticOverflow);
    assert_eq!(FlashLoanError::Underflow.kind(), ErrorKind::ArithmeticUnderflow);
    assert_eq!(FlashLoanError::InsufficientProfit.kind(), ErrorKind::InsufficientProfit);
    assert_eq!(FlashLoanError::UnauthorizedAccess.kind(), ErrorKind::Unauthorized);
    assert_eq!(
        FlashLoanError::ArbitrageFailed(flash_arbitrage::arbitrage_bot::ErrorCode::ReentrancyDetected).kind(),
        ErrorKind::ReentrancyDetected
    );
}
