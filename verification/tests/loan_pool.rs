use flash_arbitrage::custody::Wallet;
use flash_arbitrage::mock_pool::{
    check_permission, emergency_pause, get_pool_info, initialize, resume_pool, EmergencyPause, GetPoolInfo,
    Initialize, PoolError, PoolInfo, PoolInitialized, PoolStatusChanged, ResumePool,
};
use flash_arbitrage::shared::{ErrorKind, Identity, MockPoolState, PoolStatus};

fn who(n: u128) -> Identity {
    Identity { hi: 1, lo: n }
}

fn ledger(balance: u64, fee_bps: u16, total_borrowed: u64, status: PoolStatus) -> MockPoolState {
    MockPoolState {
        pool_id: 11,
        balance,
        fee_bps,
        authority: who(1),
        total_borrowed,
        total_repaid: 0,
        active_loans: 0,
        created_at: 5,
        last_updated: 5,
        status,
        bump: 254,
    }
}

fn blank_ledger() -> MockPoolState {
    MockPoolState {
        pool_id: 0,
        balance: 0,
        fee_bps: 0,
        authority: who(0),
        total_borrowed: 0,
        total_repaid: 0,
        active_loans: 0,
        created_at: 0,
        last_updated: 0,
        status: PoolStatus::Initializing,
        bump: 0,
    }
}

#[test]
fn fee_is_the_floor_of_amount_times_rate() {
    assert_eq!(ledger(0, 30, 0, PoolStatus::Active).calculate_fee(1_000_000), Ok(3_000));
    assert_eq!(ledger(0, 30, 0, PoolStatus::Active).calculate_fee(50_000), Ok(150));
    assert_eq!(ledger(0, 30, 0, PoolStatus::Active).calculate_fee(333), Ok(0));
    assert_eq!(ledger(0, 30, 0, PoolStatus::Active).calculate_fee(334), Ok(1));
    assert_eq!(ledger(0, 0, 0, PoolStatus::Active).calculate_fee(u64::MAX), Ok(0));
    assert_eq!(ledger(0, 1000, 0, PoolStatus::Active).calculate_fee(0), Ok(0));
}

#[test]
fn fee_does_not_overflow_at_any_amount() {
    assert_eq!(
        ledger(0, 1000, 0, PoolStatus::Active).calculate_fee(u64::MAX),
        Ok(1_844_674_407_370_955_161)
    );
    assert_eq!(ledger(0, 10_000, 0, PoolStatus::Active).calculate_fee(u64::MAX), Ok(u64::MAX));
    // Scaled back up, the fee brackets the product it was taken from.
    let amount: u64 = 18_446_744_073_709_551_557;
    let fee = ledger(0, 30, 0, PoolStatus::Active).calculate_fee(amount).unwrap();
    assert!((fee as u128) * 10_000 <= (amount as u128) * 30);
    assert!((amount as u128) * 30 < (fee as u128 + 1) * 10_000);
}

#[test]
fn fee_does_not_fall_when_the_amount_grows() {
    let pool = ledger(0, 30, 0, PoolStatus::Active);
    let amounts: Vec<u64> = vec![0, 1, 333, 334, 50_000, 1_000_000, u64::MAX - 1, u64::MAX];
    let mut last: u64 = 0;
    for amount in amounts {
        let fee = pool.calculate_fee(amount).unwrap();
        assert!(fee >= last);
        last = fee;
    }
}

#[test]
fn fee_that_is_no_64_bit_number_is_an_overflow() {
    assert_eq!(
        ledger(0, u16::MAX, 0, PoolStatus::Active).calculate_fee(u64::MAX),
        Err(PoolError::FeeCalculationOverflow)
    );
    assert_eq!(ledger(0, 10_001, 0, PoolStatus::Active).calculate_fee(u64::MAX), Err(PoolError::FeeCalculationOverflow));
}

#[test]
fn pool_lends_only_while_active() {
    assert!(ledger(1, 30, 0, PoolStatus::Active).can_lend());
    assert!(!ledger(1, 30, 0, PoolStatus::Initializing).can_lend());
    assert!(!ledger(1, 30, 0, PoolStatus::Paused).can_lend());
    assert!(!ledger(1, 30, 0, PoolStatus::Emergency).can_lend());
    assert!(!ledger(1, 30, 0, PoolStatus::Deprecated).can_lend());
    assert!(ledger(1, 30, 0, PoolStatus::Emergency).is_emergency());
    assert!(!ledger(1, 30, 0, PoolStatus::Active).is_emergency());
}

#[test]
fn pool_covers_amounts_up_to_its_balance() {
    let pool = ledger(500, 30, 0, PoolStatus::Active);
    assert!(pool.has_sufficient_funds(0));
    assert!(pool.has_sufficient_funds(500));
    assert!(!pool.has_sufficient_funds(501));
}

#[test]
fn utilization_is_the_lent_share_in_basis_points() {
    assert_eq!(ledger(750, 30, 250, PoolStatus::Active).get_utilization_rate(), 2_500);
    assert_eq!(ledger(0, 30, 0, PoolStatus::Active).get_utilization_rate(), 0);
    assert_eq!(ledger(0, 30, 9, PoolStatus::Active).get_utilization_rate(), 10_000);
    assert_eq!(ledger(9, 30, 0, PoolStatus::Active).get_utilization_rate(), 0);
    assert_eq!(ledger(u64::MAX, 30, u64::MAX, PoolStatus::Active).get_utilization_rate(), 5_000);
}

#[test]
fn update_timestamp_changes_only_the_time() {
    let mut pool = ledger(750, 30, 250, PoolStatus::Active);
    pool.update_timestamp(99);
    let mut expected = ledger(750, 30, 250, PoolStatus::Active);
    expected.last_updated = 99;
    assert_eq!(pool, expected);
}

fn seeding(authority_funds: u64, custody: u64) -> Initialize {
    Initialize {
        pool_state: blank_ledger(),
        pool_lamports: custody,
        authority: Wallet { key: who(1), lamports: authority_funds },
        bump: 254,
    }
}

#[test]
fn initialize_seeds_an_active_pool() {
    let mut ctx = seeding(1_500_000, 10);
    let event = initialize(&mut ctx, 1_000_000, 30, 1_700_000_000);
    assert_eq!(
        event,
        Ok(PoolInitialized {
            pool_id: 1_700_000_000,
            initial_balance: 1_000_000,
            fee_bps: 30,
            authority: who(1),
            timestamp: 1_700_000_000,
        })
    );
    assert_eq!(
        ctx.pool_state,
        MockPoolState {
            pool_id: 1_700_000_000,
            balance: 1_000_000,
            fee_bps: 30,
            authority: who(1),
            total_borrowed: 0,
            total_repaid: 0,
            active_loans: 0,
            created_at: 1_700_000_000,
            last_updated: 1_700_000_000,
            status: PoolStatus::Active,
            bump: 254,
        }
    );
    assert_eq!(ctx.pool_lamports, 1_000_010);
    assert_eq!(ctx.authority, Wallet { key: who(1), lamports: 500_000 });
}

#[test]
fn initialize_accepts_the_highest_rate_and_rejects_the_next() {
    let mut ctx = seeding(10, 0);
    assert!(initialize(&mut ctx, 10, 1000, 0).is_ok());
    let mut ctx = seeding(10, 0);
    let before = ctx;
    assert_eq!(initialize(&mut ctx, 10, 1001, 0), Err(PoolError::InvalidFeeRate));
    assert_eq!(ctx, before);
}

#[test]
fn initialize_rejections_change_nothing() {
    let cases: Vec<(Initialize, u64, u16, PoolError)> = vec![
        (seeding(10, 0), 0, 1001, PoolError::InvalidFeeRate),
        (seeding(10, 0), 0, 30, PoolError::InvalidInitialBalance),
        (seeding(9, 0), 10, 30, PoolError::InsufficientFunds),
        (seeding(10, u64::MAX - 9), 10, 30, PoolError::Overflow),
    ];
    for (mut ctx, balance, rate, expected) in cases {
        let before = ctx;
        assert_eq!(initialize(&mut ctx, balance, rate, 3), Err(expected));
        assert_eq!(ctx, before);
    }
}

#[test]
fn a_clock_before_the_epoch_gives_a_wrapped_pool_id() {
    let mut ctx = seeding(10, 0);
    let event = initialize(&mut ctx, 10, 30, -1).unwrap();
    assert_eq!(event.pool_id, u64::MAX);
    assert_eq!(ctx.pool_state.created_at, -1);
}

#[test]
fn get_pool_info_reports_ledger_utilization_and_lending() {
    let ctx = GetPoolInfo { pool_state: ledger(750, 30, 250, PoolStatus::Active) };
    assert_eq!(
        get_pool_info(&ctx),
        PoolInfo {
            pool_id: 11,
            balance: 750,
            fee_bps: 30,
            authority: who(1),
            total_borrowed: 250,
            total_repaid: 0,
            active_loans: 0,
            status: PoolStatus::Active,
            utilization_rate_bps: 2_500,
            can_lend: true,
        }
    );
    let paused = GetPoolInfo { pool_state: ledger(750, 30, 250, PoolStatus::Emergency) };
    assert!(!get_pool_info(&paused).can_lend);
}

#[test]
fn emergency_pause_is_for_the_authority_only() {
    let mut ctx = EmergencyPause { pool_state: ledger(750, 30, 250, PoolStatus::Active), authority: who(1) };
    assert_eq!(
        emergency_pause(&mut ctx, 60),
        Ok(PoolStatusChanged {
            pool_id: 11,
            old_status: PoolStatus::Active,
            new_status: PoolStatus::Emergency,
            authority: who(1),
            timestamp: 60,
        })
    );
    let mut expected = ledger(750, 30, 250, PoolStatus::Emergency);
    expected.last_updated = 60;
    assert_eq!(ctx.pool_state, expected);
    assert!(!ctx.pool_state.can_lend());

    let mut stranger = EmergencyPause { pool_state: ledger(750, 30, 250, PoolStatus::Active), authority: who(2) };
    let before = stranger;
    assert_eq!(emergency_pause(&mut stranger, 60), Err(PoolError::InvalidAuthority));
    assert_eq!(stranger, before);
}

#[test]
fn resume_pool_is_for_the_authority_only() {
    let mut ctx = ResumePool { pool_state: ledger(750, 30, 250, PoolStatus::Emergency), authority: who(1) };
    assert_eq!(
        resume_pool(&mut ctx, 61),
        Ok(PoolStatusChanged {
            pool_id: 11,
            old_status: PoolStatus::Emergency,
            new_status: PoolStatus::Active,
            authority: who(1),
            timestamp: 61,
        })
    );
    let mut expected = ledger(750, 30, 250, PoolStatus::Active);
    expected.last_updated = 61;
    assert_eq!(ctx.pool_state, expected);

    let mut stranger = ResumePool { pool_state: ledger(750, 30, 250, PoolStatus::Emergency), authority: who(2) };
    let before = stranger;
    assert_eq!(resume_pool(&mut stranger, 61), Err(PoolError::InvalidAuthority));
    assert_eq!(stranger, before);
}

#[test]
fn resume_names_the_status_it_found() {
    let mut ctx = ResumePool { pool_state: ledger(1, 30, 0, PoolStatus::Paused), authority: who(1) };
    assert_eq!(resume_pool(&mut ctx, 0).unwrap().old_status, PoolStatus::Paused);
}

#[test]
fn loan_pool_errors_fall_into_the_taxonomy() {
    assert_eq!(PoolError::InsufficientFunds.kind(), ErrorKind::InsufficientFunds);
    assert_eq!(PoolError::InvalidFeeRate.kind(), ErrorKind::InvalidParameters);
    assert_eq!(PoolError::InvalidInitialBalance.kind(), ErrorKind::InvalidParameters);
    assert_eq!(PoolError::InvalidAuthority.kind(), ErrorKind::Unauthorized);
    assert_eq!(PoolError::Overflow.kind(), ErrorKind::ArithmeticOverflow);
    assert_eq!(PoolError::Underflow.kind(), ErrorKind::ArithmeticUnderflow);
    assert_eq!(PoolError::FeeCalculationOverflow.kind(), ErrorKind::ArithmeticOverflow);
}

#[test]
fn check_decides_a_seeding_of_the_loan_pool_without_making_it() {
    let ctx = seeding(10, u64::MAX - 10);
    let before = ctx;
    assert_eq!(ctx.check(10, 1000), Ok(()));
    assert_eq!(ctx.check(10, 1001), Err(PoolError::InvalidFeeRate));
    assert_eq!(ctx.check(0, 30), Err(PoolError::InvalidInitialBalance));
    assert_eq!(ctx.check(11, 30), Err(PoolError::InsufficientFunds));
    assert_eq!(seeding(11, u64::MAX - 10).check(11, 30), Err(PoolError::Overflow));
    assert_eq!(ctx, before);
}

#[test]
fn only_the_authority_may_change_the_status() {
    let pool = ledger(750, 30, 250, PoolStatus::Active);
    assert_eq!(check_permission(&pool, who(1)), Ok(()));
    assert_eq!(check_permission(&pool, who(2)), Err(PoolError::InvalidAuthority));
}
