//! State records shared by the engines, and the error taxonomy.

use vstd::prelude::*;
use crate::mock_pool::PoolError;

verus! {

/// One basis point is a hundredth of a percent; this many make the whole.
pub const BPS_DENOMINATOR: u64 = 10000;

/// The highest fee rate a loan pool may charge, in basis points.
pub const MAX_FEE_BPS: u16 = 1000;

/// A 256-bit account address, held as its two 128-bit halves.
#[derive(Clone, Copy, PartialEq, Eq, Structural, Debug)]
pub struct Identity {
    pub hi: u128,
    pub lo: u128,
}

/// What went wrong, independent of the engine that reported it.
#[derive(Clone, Copy, PartialEq, Eq, Structural, Debug)]
pub enum ErrorKind {
    /// An input was zero, empty or out of range.
    InvalidParameters,
    /// A holding or a pool could not cover an amount.
    InsufficientFunds,
    /// A swap would have emptied a reserve.
    InsufficientLiquidity,
    /// The computed output is below the caller's floor.
    SlippageExceeded,
    /// The arbitrage earned less than the required margin.
    InsufficientProfit,
    /// The session was already executing.
    ReentrancyDetected,
    /// A checked operation left the range from above.
    ArithmeticOverflow,
    /// A checked operation left the range from below.
    ArithmeticUnderflow,
    /// The caller is not the registered authority.
    Unauthorized,
    /// The pool is not lending.
    PoolNotActive,
}

/// A signed 64-bit number read as an unsigned one with the same bits: the
/// number itself where it is not negative, and 2^64 more where it is.
pub open spec fn unsigned_of(v: i64) -> u64 {
    if v >= 0 {
        v as u64
    } else {
        (v + 0x1_0000_0000_0000_0000) as u64
    }
}

/// Reads a signed 64-bit number as an unsigned one with the same bits.
/// Identifiers are made from clock readings in this way.
pub fn to_unsigned(v: i64) -> (u: u64)
    ensures
        u == unsigned_of(v),
{
    if v >= 0 {
        v as u64
    } else {
        let below: i64 = -(v + 1);
        u64::MAX - (below as u64)
    }
}

// ---------------------------------------------------------------------
// Status flags
// ---------------------------------------------------------------------

/// Where a flash loan stands.
#[derive(Clone, Copy, PartialEq, Eq, Structural, Debug)]
pub enum LoanStatus {
    /// Lent out, waiting for the arbitrage.
    Active,
    /// The arbitrage is running.
    Arbitraging,
    /// The arbitrage is done; the loan can be repaid.
    Completed,
    /// Repaid.
    Repaid,
    /// Failed.
    Failed,
}

/// Where a trade stands.
#[derive(Clone, Copy, PartialEq, Eq, Structural, Debug)]
pub enum TradeStatus {
    Pending,
    Executing,
    Completed,
    Failed,
}

/// Where a lending stands.
#[derive(Clone, Copy, PartialEq, Eq, Structural, Debug)]
pub enum LendingStatus {
    Requested,
    Approved,
    Active,
    Repaid,
    Defaulted,
}

/// The operational status of a loan pool.
#[derive(Clone, Copy, PartialEq, Eq, Structural, Debug)]
pub enum PoolStatus {
    Initializing,
    Active,
    Paused,
    Emergency,
    Deprecated,
}

// ---------------------------------------------------------------------
// Flash loan record
// ---------------------------------------------------------------------

/// One flash loan through its life.
#[derive(Clone, Copy, PartialEq, Eq, Debug)]
pub struct FlashLoanState {
    pub loan_id: u64,
    pub borrower: Identity,
    pub amount: u64,
    pub fee: u64,
    pub status: LoanStatus,
    pub arbitrage_bot: Option<Identity>,
    pub profit: u64,
    pub created_at: i64,
    pub bump: u8,
}

impl FlashLoanState {
    /// The arbitrage can start while the loan is out and untouched.
    pub fn can_start_arbitrage(&self) -> (b: bool)
        ensures
            b == (self.status == LoanStatus::Active),
    {
        self.status == LoanStatus::Active
    }

    /// The loan can be repaid once it is out, whether or not the arbitrage
    /// has completed.
    pub fn can_repay(&self) -> (b: bool)
        ensures
            b == (self.status == LoanStatus::Completed || self.status == LoanStatus::Active),
    {
        self.status == LoanStatus::Completed || self.status == LoanStatus::Active
    }

    /// The arbitrage has completed.
    pub fn is_completed(&self) -> (b: bool)
        ensures
            b == (self.status == LoanStatus::Completed),
    {
        self.status == LoanStatus::Completed
    }

    /// Principal and fee together.
    pub fn total_repay_amount(&self) -> (total: u64)
        requires
            self.amount + self.fee <= u64::MAX,
        ensures
            total == self.amount + self.fee,
    {
        self.amount + self.fee
    }

    /// The profit recorded for the loan.
    pub fn net_profit(&self) -> (p: u64)
        ensures
            p == self.profit,
    {
        self.profit
    }
}

// ---------------------------------------------------------------------
// Trade record
// ---------------------------------------------------------------------

/// One trade on a pool through its life.
#[derive(Clone, Copy, PartialEq, Eq, Structural, Debug)]
pub struct DexTradeState {
    pub trade_id: u64,
    pub trader: Identity,
    pub amount_in: u64,
    pub amount_out: u64,
    pub token_in_mint: Identity,
    pub token_out_mint: Identity,
    pub status: TradeStatus,
    pub expected_min_out: u64,
    pub actual_amount_out: u64,
    pub created_at: i64,
    pub bump: u8,
}

impl DexTradeState {
    /// The trade has not started.
    pub fn can_execute(&self) -> (b: bool)
        ensures
            b == (self.status == TradeStatus::Pending),
    {
        self.status == TradeStatus::Pending
    }

    /// The trade has completed.
    pub fn is_completed(&self) -> (b: bool)
        ensures
            b == (self.status == TradeStatus::Completed),
    {
        self.status == TradeStatus::Completed
    }

    /// The trade has failed.
    pub fn is_failed(&self) -> (b: bool)
        ensures
            b == (self.status == TradeStatus::Failed),
    {
        self.status == TradeStatus::Failed
    }

    /// How far the output fell short of the expected minimum; zero where it
    /// did not.
    pub fn calculate_slippage(&self) -> (s: u64)
        ensures
            s == if self.expected_min_out > self.actual_amount_out {
                self.expected_min_out - self.actual_amount_out
            } else {
                0
            },
    {
        if self.expected_min_out > self.actual_amount_out {
            self.expected_min_out - self.actual_amount_out
        } else {
            0
        }
    }
}

// ---------------------------------------------------------------------
// Lending record
// ---------------------------------------------------------------------

/// Seconds in an hour.
pub const SECONDS_PER_HOUR: u64 = 3600;

/// Hours in a year of 365 days.
pub const HOURS_PER_YEAR: u64 = 8760;

/// One lending from a pool through its life.
#[derive(Clone, Copy, PartialEq, Eq, Debug)]
pub struct PoolLendingState {
    pub lending_id: u64,
    pub borrower: Identity,
    pub amount: u64,
    pub pool_id: Identity,
    pub status: LendingStatus,
    pub borrowed_at: i64,
    pub repaid_at: Option<i64>,
    /// The yearly rate, in basis points.
    pub interest_rate: u64,
    pub bump: u8,
}

/// Simple interest on `amount` at a yearly `rate_bps` over whole `hours`;
/// zero where the product of the three leaves the 64-bit range.
pub open spec fn interest_of(amount: u64, rate_bps: u64, hours: u64) -> int {
    if amount * rate_bps > u64::MAX || amount * rate_bps * hours > u64::MAX {
        0
    } else {
        (amount * rate_bps * hours) / 10000 / 8760
    }
}

impl PoolLendingState {
    /// The moment up to which the lending has run: when it was repaid, or
    /// else the given time.
    pub open spec fn end_of_borrow(self, current_time: i64) -> i64 {
        match self.repaid_at {
            Some(repaid_at) => repaid_at,
            None => current_time,
        }
    }

    /// The lending has been asked for and not yet granted.
    pub fn can_lend(&self) -> (b: bool)
        ensures
            b == (self.status == LendingStatus::Requested),
    {
        self.status == LendingStatus::Requested
    }

    /// The lending is out.
    pub fn can_repay(&self) -> (b: bool)
        ensures
            b == (self.status == LendingStatus::Approved || self.status == LendingStatus::Active),
    {
        self.status == LendingStatus::Approved || self.status == LendingStatus::Active
    }

    /// The lending has been repaid.
    pub fn is_repaid(&self) -> (b: bool)
        ensures
            b == (self.status == LendingStatus::Repaid),
    {
        self.status == LendingStatus::Repaid
    }

    /// The seconds from the borrowing to its end, read as an unsigned
    /// number. The difference has to fit in a signed 64-bit number.
    pub fn get_borrow_duration(&self, current_time: i64) -> (secs: u64)
        requires
            i64::MIN <= self.end_of_borrow(current_time) - self.borrowed_at <= i64::MAX,
        ensures
            secs == unsigned_of((self.end_of_borrow(current_time) - self.borrowed_at) as i64),
    {
        match self.repaid_at {
            Some(repaid_at) => to_unsigned(repaid_at - self.borrowed_at),
            None => to_unsigned(current_time - self.borrowed_at),
        }
    }

    /// Simple interest over the whole hours of the borrowing.
    pub fn calculate_interest(&self, current_time: i64) -> (interest: u64)
        requires
            i64::MIN <= self.end_of_borrow(current_time) - self.borrowed_at <= i64::MAX,
        ensures
            interest == interest_of(
                self.amount,
                self.interest_rate,
                unsigned_of((self.end_of_borrow(current_time) - self.borrowed_at) as i64) / 3600,
            ),
    {
        let duration_secs = self.get_borrow_duration(current_time);
        let duration_hours = duration_secs / SECONDS_PER_HOUR;
        let scaled = match self.amount.checked_mul(self.interest_rate) {
            Some(v) => v,
            None => {
                return 0;
            },
        };
        let accrued = match scaled.checked_mul(duration_hours) {
            Some(v) => v,
            None => {
                return 0;
            },
        };
        accrued / BPS_DENOMINATOR / HOURS_PER_YEAR
    }
}

// ---------------------------------------------------------------------
// Loan pool ledger
// ---------------------------------------------------------------------

/// The ledger of the loan pool.
#[derive(Clone, Copy, PartialEq, Eq, Structural, Debug)]
pub struct MockPoolState {
    pub pool_id: u64,
    pub balance: u64,
    pub fee_bps: u16,
    pub authority: Identity,
    pub total_borrowed: u64,
    pub total_repaid: u64,
    pub active_loans: u64,
    pub created_at: i64,
    pub last_updated: i64,
    pub status: PoolStatus,
    pub bump: u8,
}

/// The fee on `amount` at `fee_bps` basis points, rounded down.
pub open spec fn fee_of(amount: u64, fee_bps: u16) -> int {
    (amount * fee_bps) / 10000
}

/// The fee as a 64-bit number, or the failure where it is not one.
pub open spec fn fee_outcome(amount: u64, fee_bps: u16) -> Result<u64, PoolError> {
    if fee_of(amount, fee_bps) > u64::MAX {
        Err(PoolError::FeeCalculationOverflow)
    } else {
        Ok(fee_of(amount, fee_bps) as u64)
    }
}

/// The share of the pool's funds that is lent out, in basis points; zero
/// for a pool without funds.
pub open spec fn utilization_of(balance: u64, total_borrowed: u64) -> int {
    if balance + total_borrowed == 0 {
        0
    } else {
        (total_borrowed * 10000) / (balance + total_borrowed)
    }
}

/// The fee is the floor of the exact quotient, whatever the size of the
/// amount: scaled back up it brackets the product it was taken from. At a
/// rate of at most the whole it never exceeds the amount, so it fits.
pub proof fn lemma_fee_rounds_down(amount: u64, fee_bps: u16)
    ensures
        0 <= fee_of(amount, fee_bps),
        fee_of(amount, fee_bps) * 10000 <= amount * fee_bps < (fee_of(amount, fee_bps) + 1) * 10000,
        fee_bps <= 10000 ==> fee_of(amount, fee_bps) <= amount,
        fee_bps <= 10000 ==> fee_outcome(amount, fee_bps) == Ok::<u64, PoolError>(fee_of(amount, fee_bps) as u64),
{
    let product = amount * fee_bps;
    assert(0 <= product <= amount * 65535) by (nonlinear_arith)
        requires
            product == amount * fee_bps,
            0 <= fee_bps <= 65535,
            0 <= amount,
    ;
    if fee_bps <= 10000 {
        assert(product <= amount * 10000) by (nonlinear_arith)
            requires
                product == amount * fee_bps,
                0 <= fee_bps <= 10000,
                0 <= amount,
        ;
    }
}

/// The fee does not fall when the amount grows.
pub proof fn lemma_fee_monotonic(smaller: u64, larger: u64, fee_bps: u16)
    requires
        smaller <= larger,
    ensures
        fee_of(smaller, fee_bps) <= fee_of(larger, fee_bps),
{
    assert(smaller * fee_bps <= larger * fee_bps) by (nonlinear_arith)
        requires
            smaller <= larger,
            0 <= fee_bps,
    ;
}

impl MockPoolState {
    /// The rate is within the limit for loan pools.
    pub open spec fn wf(self) -> bool {
        self.fee_bps <= MAX_FEE_BPS
    }

    /// The pool lends only while it is active.
    pub fn can_lend(&self) -> (b: bool)
        ensures
            b == (self.status == PoolStatus::Active),
    {
        self.status == PoolStatus::Active
    }

    /// The ledger covers `amount`.
    pub fn has_sufficient_funds(&self, amount: u64) -> (b: bool)
        ensures
            b == (self.balance >= amount),
    {
        self.balance >= amount
    }

    /// The fee for lending `amount`, computed in 128 bits so that no amount
    /// overflows on the way. It fails only where the fee itself is no 64-bit
    /// number, which no rate up to the whole allows.
    pub fn calculate_fee(&self, amount: u64) -> (r: Result<u64, PoolError>)
        ensures
            r == fee_outcome(amount, self.fee_bps),
            self.fee_bps <= 10000 ==> r is Ok,
    {
        proof {
            lemma_fee_rounds_down(amount, self.fee_bps);
            assert(amount * self.fee_bps <= 0xFFFF_FFFF_FFFF_FFFF * 0xFFFF) by (nonlinear_arith)
                requires
                    amount <= 0xFFFF_FFFF_FFFF_FFFF,
                    self.fee_bps <= 0xFFFF,
            ;
        }
        let product: u128 = (amount as u128) * (self.fee_bps as u128);
        let fee: u128 = product / 10000;
        if fee > u64::MAX as u128 {
            Err(PoolError::FeeCalculationOverflow)
        } else {
            Ok(fee as u64)
        }
    }

    /// The share of the pool's funds that is lent out, in basis points.
    pub fn get_utilization_rate(&self) -> (rate: u64)
        ensures
            rate == utilization_of(self.balance, self.total_borrowed),
            rate <= 10000,
    {
        let funds: u128 = (self.balance as u128) + (self.total_borrowed as u128);
        if funds == 0 {
            return 0;
        }
        let scaled: u128 = (self.total_borrowed as u128) * 10000;
        let rate: u128 = scaled / funds;
        proof {
            assert(scaled / funds <= 10000) by (nonlinear_arith)
                requires
                    0 <= scaled <= funds * 10000,
                    funds > 0,
            ;
        }
        rate as u64
    }

    /// The pool has been stopped in an emergency.
    pub fn is_emergency(&self) -> (b: bool)
        ensures
            b == (self.status == PoolStatus::Emergency),
    {
        self.status == PoolStatus::Emergency
    }

    /// Notes the time of the last change.
    pub fn update_timestamp(&mut self, now: i64)
        ensures
            *final(self) == (MockPoolState { last_updated: now, ..*old(self) }),
    {
        self.last_updated = now;
    }
}

// ---------------------------------------------------------------------
// Transaction record
// ---------------------------------------------------------------------

/// Minutes in a year of 365 days.
pub const MINUTES_PER_YEAR: u64 = 525600;

/// What one completed transaction lent, charged and earned.
#[derive(Clone, Copy, PartialEq, Eq, Structural, Debug)]
pub struct TransactionRecord {
    pub transaction_id: u64,
    pub user: Identity,
    pub loan_amount: u64,
    pub fee: u64,
    pub profit: u64,
    pub net_profit: u64,
    pub timestamp: i64,
    pub bump: u8,
}

/// What is left of `profit` after `fee`, and nothing where the fee is the
/// larger.
pub open spec fn net_of(profit: u64, fee: u64) -> u64 {
    if profit >= fee {
        (profit - fee) as u64
    } else {
        0
    }
}

impl TransactionRecord {
    /// The net profit is the profit less the fee, and zero where the fee is
    /// the larger.
    pub open spec fn wf(self) -> bool {
        self.net_profit == net_of(self.profit, self.fee)
    }

    /// A record whose net profit is what its profit and fee give never
    /// shows more net profit than profit.
    pub proof fn lemma_net_profit_bounded(self)
        requires
            self.wf(),
        ensures
            self.net_profit <= self.profit,
            self.profit >= self.fee ==> self.net_profit == self.profit - self.fee,
            self.profit < self.fee ==> self.net_profit == 0,
    {
    }

    /// The return on the loan in basis points, rounded down.
    pub open spec fn roi_bps(self) -> int {
        if self.loan_amount == 0 {
            0
        } else {
            (self.net_profit * 10000) / (self.loan_amount as int)
        }
    }

    /// The return over a year of minutes, each taken to earn the whole
    /// multiples of the loan that the net profit holds.
    pub open spec fn annualized_return(self, operation_duration_minutes: u64) -> int {
        if operation_duration_minutes == 0 || self.loan_amount == 0 {
            0
        } else {
            (self.net_profit / self.loan_amount) * 525600
        }
    }

    /// The return on the loan in basis points, or `None` where it is no
    /// 64-bit number.
    pub fn checked_roi_bps(&self) -> (roi: Option<u64>)
        ensures
            self.roi_bps() <= u64::MAX ==> roi == Some(self.roi_bps() as u64),
            self.roi_bps() > u64::MAX ==> roi.is_none(),
    {
        if self.loan_amount == 0 {
            return Some(0);
        }
        let scaled: u128 = (self.net_profit as u128) * 10000;
        let roi: u128 = scaled / (self.loan_amount as u128);
        if roi > u64::MAX as u128 {
            None
        } else {
            Some(roi as u64)
        }
    }

    /// The return on the loan in basis points; zero for a loan of nothing.
    /// The result has to be a 64-bit number.
    pub fn calculate_roi_bps(&self) -> (roi: u64)
        requires
            self.roi_bps() <= u64::MAX,
        ensures
            roi == self.roi_bps(),
    {
        match self.checked_roi_bps() {
            Some(roi) => roi,
            None => 0,
        }
    }

    /// The return over a year; zero for no duration or a loan of nothing.
    /// The result has to be a 64-bit number.
    pub fn calculate_annualized_return(&self, operation_duration_minutes: u64) -> (ret: u64)
        requires
            self.annualized_return(operation_duration_minutes) <= u64::MAX,
        ensures
            ret == self.annualized_return(operation_duration_minutes),
    {
        if operation_duration_minutes == 0 || self.loan_amount == 0 {
            return 0;
        }
        let roi_per_minute = self.net_profit / self.loan_amount;
        roi_per_minute * MINUTES_PER_YEAR
    }

    /// The transaction left something after the fee.
    pub fn is_profitable(&self) -> (b: bool)
        ensures
            b == (self.net_profit > 0),
    {
        self.net_profit > 0
    }
}

} // verus!
