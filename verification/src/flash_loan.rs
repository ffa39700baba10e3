//! The coordinator: one flash loan from issue to record, as a single
//! transaction that either happens whole or not at all.

use vstd::prelude::*;
use crate::shared::{
    fee_outcome, net_of, to_unsigned, unsigned_of, ErrorKind, Identity, MockPoolState, PoolStatus,
    TransactionRecord,
};
use crate::custody::{can_pay, can_receive, move_balance, Holding, Wallet};
use crate::mock_dex::MockDexPool;
use crate::clock::{host_time, HostError};
use crate::arbitrage_bot::{execute_arbitrage_atomic, ArbitrageBotState, ExecuteArbitrageAtomic};

verus! {

/// Why the coordinator rejected or abandoned a transaction.
#[derive(Clone, Copy, PartialEq, Eq, Structural, Debug)]
pub enum FlashLoanError {
    /// The borrower cannot cover principal and fee.
    InsufficientFundsForRepayment,
    /// The amount is not one that can be lent.
    InvalidAmount,
    /// The pool cannot cover the loan.
    InsufficientPoolBalance,
    /// The pool is not lending.
    PoolNotActive,
    /// A checked operation left the 64-bit range.
    Overflow,
    /// A checked operation fell below zero.
    Underflow,
    /// The arbitrage earned too little.
    InsufficientProfit,
    /// The record belongs to someone else.
    UnauthorizedAccess,
    /// The orchestrator rejected or abandoned the arbitrage.
    ArbitrageFailed(crate::arbitrage_bot::ErrorCode),
}

impl FlashLoanError {
    /// Where this rejection falls in the common taxonomy.
    pub open spec fn kind_of(self) -> ErrorKind {
        match self {
            FlashLoanError::InsufficientFundsForRepayment => ErrorKind::InsufficientFunds,
            FlashLoanError::InvalidAmount => ErrorKind::InvalidParameters,
            FlashLoanError::InsufficientPoolBalance => ErrorKind::InsufficientFunds,
            FlashLoanError::PoolNotActive => ErrorKind::PoolNotActive,
            FlashLoanError::Overflow => ErrorKind::ArithmeticOverflow,
            FlashLoanError::Underflow => ErrorKind::ArithmeticUnderflow,
            FlashLoanError::InsufficientProfit => ErrorKind::InsufficientProfit,
            FlashLoanError::UnauthorizedAccess => ErrorKind::Unauthorized,
            FlashLoanError::ArbitrageFailed(e) => e.kind_of(),
        }
    }

    /// Where this rejection falls in the common taxonomy.
    pub fn kind(&self) -> (k: ErrorKind)
        ensures
            k == self.kind_of(),
    {
        match self {
            FlashLoanError::InsufficientFundsForRepayment => ErrorKind::InsufficientFunds,
            FlashLoanError::InvalidAmount => ErrorKind::InvalidParameters,
            FlashLoanError::InsufficientPoolBalance => ErrorKind::InsufficientFunds,
            FlashLoanError::PoolNotActive => ErrorKind::PoolNotActive,
            FlashLoanError::Overflow => ErrorKind::ArithmeticOverflow,
            FlashLoanError::Underflow => ErrorKind::ArithmeticUnderflow,
            FlashLoanError::InsufficientProfit => ErrorKind::InsufficientProfit,
            FlashLoanError::UnauthorizedAccess => ErrorKind::Unauthorized,
            FlashLoanError::ArbitrageFailed(e) => e.kind(),
        }
    }
}

/// Notification of a completed transaction.
#[derive(Clone, Copy, PartialEq, Eq, Structural, Debug)]
pub struct AtomicFlashLoanCompleted {
    pub user: Identity,
    pub transaction_id: u64,
    pub loan_amount: u64,
    pub fee: u64,
    pub net_profit: u64,
    pub timestamp: i64,
}

/// Everything one transaction reads and changes: the loan pool's ledger and
/// custody, the record to be written, the borrower, and all that the
/// orchestrator works on.
#[derive(Clone, Debug, PartialEq, Eq)]
pub struct AtomicFlashLoanWithArbitrage {
    pub mock_pool_state: MockPoolState,
    pub pool_lamports: u64,
    pub transaction_record: TransactionRecord,
    pub borrower: Wallet,
    pub arbitrage_bot: ArbitrageBotState,
    pub dex_pool_a: MockDexPool,
    pub dex_a_token_x_vault: Holding,
    pub dex_a_token_y_vault: Holding,
    pub dex_pool_b: MockDexPool,
    pub dex_b_token_x_vault: Holding,
    pub dex_b_token_y_vault: Holding,
    pub token_in_account: Holding,
    pub user_token_x: Holding,
    pub user_token_y: Holding,
    pub bump: u8,
}

impl AtomicFlashLoanWithArbitrage {
    /// The fee for a loan of `amount`, or why the loan cannot be prepared:
    /// the fee cannot be computed, the pool is not active, or its ledger
    /// does not cover the amount.
    pub open spec fn preparation(self, amount: u64) -> Result<u64, FlashLoanError> {
        match fee_outcome(amount, self.mock_pool_state.fee_bps) {
            Err(_) => Err(FlashLoanError::Overflow),
            Ok(fee) => if self.mock_pool_state.status != PoolStatus::Active {
                Err(FlashLoanError::PoolNotActive)
            } else if self.mock_pool_state.balance < amount {
                Err(FlashLoanError::InsufficientPoolBalance)
            } else {
                Ok(fee)
            },
        }
    }

    /// Whether `amount` can be lent, or the first reason why not, in this
    /// order: the status, the ledger, room in the total lent, the pool's
    /// custody, room in the borrower's wallet.
    pub open spec fn loan_outcome(self, amount: u64) -> Result<(), FlashLoanError> {
        if self.mock_pool_state.status != PoolStatus::Active {
            Err(FlashLoanError::PoolNotActive)
        } else if self.mock_pool_state.balance < amount {
            Err(FlashLoanError::InsufficientPoolBalance)
        } else if self.mock_pool_state.total_borrowed + amount > u64::MAX {
            Err(FlashLoanError::Overflow)
        } else if !can_pay(self.pool_lamports, amount) {
            Err(FlashLoanError::InsufficientPoolBalance)
        } else if !can_receive(self.borrower.lamports, amount) {
            Err(FlashLoanError::Overflow)
        } else {
            Ok(())
        }
    }

    /// The state after `amount` was lent: the ledger's balance is lower by
    /// exactly `amount` and its total lent higher by it, and `amount` has
    /// moved from the pool's custody to the borrower.
    pub open spec fn lent(self, amount: u64) -> AtomicFlashLoanWithArbitrage {
        AtomicFlashLoanWithArbitrage {
            mock_pool_state: MockPoolState {
                balance: (self.mock_pool_state.balance - amount) as u64,
                total_borrowed: (self.mock_pool_state.total_borrowed + amount) as u64,
                ..self.mock_pool_state
            },
            pool_lamports: (self.pool_lamports - amount) as u64,
            borrower: Wallet { key: self.borrower.key, lamports: (self.borrower.lamports + amount) as u64 },
            ..self
        }
    }

    /// What the orchestrator is handed.
    pub open spec fn arbitrage_view(self) -> ExecuteArbitrageAtomic {
        ExecuteArbitrageAtomic {
            arbitrage_bot: self.arbitrage_bot,
            dex_pool_a: self.dex_pool_a,
            dex_a_token_x_vault: self.dex_a_token_x_vault,
            dex_a_token_y_vault: self.dex_a_token_y_vault,
            dex_pool_b: self.dex_pool_b,
            dex_b_token_x_vault: self.dex_b_token_x_vault,
            dex_b_token_y_vault: self.dex_b_token_y_vault,
            token_in_account: self.token_in_account,
            user_token_x: self.user_token_x,
            user_token_y: self.user_token_y,
            payer: self.borrower.key,
        }
    }

    /// This state with the orchestrator's work put back.
    pub open spec fn with_arbitrage(self, done: ExecuteArbitrageAtomic) -> AtomicFlashLoanWithArbitrage {
        AtomicFlashLoanWithArbitrage {
            arbitrage_bot: done.arbitrage_bot,
            dex_pool_a: done.dex_pool_a,
            dex_a_token_x_vault: done.dex_a_token_x_vault,
            dex_a_token_y_vault: done.dex_a_token_y_vault,
            dex_pool_b: done.dex_pool_b,
            dex_b_token_x_vault: done.dex_b_token_x_vault,
            dex_b_token_y_vault: done.dex_b_token_y_vault,
            token_in_account: done.token_in_account,
            user_token_x: done.user_token_x,
            user_token_y: done.user_token_y,
            ..self
        }
    }

    /// The profit of the arbitrage, or the orchestrator's reason for
    /// failing, wrapped.
    pub open spec fn arbitrage_outcome(self, amount: u64, min_expected_profit: u64) -> Result<
        u64,
        FlashLoanError,
    > {
        match self.arbitrage_view().outcome(amount, min_expected_profit) {
            Ok(profit) => Ok(profit),
            Err(e) => Err(FlashLoanError::ArbitrageFailed(e)),
        }
    }

    /// The state that the orchestrator leaves.
    pub open spec fn arbitraged(self, amount: u64, min_expected_profit: u64) -> AtomicFlashLoanWithArbitrage {
        self.with_arbitrage(self.arbitrage_view().settled(amount, min_expected_profit))
    }

    /// Whether principal and fee can be repaid, or the first reason why not,
    /// in this order: their sum, the borrower's funds, room in the ledger's
    /// balance, in its total repaid, and in the pool's custody.
    pub open spec fn repayment_outcome(self, amount: u64, fee: u64) -> Result<(), FlashLoanError> {
        if amount + fee > u64::MAX {
            Err(FlashLoanError::Overflow)
        } else if !can_pay(self.borrower.lamports, (amount + fee) as u64) {
            Err(FlashLoanError::InsufficientFundsForRepayment)
        } else if self.mock_pool_state.balance + amount + fee > u64::MAX {
            Err(FlashLoanError::Overflow)
        } else if self.mock_pool_state.total_repaid + amount + fee > u64::MAX {
            Err(FlashLoanError::Overflow)
        } else if !can_receive(self.pool_lamports, (amount + fee) as u64) {
            Err(FlashLoanError::Overflow)
        } else {
            Ok(())
        }
    }

    /// The state after principal and fee were repaid: the ledger's balance
    /// and its total repaid are higher by exactly `amount + fee`, and that
    /// sum has moved from the borrower into the pool's custody.
    pub open spec fn repaid(self, amount: u64, fee: u64) -> AtomicFlashLoanWithArbitrage {
        AtomicFlashLoanWithArbitrage {
            mock_pool_state: MockPoolState {
                balance: (self.mock_pool_state.balance + amount + fee) as u64,
                total_repaid: (self.mock_pool_state.total_repaid + amount + fee) as u64,
                ..self.mock_pool_state
            },
            pool_lamports: (self.pool_lamports + amount + fee) as u64,
            borrower: Wallet {
                key: self.borrower.key,
                lamports: (self.borrower.lamports - amount - fee) as u64,
            },
            ..self
        }
    }

    /// The record of a transaction that lent `amount` for `fee` and earned
    /// `actual_profit`, written at `now`.
    pub open spec fn record_of(self, amount: u64, fee: u64, actual_profit: u64, now: i64) -> TransactionRecord {
        TransactionRecord {
            transaction_id: unsigned_of(now),
            user: self.borrower.key,
            loan_amount: amount,
            fee,
            profit: actual_profit,
            net_profit: net_of(actual_profit, fee),
            timestamp: now,
            bump: self.bump,
        }
    }

    /// The state with that record written.
    pub open spec fn recorded(self, amount: u64, fee: u64, actual_profit: u64, now: i64) -> AtomicFlashLoanWithArbitrage {
        AtomicFlashLoanWithArbitrage {
            transaction_record: self.record_of(amount, fee, actual_profit, now),
            ..self
        }
    }

    /// The fee and the profit of a whole transaction, or the reason why the
    /// first step to fail did so: prepare, issue, arbitrate, repay.
    pub open spec fn outcome(self, amount: u64, min_expected_profit: u64) -> Result<(u64, u64), FlashLoanError> {
        match self.preparation(amount) {
            Err(e) => Err(e),
            Ok(fee) => match self.loan_outcome(amount) {
                Err(e) => Err(e),
                Ok(()) => match self.lent(amount).arbitrage_outcome(amount, min_expected_profit) {
                    Err(e) => Err(e),
                    Ok(profit) => match self.lent(amount).arbitraged(
                        amount,
                        min_expected_profit,
                    ).repayment_outcome(amount, fee) {
                        Err(e) => Err(e),
                        Ok(()) => Ok((fee, profit)),
                    },
                },
            },
        }
    }

    /// The state that a successful transaction leaves: lent, arbitraged,
    /// repaid and recorded, in that order.
    pub open spec fn completed(self, amount: u64, min_expected_profit: u64, now: i64) -> AtomicFlashLoanWithArbitrage {
        let (fee, profit) = self.outcome(amount, min_expected_profit)->Ok_0;
        self.lent(amount).arbitraged(amount, min_expected_profit).repaid(amount, fee).recorded(
            amount,
            fee,
            profit,
            now,
        )
    }

    /// What a transaction at the time `now` returns and leaves behind:
    /// where every step succeeds, its notification and the state after the
    /// last step; where a step fails, the reason and the state untouched.
    pub open spec fn concluded(
        self,
        after: AtomicFlashLoanWithArbitrage,
        r: Result<AtomicFlashLoanCompleted, FlashLoanError>,
        amount: u64,
        min_expected_profit: u64,
        now: i64,
    ) -> bool {
        match self.outcome(amount, min_expected_profit) {
            Ok((fee, profit)) => {
                &&& r == Ok::<AtomicFlashLoanCompleted, FlashLoanError>(
                    AtomicFlashLoanCompleted {
                        user: self.borrower.key,
                        transaction_id: unsigned_of(now),
                        loan_amount: amount,
                        fee,
                        net_profit: net_of(profit, fee),
                        timestamp: now,
                    },
                )
                &&& after == self.completed(amount, min_expected_profit, now)
            },
            Err(e) => r == Err::<AtomicFlashLoanCompleted, FlashLoanError>(e) && after == self,
        }
    }

    /// A copy of this state.
    pub fn snapshot(&self) -> (copy: AtomicFlashLoanWithArbitrage)
        ensures
            copy == *self,
    {
        AtomicFlashLoanWithArbitrage {
            mock_pool_state: self.mock_pool_state,
            pool_lamports: self.pool_lamports,
            transaction_record: self.transaction_record,
            borrower: self.borrower,
            arbitrage_bot: self.arbitrage_bot,
            dex_pool_a: self.dex_pool_a.snapshot(),
            dex_a_token_x_vault: self.dex_a_token_x_vault,
            dex_a_token_y_vault: self.dex_a_token_y_vault,
            dex_pool_b: self.dex_pool_b.snapshot(),
            dex_b_token_x_vault: self.dex_b_token_x_vault,
            dex_b_token_y_vault: self.dex_b_token_y_vault,
            token_in_account: self.token_in_account,
            user_token_x: self.user_token_x,
            user_token_y: self.user_token_y,
            bump: self.bump,
        }
    }
}

/// The steps of a transaction.
pub struct FlashLoanHandler;

impl FlashLoanHandler {
    /// Computes the fee and tests that the pool lends and covers the
    /// amount. Changes nothing.
    pub fn validate_and_prepare(ctx: &AtomicFlashLoanWithArbitrage, amount: u64) -> (r: Result<
        u64,
        FlashLoanError,
    >)
        ensures
            r == ctx.preparation(amount),
    {
        let fee = match ctx.mock_pool_state.calculate_fee(amount) {
            Ok(v) => v,
            Err(_) => {
                return Err(FlashLoanError::Overflow);
            },
        };
        if !ctx.mock_pool_state.can_lend() {
            return Err(FlashLoanError::PoolNotActive);
        }
        if !ctx.mock_pool_state.has_sufficient_funds(amount) {
            return Err(FlashLoanError::InsufficientPoolBalance);
        }
        Ok(fee)
    }

    /// Lends `amount` to the borrower, or changes nothing. The ledger is
    /// updated before the funds leave the pool's custody.
    pub fn execute_loan(ctx: &mut AtomicFlashLoanWithArbitrage, amount: u64) -> (r: Result<(), FlashLoanError>)
        ensures
            r == old(ctx).loan_outcome(amount),
            r is Ok ==> *final(ctx) == old(ctx).lent(amount),
            r is Ok ==> final(ctx).mock_pool_state.balance == old(ctx).mock_pool_state.balance - amount,
            r is Err ==> *final(ctx) == *old(ctx),
    {
        if !ctx.mock_pool_state.can_lend() {
            return Err(FlashLoanError::PoolNotActive);
        }
        if !ctx.mock_pool_state.has_sufficient_funds(amount) {
            return Err(FlashLoanError::InsufficientPoolBalance);
        }
        let total_borrowed = match ctx.mock_pool_state.total_borrowed.checked_add(amount) {
            Some(v) => v,
            None => {
                return Err(FlashLoanError::Overflow);
            },
        };
        if ctx.pool_lamports < amount {
            return Err(FlashLoanError::InsufficientPoolBalance);
        }
        if ctx.borrower.lamports > u64::MAX - amount {
            return Err(FlashLoanError::Overflow);
        }
        // The ledger first.
        ctx.mock_pool_state.balance = ctx.mock_pool_state.balance - amount;
        ctx.mock_pool_state.total_borrowed = total_borrowed;

        // Then the funds.
        let moved = move_balance(&mut ctx.pool_lamports, &mut ctx.borrower.lamports, amount);
        if moved.is_err() {
            return Err(FlashLoanError::InsufficientPoolBalance);
        }
        Ok(())
    }

    /// Runs the arbitrage on the lent amount.
    pub fn execute_arbitrage(
        ctx: &mut AtomicFlashLoanWithArbitrage,
        amount: u64,
        min_expected_profit: u64,
        now: i64,
    ) -> (r: Result<u64, FlashLoanError>)
        ensures
            r == old(ctx).arbitrage_outcome(amount, min_expected_profit),
            *final(ctx) == old(ctx).arbitraged(amount, min_expected_profit),
    {
        Self::call_arbitrage_bot(ctx, amount, min_expected_profit, now)
    }

    /// Hands the orchestrator what it works on, lets it run, and puts its
    /// work back. Whatever the orchestrator left is kept: where it fails
    /// after it let the call in, that is one more trade counted.
    pub fn call_arbitrage_bot(
        ctx: &mut AtomicFlashLoanWithArbitrage,
        amount: u64,
        min_expected_profit: u64,
        now: i64,
    ) -> (r: Result<u64, FlashLoanError>)
        ensures
            r == old(ctx).arbitrage_outcome(amount, min_expected_profit),
            *final(ctx) == old(ctx).arbitraged(amount, min_expected_profit),
    {
        let mut inner = ExecuteArbitrageAtomic {
            arbitrage_bot: ctx.arbitrage_bot,
            dex_pool_a: ctx.dex_pool_a.snapshot(),
            dex_a_token_x_vault: ctx.dex_a_token_x_vault,
            dex_a_token_y_vault: ctx.dex_a_token_y_vault,
            dex_pool_b: ctx.dex_pool_b.snapshot(),
            dex_b_token_x_vault: ctx.dex_b_token_x_vault,
            dex_b_token_y_vault: ctx.dex_b_token_y_vault,
            token_in_account: ctx.token_in_account,
            user_token_x: ctx.user_token_x,
            user_token_y: ctx.user_token_y,
            payer: ctx.borrower.key,
        };
        let result = execute_arbitrage_atomic(&mut inner, amount, min_expected_profit, now);
        ctx.arbitrage_bot = inner.arbitrage_bot;
        ctx.dex_pool_a = inner.dex_pool_a;
        ctx.dex_a_token_x_vault = inner.dex_a_token_x_vault;
        ctx.dex_a_token_y_vault = inner.dex_a_token_y_vault;
        ctx.dex_pool_b = inner.dex_pool_b;
        ctx.dex_b_token_x_vault = inner.dex_b_token_x_vault;
        ctx.dex_b_token_y_vault = inner.dex_b_token_y_vault;
        ctx.token_in_account = inner.token_in_account;
        ctx.user_token_x = inner.user_token_x;
        ctx.user_token_y = inner.user_token_y;
        match result {
            Ok(profit) => Ok(profit),
            Err(e) => Err(FlashLoanError::ArbitrageFailed(e)),
        }
    }

    /// Takes principal and fee back from the borrower, or changes nothing.
    /// The ledger is updated before the funds are pulled.
    pub fn process_repayment(ctx: &mut AtomicFlashLoanWithArbitrage, amount: u64, fee: u64) -> (r: Result<
        (),
        FlashLoanError,
    >)
        ensures
            r == old(ctx).repayment_outcome(amount, fee),
            r is Ok ==> *final(ctx) == old(ctx).repaid(amount, fee),
            r is Ok ==> final(ctx).mock_pool_state.balance == old(ctx).mock_pool_state.balance + amount + fee,
            r is Err ==> *final(ctx) == *old(ctx),
    {
        let total_repayment = match amount.checked_add(fee) {
            Some(v) => v,
            None => {
                return Err(FlashLoanError::Overflow);
            },
        };
        if !ctx.borrower.covers(total_repayment) {
            return Err(FlashLoanError::InsufficientFundsForRepayment);
        }
        let balance = match ctx.mock_pool_state.balance.checked_add(total_repayment) {
            Some(v) => v,
            None => {
                return Err(FlashLoanError::Overflow);
            },
        };
        let total_repaid = match ctx.mock_pool_state.total_repaid.checked_add(total_repayment) {
            Some(v) => v,
            None => {
                return Err(FlashLoanError::Overflow);
            },
        };
        if ctx.pool_lamports > u64::MAX - total_repayment {
            return Err(FlashLoanError::Overflow);
        }
        // The ledger first.
        ctx.mock_pool_state.balance = balance;
        ctx.mock_pool_state.total_repaid = total_repaid;

        // Then the funds.
        let moved = move_balance(&mut ctx.borrower.lamports, &mut ctx.pool_lamports, total_repayment);
        if moved.is_err() {
            return Err(FlashLoanError::InsufficientFundsForRepayment);
        }
        Ok(())
    }

    /// Writes the record of the transaction. Its net profit is the profit
    /// less the fee, and zero where the fee is the larger, so it never
    /// exceeds the profit.
    pub fn record_transaction(
        ctx: &mut AtomicFlashLoanWithArbitrage,
        amount: u64,
        fee: u64,
        actual_profit: u64,
        now: i64,
    ) -> (event: AtomicFlashLoanCompleted)
        ensures
            *final(ctx) == old(ctx).recorded(amount, fee, actual_profit, now),
            final(ctx).transaction_record.wf(),
            final(ctx).transaction_record.net_profit == net_of(actual_profit, fee),
            final(ctx).transaction_record.net_profit <= actual_profit,
            event == (AtomicFlashLoanCompleted {
                user: old(ctx).borrower.key,
                transaction_id: unsigned_of(now),
                loan_amount: amount,
                fee,
                net_profit: net_of(actual_profit, fee),
                timestamp: now,
            }),
    {
        let transaction_id = to_unsigned(now);
        let net_profit = actual_profit.saturating_sub(fee);
        ctx.transaction_record = TransactionRecord {
            transaction_id,
            user: ctx.borrower.key,
            loan_amount: amount,
            fee,
            profit: actual_profit,
            net_profit,
            timestamp: now,
            bump: ctx.bump,
        };
        AtomicFlashLoanCompleted {
            user: ctx.borrower.key,
            transaction_id,
            loan_amount: amount,
            fee,
            net_profit,
            timestamp: now,
        }
    }
}

/// Lends `amount`, runs the arbitrage on it, takes principal and fee back
/// and writes the record: all of it, or nothing.
///
/// Where any step fails, the state is exactly what it was before the call:
/// nothing that the loan or the arbitrage did can be seen afterwards.
pub fn atomic_flash_loan_with_arbitrage(
    ctx: &mut AtomicFlashLoanWithArbitrage,
    amount: u64,
    min_expected_profit: u64,
    _description: String,
    now: i64,
) -> (r: Result<AtomicFlashLoanCompleted, FlashLoanError>)
    ensures
        old(ctx).concluded(*final(ctx), r, amount, min_expected_profit, now),
        r is Ok <==> old(ctx).outcome(amount, min_expected_profit) is Ok,
        r is Err ==> *final(ctx) == *old(ctx),
        r is Ok ==> {
            let (fee, profit) = old(ctx).outcome(amount, min_expected_profit)->Ok_0;
            &&& profit >= min_expected_profit
            &&& final(ctx).mock_pool_state.balance == old(ctx).mock_pool_state.balance + fee
            &&& final(ctx).pool_lamports == old(ctx).pool_lamports + fee
            &&& final(ctx).transaction_record.wf()
            &&& final(ctx).transaction_record.profit == profit
            &&& final(ctx).transaction_record.net_profit <= profit
            &&& !final(ctx).arbitrage_bot.is_executing
        },
{
    let found = ctx.snapshot();

    let fee = match FlashLoanHandler::validate_and_prepare(ctx, amount) {
        Ok(v) => v,
        Err(e) => {
            return Err(e);
        },
    };
    match FlashLoanHandler::execute_loan(ctx, amount) {
        Ok(()) => {},
        Err(e) => {
            return Err(e);
        },
    }
    let actual_profit = match FlashLoanHandler::execute_arbitrage(ctx, amount, min_expected_profit, now) {
        Ok(v) => v,
        Err(e) => {
            *ctx = found;
            return Err(e);
        },
    };
    match FlashLoanHandler::process_repayment(ctx, amount, fee) {
        Ok(()) => {},
        Err(e) => {
            *ctx = found;
            return Err(e);
        },
    }
    Ok(FlashLoanHandler::record_transaction(ctx, amount, fee, actual_profit, now))
}

/// Runs a whole transaction at the time of the host's clock.
///
/// The loan is prepared before the host is asked for the time: where the
/// fee cannot be computed, the pool is not active or its ledger does not
/// cover the amount, the transaction is rejected whatever the clock does,
/// and nothing changes. For a loan that can be prepared the clock is read.
/// Where it cannot be read nothing changes; otherwise there is a time for
/// which the result and the state are those of
/// `atomic_flash_loan_with_arbitrage`. In particular a failed transaction
/// leaves no trace.
pub fn atomic_flash_loan_with_arbitrage_now(
    ctx: &mut AtomicFlashLoanWithArbitrage,
    amount: u64,
    min_expected_profit: u64,
    description: String,
) -> (r: Result<Result<AtomicFlashLoanCompleted, FlashLoanError>, HostError>)
    ensures
        old(ctx).preparation(amount) matches Err(e) ==> r == Ok::<
            Result<AtomicFlashLoanCompleted, FlashLoanError>,
            HostError,
        >(Err(e)) && *final(ctx) == *old(ctx),
        r is Err ==> old(ctx).preparation(amount) is Ok && *final(ctx) == *old(ctx),
        r matches Ok(inner) ==> exists|now: i64| #[trigger]
            old(ctx).concluded(*final(ctx), inner, amount, min_expected_profit, now),
        r matches Ok(inner) ==> (inner is Ok <==> old(ctx).outcome(amount, min_expected_profit) is Ok),
        r matches Ok(Err(_)) ==> *final(ctx) == *old(ctx),
        r matches Ok(Ok(_)) ==> final(ctx).transaction_record.wf(),
{
    match FlashLoanHandler::validate_and_prepare(ctx, amount) {
        Ok(_) => {},
        Err(e) => {
            let rejected = Ok(Err(e));
            assert(old(ctx).concluded(*ctx, Err(e), amount, min_expected_profit, 0));
            return rejected;
        },
    }
    match host_time() {
        Ok(now) => Ok(atomic_flash_loan_with_arbitrage(ctx, amount, min_expected_profit, description, now)),
        Err(e) => Err(e),
    }
}

// ---------------------------------------------------------------------
// Reporting
// ---------------------------------------------------------------------

/// What a report on a transaction reads.
#[derive(Clone, Copy, PartialEq, Eq, Structural, Debug)]
pub struct GetTransactionRecord {
    pub transaction_record: TransactionRecord,
}

/// What a record reports of itself.
#[derive(Clone, Copy, PartialEq, Eq, Structural, Debug)]
pub struct TransactionReport {
    pub transaction_id: u64,
    pub user: Identity,
    pub loan_amount: u64,
    pub fee: u64,
    pub profit: u64,
    pub net_profit: u64,
    pub roi_bps: u64,
    pub is_profitable: bool,
}

/// Reports a record to the user it belongs to. Anyone else is turned away;
/// a return that is no 64-bit number is an overflow.
pub fn get_transaction_record(ctx: &GetTransactionRecord, user: Identity) -> (r: Result<
    TransactionReport,
    FlashLoanError,
>)
    ensures
        ctx.transaction_record.user != user ==> r == Err::<TransactionReport, FlashLoanError>(
            FlashLoanError::UnauthorizedAccess,
        ),
        ctx.transaction_record.user == user && ctx.transaction_record.roi_bps() > u64::MAX ==> r == Err::<
            TransactionReport,
            FlashLoanError,
        >(FlashLoanError::Overflow),
        ctx.transaction_record.user == user && ctx.transaction_record.roi_bps() <= u64::MAX ==> r == Ok::<
            TransactionReport,
            FlashLoanError,
        >(
            TransactionReport {
                transaction_id: ctx.transaction_record.transaction_id,
                user: ctx.transaction_record.user,
                loan_amount: ctx.transaction_record.loan_amount,
                fee: ctx.transaction_record.fee,
                profit: ctx.transaction_record.profit,
                net_profit: ctx.transaction_record.net_profit,
                roi_bps: ctx.transaction_record.roi_bps() as u64,
                is_profitable: ctx.transaction_record.net_profit > 0,
            },
        ),
{
    let transaction_record = &ctx.transaction_record;
    if transaction_record.user != user {
        return Err(FlashLoanError::UnauthorizedAccess);
    }
    let roi_bps = match transaction_record.checked_roi_bps() {
        Some(v) => v,
        None => {
            return Err(FlashLoanError::Overflow);
        },
    };
    Ok(
        TransactionReport {
            transaction_id: transaction_record.transaction_id,
            user: transaction_record.user,
            loan_amount: transaction_record.loan_amount,
            fee: transaction_record.fee,
            profit: transaction_record.profit,
            net_profit: transaction_record.net_profit,
            roi_bps,
            is_profitable: transaction_record.is_profitable(),
        },
    )
}

} // verus!
