//! The orchestrator: routes a borrowed amount through two pools, X for Y on
//! the first and Y for X on the second, and insists on a minimum profit.
//!
//! A session is either idle or executing. A call on an executing session is
//! turned away, and every call that was let in leaves the session idle,
//! whether it succeeds or fails. A call that fails after it was let in
//! leaves the pools and holdings as they were and counts as a trade.

use vstd::prelude::*;
use crate::shared::{ErrorKind, Identity};
use crate::custody::Holding;
use crate::clock::{host_time, HostError};
use crate::mock_dex::{swap, MockDexPool, Swap};

verus! {

/// The share of the input that the fee leaves, in basis points.
pub const FEE_ADJUSTED_BPS: u64 = 9970;

/// The share of the fee-adjusted estimate that a leg must pay at least, in
/// basis points.
pub const SLIPPAGE_TOLERANCE_BPS: u64 = 9000;

/// One arbitrage session: its latch and its running totals.
#[derive(Clone, Copy, PartialEq, Eq, Structural, Debug)]
pub struct ArbitrageBotState {
    pub owner: Identity,
    pub is_executing: bool,
    pub total_trades: u64,
    pub total_profit: u64,
}

/// Why the orchestrator rejected or abandoned a call.
#[derive(Clone, Copy, PartialEq, Eq, Structural, Debug)]
pub enum ErrorCode {
    /// The two legs earned less than the required profit.
    InsufficientProfit,
    /// The session is already executing.
    ReentrancyDetected,
    /// The loan amount is zero.
    InvalidLoanAmount,
    /// The required profit is zero.
    InvalidProfitRequirement,
    /// A checked operation left the 64-bit range.
    CalculationOverflow,
    /// A pool rejected a leg.
    SwapFailed(crate::mock_dex::ErrorCode),
}

impl ErrorCode {
    /// Where this rejection falls in the common taxonomy.
    pub open spec fn kind_of(self) -> ErrorKind {
        match self {
            ErrorCode::InsufficientProfit => ErrorKind::InsufficientProfit,
            ErrorCode::ReentrancyDetected => ErrorKind::ReentrancyDetected,
            ErrorCode::InvalidLoanAmount => ErrorKind::InvalidParameters,
            ErrorCode::InvalidProfitRequirement => ErrorKind::InvalidParameters,
            ErrorCode::CalculationOverflow => ErrorKind::ArithmeticOverflow,
            ErrorCode::SwapFailed(e) => e.kind_of(),
        }
    }

    /// Where this rejection falls in the common taxonomy.
    pub fn kind(&self) -> (k: ErrorKind)
        ensures
            k == self.kind_of(),
    {
        match self {
            ErrorCode::InsufficientProfit => ErrorKind::InsufficientProfit,
            ErrorCode::ReentrancyDetected => ErrorKind::ReentrancyDetected,
            ErrorCode::InvalidLoanAmount => ErrorKind::InvalidParameters,
            ErrorCode::InvalidProfitRequirement => ErrorKind::InvalidParameters,
            ErrorCode::CalculationOverflow => ErrorKind::ArithmeticOverflow,
            ErrorCode::SwapFailed(e) => e.kind(),
        }
    }
}

// ---------------------------------------------------------------------
// The pieces of a call
// ---------------------------------------------------------------------

/// Whether a call is let in, or the first reason why not: the latch, then
/// the loan amount, then the required profit.
pub open spec fn validation_outcome(
    arbitrage_bot: ArbitrageBotState,
    loan_amount: u64,
    min_expected_profit: u64,
) -> Result<(), ErrorCode> {
    if arbitrage_bot.is_executing {
        Err(ErrorCode::ReentrancyDetected)
    } else if loan_amount == 0 {
        Err(ErrorCode::InvalidLoanAmount)
    } else if min_expected_profit == 0 {
        Err(ErrorCode::InvalidProfitRequirement)
    } else {
        Ok(())
    }
}

/// The least that a leg must pay for `amount_in`: nine tenths of the input
/// after the pool's fee, each step rounded down. It fails where the input
/// times the fee factor leaves the 64-bit range.
pub open spec fn min_amount_out_of(amount_in: u64) -> Result<u64, ErrorCode> {
    if amount_in * 9970 > u64::MAX {
        Err(ErrorCode::CalculationOverflow)
    } else {
        Ok(((((amount_in * 9970) / 10000) * 9000) / 10000) as u64)
    }
}

/// What the two legs earned over the loan, and nothing where they lost.
pub open spec fn profit_of(x_final: u64, loan_amount: u64) -> u64 {
    if x_final >= loan_amount {
        (x_final - loan_amount) as u64
    } else {
        0
    }
}

impl ArbitrageBotState {
    /// Whether a call is let in: it passes validation, and the count of
    /// trades has room for one more.
    pub open spec fn admission(self, loan_amount: u64, min_expected_profit: u64) -> Result<(), ErrorCode> {
        match validation_outcome(self, loan_amount, min_expected_profit) {
            Err(e) => Err(e),
            Ok(()) => if self.total_trades == u64::MAX {
                Err(ErrorCode::CalculationOverflow)
            } else {
                Ok(())
            },
        }
    }

    /// The session once a call was let in: executing, and one more trade
    /// counted.
    pub open spec fn begun(self) -> ArbitrageBotState {
        ArbitrageBotState { is_executing: true, total_trades: (self.total_trades + 1) as u64, ..self }
    }

    /// The session with the latch released.
    pub open spec fn released(self) -> ArbitrageBotState {
        ArbitrageBotState { is_executing: false, ..self }
    }

    /// The profit that a call settles with when its legs brought back
    /// `x_final`, or why it does not settle: the profit is below the
    /// requirement, or the total of profits has no room for it.
    pub open spec fn settlement(self, x_final: u64, loan_amount: u64, min_expected_profit: u64) -> Result<
        u64,
        ErrorCode,
    > {
        let profit = profit_of(x_final, loan_amount);
        if profit < min_expected_profit {
            Err(ErrorCode::InsufficientProfit)
        } else if self.total_profit + profit > u64::MAX {
            Err(ErrorCode::CalculationOverflow)
        } else {
            Ok(profit)
        }
    }

    /// Decides whether a call is let in, without letting it in.
    pub fn admits(&self, loan_amount: u64, min_expected_profit: u64) -> (r: Result<(), ErrorCode>)
        ensures
            r == self.admission(loan_amount, min_expected_profit),
            self.is_executing ==> r == Err::<(), ErrorCode>(ErrorCode::ReentrancyDetected),
    {
        match ArbitrageHandler::validate_inputs(self, loan_amount, min_expected_profit) {
            Ok(()) => {},
            Err(e) => {
                return Err(e);
            },
        }
        if self.total_trades == u64::MAX {
            return Err(ErrorCode::CalculationOverflow);
        }
        Ok(())
    }

    /// Idle to executing. The latch is tested first: a session that is
    /// executing lets no call in and is left as it is. A call that is let
    /// in is counted as a trade there and then.
    pub fn begin(&mut self, loan_amount: u64, min_expected_profit: u64) -> (r: Result<(), ErrorCode>)
        ensures
            r == old(self).admission(loan_amount, min_expected_profit),
            r is Ok ==> *final(self) == old(self).begun(),
            r is Err ==> *final(self) == *old(self),
            old(self).is_executing ==> r == Err::<(), ErrorCode>(ErrorCode::ReentrancyDetected),
    {
        match self.admits(loan_amount, min_expected_profit) {
            Ok(()) => {},
            Err(e) => {
                return Err(e);
            },
        }
        self.is_executing = true;
        self.total_trades = self.total_trades + 1;
        Ok(())
    }

    /// Executing to idle, with the profit of the call added to the total
    /// where the call settles. The latch is released on either path.
    pub fn settle(&mut self, x_final: u64, loan_amount: u64, min_expected_profit: u64) -> (r: Result<
        u64,
        ErrorCode,
    >)
        ensures
            r == old(self).settlement(x_final, loan_amount, min_expected_profit),
            r matches Ok(profit) ==> *final(self) == (ArbitrageBotState {
                total_profit: (old(self).total_profit + profit) as u64,
                ..old(self).released()
            }) && profit >= min_expected_profit,
            r is Err ==> *final(self) == old(self).released(),
            !final(self).is_executing,
    {
        self.is_executing = false;
        let actual_profit = x_final.saturating_sub(loan_amount);
        if actual_profit < min_expected_profit {
            return Err(ErrorCode::InsufficientProfit);
        }
        let total_profit = match self.total_profit.checked_add(actual_profit) {
            Some(v) => v,
            None => {
                return Err(ErrorCode::CalculationOverflow);
            },
        };
        self.total_profit = total_profit;
        Ok(actual_profit)
    }

    /// Executing to idle, with nothing else changed: the way out of a call
    /// that failed.
    pub fn release(&mut self)
        ensures
            *final(self) == old(self).released(),
    {
        self.is_executing = false;
    }
}

/// Reentrancy: while a call that was let in is in flight, the session lets
/// no second call in, whatever its arguments, and the second call leaves
/// the session as it is.
pub proof fn lemma_session_in_flight_rejects(
    session: ArbitrageBotState,
    loan_amount: u64,
    min_expected_profit: u64,
    second_loan_amount: u64,
    second_min_expected_profit: u64,
)
    requires
        session.admission(loan_amount, min_expected_profit) is Ok,
    ensures
        session.begun().is_executing,
        session.begun().admission(second_loan_amount, second_min_expected_profit) == Err::<(), ErrorCode>(
            ErrorCode::ReentrancyDetected,
        ),
        validation_outcome(session.begun(), second_loan_amount, second_min_expected_profit) == Err::<
            (),
            ErrorCode,
        >(ErrorCode::ReentrancyDetected),
{
}

/// A session is idle again once the call that latched it has left, by
/// either way out, and then admits calls as before.
pub proof fn lemma_session_idle_after_call(session: ArbitrageBotState, loan_amount: u64, min_expected_profit: u64)
    requires
        session.admission(loan_amount, min_expected_profit) is Ok,
    ensures
        !session.begun().released().is_executing,
        session.begun().released().total_trades == session.total_trades + 1,
        session.begun().released().total_profit == session.total_profit,
        validation_outcome(session.begun().released(), loan_amount, min_expected_profit) is Ok,
{
}

/// What one leg pays, or why it fails: the pool's own answer to a swap
/// under the pool's name, wrapped.
pub open spec fn leg_outcome(leg: Swap, amount_in: u64, min_amount_out: u64) -> Result<u64, ErrorCode> {
    match leg.outcome(amount_in, min_amount_out, leg.pool.name@) {
        Ok(paid) => Ok(paid),
        Err(e) => Err(ErrorCode::SwapFailed(e)),
    }
}

/// Everything one call reads and changes: the session, the two pools with
/// their vaults, the holding that pays the first leg, and the caller's
/// holdings of the two assets.
#[derive(Clone, Debug, PartialEq, Eq)]
pub struct ExecuteArbitrageAtomic {
    pub arbitrage_bot: ArbitrageBotState,
    pub dex_pool_a: MockDexPool,
    pub dex_a_token_x_vault: Holding,
    pub dex_a_token_y_vault: Holding,
    pub dex_pool_b: MockDexPool,
    pub dex_b_token_x_vault: Holding,
    pub dex_b_token_y_vault: Holding,
    pub token_in_account: Holding,
    pub user_token_x: Holding,
    pub user_token_y: Holding,
    pub payer: Identity,
}

impl ExecuteArbitrageAtomic {
    /// What the first leg works on: pool A, paid from the input holding.
    pub open spec fn first_leg(self) -> Swap {
        Swap {
            pool: self.dex_pool_a,
            token_in_account: self.token_in_account,
            token_x_vault: self.dex_a_token_x_vault,
            token_y_vault: self.dex_a_token_y_vault,
            user_token_x: self.user_token_x,
            user_token_y: self.user_token_y,
            user_authority: self.arbitrage_bot.owner,
        }
    }

    /// This state with the first leg's work put back.
    pub open spec fn with_first_leg(self, leg: Swap) -> ExecuteArbitrageAtomic {
        ExecuteArbitrageAtomic {
            dex_pool_a: leg.pool,
            token_in_account: leg.token_in_account,
            dex_a_token_x_vault: leg.token_x_vault,
            dex_a_token_y_vault: leg.token_y_vault,
            user_token_x: leg.user_token_x,
            user_token_y: leg.user_token_y,
            ..self
        }
    }

    /// What the second leg works on: pool B, paid from the caller's holding
    /// of Y.
    pub open spec fn second_leg(self) -> Swap {
        Swap {
            pool: self.dex_pool_b,
            token_in_account: self.user_token_y,
            token_x_vault: self.dex_b_token_x_vault,
            token_y_vault: self.dex_b_token_y_vault,
            user_token_x: self.user_token_x,
            user_token_y: self.user_token_y,
            user_authority: self.arbitrage_bot.owner,
        }
    }

    /// This state with the second leg's work put back: what is left in the
    /// paying holding is the caller's holding of Y.
    pub open spec fn with_second_leg(self, leg: Swap) -> ExecuteArbitrageAtomic {
        ExecuteArbitrageAtomic {
            dex_pool_b: leg.pool,
            dex_b_token_x_vault: leg.token_x_vault,
            dex_b_token_y_vault: leg.token_y_vault,
            user_token_x: leg.user_token_x,
            user_token_y: leg.token_in_account,
            ..self
        }
    }

    /// What the first leg pays in Y for `loan_amount` of X, or why it fails:
    /// the floor cannot be computed, the input holding is not of X, or pool
    /// A rejects the swap.
    pub open spec fn first_leg_outcome(self, loan_amount: u64) -> Result<u64, ErrorCode> {
        match min_amount_out_of(loan_amount) {
            Err(e) => Err(e),
            Ok(floor) => if self.token_in_account.mint != self.user_token_x.mint {
                Err(ErrorCode::SwapFailed(crate::mock_dex::ErrorCode::InvalidTokenInAccount))
            } else {
                leg_outcome(self.first_leg(), loan_amount, floor)
            },
        }
    }

    /// The state after a first leg that paid `paid`.
    pub open spec fn after_first_leg(self, loan_amount: u64, paid: u64) -> ExecuteArbitrageAtomic {
        self.with_first_leg(self.first_leg().applied(loan_amount, paid))
    }

    /// What the second leg pays in X for `token_y_amount` of Y, or why it
    /// fails: the floor cannot be computed, the two holdings of the caller
    /// are of one asset, or pool B rejects the swap.
    pub open spec fn second_leg_outcome(self, token_y_amount: u64) -> Result<u64, ErrorCode> {
        match min_amount_out_of(token_y_amount) {
            Err(e) => Err(e),
            Ok(floor) => if self.user_token_y.mint == self.user_token_x.mint {
                Err(ErrorCode::SwapFailed(crate::mock_dex::ErrorCode::InvalidTokenInAccount))
            } else {
                leg_outcome(self.second_leg(), token_y_amount, floor)
            },
        }
    }

    /// The state after a second leg that paid `paid`.
    pub open spec fn after_second_leg(self, token_y_amount: u64, paid: u64) -> ExecuteArbitrageAtomic {
        self.with_second_leg(self.second_leg().applied(token_y_amount, paid))
    }

    /// Whether a call is let in: it passes validation, and the count of
    /// trades has room for one more.
    pub open spec fn admission(self, loan_amount: u64, min_expected_profit: u64) -> Result<(), ErrorCode> {
        self.arbitrage_bot.admission(loan_amount, min_expected_profit)
    }

    /// What the two legs bring back in X for `loan_amount`, with the state
    /// that they leave, or why one of them fails.
    pub open spec fn route(self, loan_amount: u64) -> Result<(ExecuteArbitrageAtomic, u64), ErrorCode> {
        match self.first_leg_outcome(loan_amount) {
            Err(e) => Err(e),
            Ok(token_y_amount) => {
                let midway = self.after_first_leg(loan_amount, token_y_amount);
                match midway.second_leg_outcome(token_y_amount) {
                    Err(e) => Err(e),
                    Ok(x_final) => Ok((midway.after_second_leg(token_y_amount, x_final), x_final)),
                }
            },
        }
    }

    /// The profit of a call, or why it fails, in this order: admission, the
    /// two legs, the required profit, room in the total of profits.
    pub open spec fn outcome(self, loan_amount: u64, min_expected_profit: u64) -> Result<u64, ErrorCode> {
        match self.admission(loan_amount, min_expected_profit) {
            Err(e) => Err(e),
            Ok(()) => match self.route(loan_amount) {
                Err(e) => Err(e),
                Ok((_, x_final)) => self.arbitrage_bot.settlement(x_final, loan_amount, min_expected_profit),
            },
        }
    }

    /// This state with one more trade counted and the session idle.
    pub open spec fn counted(self) -> ExecuteArbitrageAtomic {
        ExecuteArbitrageAtomic {
            arbitrage_bot: ArbitrageBotState {
                is_executing: false,
                total_trades: (self.arbitrage_bot.total_trades + 1) as u64,
                ..self.arbitrage_bot
            },
            ..self
        }
    }

    /// The state that a call leaves.
    ///
    /// A call that is not let in changes nothing. A call that fails later
    /// counts as a trade and changes nothing else. A call that succeeds
    /// leaves what the two legs left, one more trade counted, and its profit
    /// added to the total.
    pub open spec fn settled(self, loan_amount: u64, min_expected_profit: u64) -> ExecuteArbitrageAtomic {
        if self.admission(loan_amount, min_expected_profit) is Err {
            self
        } else {
            match self.outcome(loan_amount, min_expected_profit) {
                Err(_) => self.counted(),
                Ok(profit) => {
                    let routed = self.route(loan_amount)->Ok_0.0;
                    ExecuteArbitrageAtomic {
                        arbitrage_bot: ArbitrageBotState {
                            is_executing: false,
                            total_trades: (self.arbitrage_bot.total_trades + 1) as u64,
                            total_profit: (self.arbitrage_bot.total_profit + profit) as u64,
                            owner: self.arbitrage_bot.owner,
                        },
                        ..routed
                    }
                },
            }
        }
    }

    /// A copy of this state.
    pub fn snapshot(&self) -> (copy: ExecuteArbitrageAtomic)
        ensures
            copy == *self,
    {
        ExecuteArbitrageAtomic {
            arbitrage_bot: self.arbitrage_bot,
            dex_pool_a: self.dex_pool_a.snapshot(),
            dex_a_token_x_vault: self.dex_a_token_x_vault,
            dex_a_token_y_vault: self.dex_a_token_y_vault,
            dex_pool_b: self.dex_pool_b.snapshot(),
            dex_b_token_x_vault: self.dex_b_token_x_vault,
            dex_b_token_y_vault: self.dex_b_token_y_vault,
            token_in_account: self.token_in_account,
            user_token_x: self.user_token_x,
            user_token_y: self.user_token_y,
            payer: self.payer,
        }
    }
}

/// The steps of a call.
pub struct ArbitrageHandler;

impl ArbitrageHandler {
    /// Decides whether a call is let in. A session that is executing turns
    /// every call away, whatever its arguments.
    pub fn validate_inputs(arbitrage_bot: &ArbitrageBotState, loan_amount: u64, min_expected_profit: u64) -> (r:
        Result<(), ErrorCode>)
        ensures
            r == validation_outcome(*arbitrage_bot, loan_amount, min_expected_profit),
            arbitrage_bot.is_executing ==> r == Err::<(), ErrorCode>(ErrorCode::ReentrancyDetected),
    {
        if arbitrage_bot.is_executing {
            return Err(ErrorCode::ReentrancyDetected);
        }
        if loan_amount == 0 {
            return Err(ErrorCode::InvalidLoanAmount);
        }
        if min_expected_profit == 0 {
            return Err(ErrorCode::InvalidProfitRequirement);
        }
        Ok(())
    }

    /// The least that a leg must pay for `amount_in`.
    pub fn calculate_min_amount_out(amount_in: u64) -> (r: Result<u64, ErrorCode>)
        ensures
            r == min_amount_out_of(amount_in),
            r matches Ok(floor) ==> floor <= amount_in,
    {
        let scaled = match amount_in.checked_mul(FEE_ADJUSTED_BPS) {
            Some(v) => v,
            None => {
                return Err(ErrorCode::CalculationOverflow);
            },
        };
        let estimated_out = scaled / 10000;
        let tolerated = match estimated_out.checked_mul(SLIPPAGE_TOLERANCE_BPS) {
            Some(v) => v,
            None => {
                return Err(ErrorCode::CalculationOverflow);
            },
        };
        Ok(tolerated / 10000)
    }

    /// Makes one swap on the pool of `leg`, under that pool's name, and
    /// returns what it paid. On failure `leg` is unchanged.
    pub fn perform_swap(leg: &mut Swap, amount_in: u64, min_amount_out: u64, now: i64) -> (r: Result<
        u64,
        ErrorCode,
    >)
        ensures
            r == leg_outcome(*old(leg), amount_in, min_amount_out),
            r matches Ok(paid) ==> *final(leg) == old(leg).applied(amount_in, paid),
            r is Err ==> *final(leg) == *old(leg),
    {
        let pool_name = leg.pool.name.clone();
        match swap(leg, amount_in, min_amount_out, pool_name, now) {
            Ok(event) => Ok(event.amount_out),
            Err(e) => Err(ErrorCode::SwapFailed(e)),
        }
    }

    /// The first leg: `loan_amount` of X into pool A for Y. Returns the Y
    /// received. On failure nothing changes.
    pub fn execute_first_swap(ctx: &mut ExecuteArbitrageAtomic, loan_amount: u64, now: i64) -> (r: Result<
        u64,
        ErrorCode,
    >)
        ensures
            r == old(ctx).first_leg_outcome(loan_amount),
            r matches Ok(paid) ==> *final(ctx) == old(ctx).after_first_leg(loan_amount, paid),
            r is Err ==> *final(ctx) == *old(ctx),
    {
        let min_amount_out = match Self::calculate_min_amount_out(loan_amount) {
            Ok(v) => v,
            Err(e) => {
                return Err(e);
            },
        };
        if ctx.token_in_account.mint != ctx.user_token_x.mint {
            return Err(ErrorCode::SwapFailed(crate::mock_dex::ErrorCode::InvalidTokenInAccount));
        }
        let mut leg = Swap {
            pool: ctx.dex_pool_a.snapshot(),
            token_in_account: ctx.token_in_account,
            token_x_vault: ctx.dex_a_token_x_vault,
            token_y_vault: ctx.dex_a_token_y_vault,
            user_token_x: ctx.user_token_x,
            user_token_y: ctx.user_token_y,
            user_authority: ctx.arbitrage_bot.owner,
        };
        let paid = match Self::perform_swap(&mut leg, loan_amount, min_amount_out, now) {
            Ok(v) => v,
            Err(e) => {
                return Err(e);
            },
        };
        ctx.dex_pool_a.x_balance = leg.pool.x_balance;
        ctx.dex_pool_a.y_balance = leg.pool.y_balance;
        ctx.token_in_account = leg.token_in_account;
        ctx.dex_a_token_x_vault = leg.token_x_vault;
        ctx.dex_a_token_y_vault = leg.token_y_vault;
        ctx.user_token_x = leg.user_token_x;
        ctx.user_token_y = leg.user_token_y;
        Ok(paid)
    }

    /// The second leg: `token_y_amount` of Y into pool B for X. Returns the
    /// X received. On failure nothing changes.
    pub fn execute_second_swap(ctx: &mut ExecuteArbitrageAtomic, token_y_amount: u64, now: i64) -> (r: Result<
        u64,
        ErrorCode,
    >)
        ensures
            r == old(ctx).second_leg_outcome(token_y_amount),
            r matches Ok(paid) ==> *final(ctx) == old(ctx).after_second_leg(token_y_amount, paid),
            r is Err ==> *final(ctx) == *old(ctx),
    {
        let min_amount_out = match Self::calculate_min_amount_out(token_y_amount) {
            Ok(v) => v,
            Err(e) => {
                return Err(e);
            },
        };
        if ctx.user_token_y.mint == ctx.user_token_x.mint {
            return Err(ErrorCode::SwapFailed(crate::mock_dex::ErrorCode::InvalidTokenInAccount));
        }
        let mut leg = Swap {
            pool: ctx.dex_pool_b.snapshot(),
            token_in_account: ctx.user_token_y,
            token_x_vault: ctx.dex_b_token_x_vault,
            token_y_vault: ctx.dex_b_token_y_vault,
            user_token_x: ctx.user_token_x,
            user_token_y: ctx.user_token_y,
            user_authority: ctx.arbitrage_bot.owner,
        };
        let paid = match Self::perform_swap(&mut leg, token_y_amount, min_amount_out, now) {
            Ok(v) => v,
            Err(e) => {
                return Err(e);
            },
        };
        ctx.dex_pool_b.x_balance = leg.pool.x_balance;
        ctx.dex_pool_b.y_balance = leg.pool.y_balance;
        ctx.dex_b_token_x_vault = leg.token_x_vault;
        ctx.dex_b_token_y_vault = leg.token_y_vault;
        ctx.user_token_x = leg.user_token_x;
        ctx.user_token_y = leg.token_in_account;
        Ok(paid)
    }

    /// Puts back what a call found, counts the trade, and releases the
    /// latch.
    fn abandon(ctx: &mut ExecuteArbitrageAtomic, found: ExecuteArbitrageAtomic)
        requires
            found.arbitrage_bot.total_trades < u64::MAX,
        ensures
            *final(ctx) == found.counted(),
    {
        *ctx = found;
        ctx.arbitrage_bot.total_trades = ctx.arbitrage_bot.total_trades + 1;
        ctx.arbitrage_bot.release();
    }
}

/// Routes `loan_amount` of X through pool A and pool B and returns the
/// profit in X, which is at least `min_expected_profit`.
///
/// The session is latched for the length of the call: a call on a session
/// that is executing fails with `ReentrancyDetected` and changes nothing. A
/// call that was let in leaves the session idle on every path, and counts as
/// a trade even where it fails; where it fails, pools and holdings are as
/// they were.
pub fn execute_arbitrage_atomic(
    ctx: &mut ExecuteArbitrageAtomic,
    loan_amount: u64,
    min_expected_profit: u64,
    now: i64,
) -> (r: Result<u64, ErrorCode>)
    ensures
        r == old(ctx).outcome(loan_amount, min_expected_profit),
        *final(ctx) == old(ctx).settled(loan_amount, min_expected_profit),
        old(ctx).arbitrage_bot.is_executing ==> r == Err::<u64, ErrorCode>(ErrorCode::ReentrancyDetected)
            && *final(ctx) == *old(ctx),
        !old(ctx).arbitrage_bot.is_executing ==> !final(ctx).arbitrage_bot.is_executing,
        r matches Ok(profit) ==> profit >= min_expected_profit,
        r matches Ok(profit) ==> final(ctx).arbitrage_bot.total_profit == old(ctx).arbitrage_bot.total_profit
            + profit,
        old(ctx).admission(loan_amount, min_expected_profit) is Ok ==> final(ctx).arbitrage_bot.total_trades
            == old(ctx).arbitrage_bot.total_trades + 1,
        old(ctx).admission(loan_amount, min_expected_profit) is Err ==> *final(ctx) == *old(ctx),
        final(ctx).arbitrage_bot.total_trades >= old(ctx).arbitrage_bot.total_trades,
        final(ctx).arbitrage_bot.total_profit >= old(ctx).arbitrage_bot.total_profit,
        r is Err ==> *final(ctx) == (ExecuteArbitrageAtomic {
            arbitrage_bot: final(ctx).arbitrage_bot,
            ..*old(ctx)
        }),
{
    let found = ctx.snapshot();

    // The latch and the count, before any funds move.
    match ctx.arbitrage_bot.begin(loan_amount, min_expected_profit) {
        Ok(()) => {},
        Err(e) => {
            return Err(e);
        },
    }

    // The two legs.
    let token_y_amount = match ArbitrageHandler::execute_first_swap(ctx, loan_amount, now) {
        Ok(v) => v,
        Err(e) => {
            ArbitrageHandler::abandon(ctx, found);
            return Err(e);
        },
    };
    let x_final = match ArbitrageHandler::execute_second_swap(ctx, token_y_amount, now) {
        Ok(v) => v,
        Err(e) => {
            ArbitrageHandler::abandon(ctx, found);
            return Err(e);
        },
    };

    // The profit, and the way out.
    match ctx.arbitrage_bot.settle(x_final, loan_amount, min_expected_profit) {
        Ok(actual_profit) => Ok(actual_profit),
        Err(e) => {
            ArbitrageHandler::abandon(ctx, found);
            Err(e)
        },
    }
}

/// Runs `execute_arbitrage_atomic` at the time of the host's clock.
///
/// Admission is decided before the host is asked for the time: a call that
/// is not let in, a call on an executing session among them, is turned away
/// whatever the clock does, and changes nothing. For a call that is let in
/// the clock is read. Where it cannot be read nothing changes, and no trade
/// is counted; otherwise the result and the state are those of
/// `execute_arbitrage_atomic`, which do not depend on the time.
pub fn execute_arbitrage_atomic_now(ctx: &mut ExecuteArbitrageAtomic, loan_amount: u64, min_expected_profit: u64) -> (r:
    Result<Result<u64, ErrorCode>, HostError>)
    ensures
        old(ctx).admission(loan_amount, min_expected_profit) matches Err(e) ==> r == Ok::<
            Result<u64, ErrorCode>,
            HostError,
        >(Err(e)) && *final(ctx) == *old(ctx),
        r is Err ==> old(ctx).admission(loan_amount, min_expected_profit) is Ok && *final(ctx) == *old(ctx),
        r matches Ok(inner) ==> inner == old(ctx).outcome(loan_amount, min_expected_profit) && *final(ctx) == old(
            ctx,
        ).settled(loan_amount, min_expected_profit),
        old(ctx).arbitrage_bot.is_executing ==> r == Ok::<Result<u64, ErrorCode>, HostError>(
            Err(ErrorCode::ReentrancyDetected),
        ) && *final(ctx) == *old(ctx),
        !old(ctx).arbitrage_bot.is_executing ==> !final(ctx).arbitrage_bot.is_executing,
        r matches Ok(Ok(profit)) ==> profit >= min_expected_profit,
{
    match ctx.arbitrage_bot.admits(loan_amount, min_expected_profit) {
        Ok(()) => {},
        Err(e) => {
            return Ok(Err(e));
        },
    }
    match host_time() {
        Ok(now) => Ok(execute_arbitrage_atomic(ctx, loan_amount, min_expected_profit, now)),
        Err(e) => Err(e),
    }
}

} // verus!
