//! Administration of the loan pool: seeding, reporting, and the two
//! operations reserved to its authority.

use vstd::prelude::*;
use crate::shared::{unsigned_of, to_unsigned, utilization_of, ErrorKind, Identity, MockPoolState, PoolStatus, MAX_FEE_BPS};
use crate::custody::{can_pay, can_receive, move_balance, Wallet};
use crate::clock::{host_time, HostError};

verus! {

/// Why the loan pool rejected a request.
#[derive(Clone, Copy, PartialEq, Eq, Structural, Debug)]
pub enum PoolError {
    /// The authority cannot cover the seed balance.
    InsufficientFunds,
    /// The fee rate is above the limit.
    InvalidFeeRate,
    /// The seed balance is zero.
    InvalidInitialBalance,
    /// The caller is not the pool's authority.
    InvalidAuthority,
    /// A checked operation left the 64-bit range.
    Overflow,
    /// A checked operation fell below zero.
    Underflow,
    /// The fee is no 64-bit number.
    FeeCalculationOverflow,
}

impl PoolError {
    /// Where this rejection falls in the common taxonomy.
    pub open spec fn kind_of(self) -> ErrorKind {
        match self {
            PoolError::InsufficientFunds => ErrorKind::InsufficientFunds,
            PoolError::InvalidFeeRate => ErrorKind::InvalidParameters,
            PoolError::InvalidInitialBalance => ErrorKind::InvalidParameters,
            PoolError::InvalidAuthority => ErrorKind::Unauthorized,
            PoolError::Overflow => ErrorKind::ArithmeticOverflow,
            PoolError::Underflow => ErrorKind::ArithmeticUnderflow,
            PoolError::FeeCalculationOverflow => ErrorKind::ArithmeticOverflow,
        }
    }

    /// Where this rejection falls in the common taxonomy.
    pub fn kind(&self) -> (k: ErrorKind)
        ensures
            k == self.kind_of(),
    {
        match self {
            PoolError::InsufficientFunds => ErrorKind::InsufficientFunds,
            PoolError::InvalidFeeRate => ErrorKind::InvalidParameters,
            PoolError::InvalidInitialBalance => ErrorKind::InvalidParameters,
            PoolError::InvalidAuthority => ErrorKind::Unauthorized,
            PoolError::Overflow => ErrorKind::ArithmeticOverflow,
            PoolError::Underflow => ErrorKind::ArithmeticUnderflow,
            PoolError::FeeCalculationOverflow => ErrorKind::ArithmeticOverflow,
        }
    }
}

/// Notification of a seeded loan pool.
#[derive(Clone, Copy, PartialEq, Eq, Structural, Debug)]
pub struct PoolInitialized {
    pub pool_id: u64,
    pub initial_balance: u64,
    pub fee_bps: u16,
    pub authority: Identity,
    pub timestamp: i64,
}

/// Notification of a change of status.
#[derive(Clone, Copy, PartialEq, Eq, Structural, Debug)]
pub struct PoolStatusChanged {
    pub pool_id: u64,
    pub old_status: PoolStatus,
    pub new_status: PoolStatus,
    pub authority: Identity,
    pub timestamp: i64,
}

/// What a pool reports of itself.
#[derive(Clone, Copy, PartialEq, Eq, Structural, Debug)]
pub struct PoolInfo {
    pub pool_id: u64,
    pub balance: u64,
    pub fee_bps: u16,
    pub authority: Identity,
    pub total_borrowed: u64,
    pub total_repaid: u64,
    pub active_loans: u64,
    pub status: PoolStatus,
    pub utilization_rate_bps: u64,
    pub can_lend: bool,
}

// ---------------------------------------------------------------------
// Seeding
// ---------------------------------------------------------------------

/// Everything the seeding of the loan pool reads and changes: the ledger,
/// the funds in the pool's custody, and the authority that pays the seed.
#[derive(Clone, Copy, PartialEq, Eq, Structural, Debug)]
pub struct Initialize {
    pub pool_state: MockPoolState,
    pub pool_lamports: u64,
    pub authority: Wallet,
    pub bump: u8,
}

impl Initialize {
    /// Whether the pool can be seeded, or the first reason why not, in this
    /// order: the rate, the seed balance, the authority's funds, room in the
    /// pool's custody.
    pub open spec fn outcome(self, initial_balance: u64, fee_bps: u16) -> Result<(), PoolError> {
        if fee_bps > MAX_FEE_BPS {
            Err(PoolError::InvalidFeeRate)
        } else if initial_balance == 0 {
            Err(PoolError::InvalidInitialBalance)
        } else if !can_pay(self.authority.lamports, initial_balance) {
            Err(PoolError::InsufficientFunds)
        } else if !can_receive(self.pool_lamports, initial_balance) {
            Err(PoolError::Overflow)
        } else {
            Ok(())
        }
    }

    /// The state after seeding: an active pool with the seed as its balance
    /// and no history, owned by the authority, and the seed moved from the
    /// authority into the pool's custody.
    pub open spec fn applied(self, initial_balance: u64, fee_bps: u16, now: i64) -> Initialize {
        Initialize {
            pool_state: MockPoolState {
                pool_id: unsigned_of(now),
                balance: initial_balance,
                fee_bps,
                authority: self.authority.key,
                total_borrowed: 0,
                total_repaid: 0,
                active_loans: 0,
                created_at: now,
                last_updated: now,
                status: PoolStatus::Active,
                bump: self.bump,
            },
            pool_lamports: (self.pool_lamports + initial_balance) as u64,
            authority: Wallet {
                key: self.authority.key,
                lamports: (self.authority.lamports - initial_balance) as u64,
            },
            bump: self.bump,
        }
    }

    /// Decides a seeding without making it. This is the whole of the check;
    /// a seeding that passes it goes through.
    pub fn check(&self, initial_balance: u64, fee_bps: u16) -> (r: Result<(), PoolError>)
        ensures
            r == self.outcome(initial_balance, fee_bps),
    {
        if fee_bps > MAX_FEE_BPS {
            return Err(PoolError::InvalidFeeRate);
        }
        if initial_balance == 0 {
            return Err(PoolError::InvalidInitialBalance);
        }
        if !self.authority.covers(initial_balance) {
            return Err(PoolError::InsufficientFunds);
        }
        if self.pool_lamports > u64::MAX - initial_balance {
            return Err(PoolError::Overflow);
        }
        Ok(())
    }

    /// What a seeding at the time `now` returns and leaves behind: where it
    /// is accepted, its notification and the state after it; where it is
    /// rejected, the reason and the state untouched.
    pub open spec fn seeded(
        self,
        after: Initialize,
        r: Result<PoolInitialized, PoolError>,
        initial_balance: u64,
        fee_bps: u16,
        now: i64,
    ) -> bool {
        match self.outcome(initial_balance, fee_bps) {
            Ok(()) => {
                &&& r == Ok::<PoolInitialized, PoolError>(
                    PoolInitialized {
                        pool_id: unsigned_of(now),
                        initial_balance,
                        fee_bps,
                        authority: self.authority.key,
                        timestamp: now,
                    },
                )
                &&& after == self.applied(initial_balance, fee_bps, now)
            },
            Err(e) => r == Err::<PoolInitialized, PoolError>(e) && after == self,
        }
    }
}

/// Seeds the loan pool, or changes nothing.
pub fn initialize(ctx: &mut Initialize, initial_balance: u64, fee_bps: u16, now: i64) -> (r: Result<
    PoolInitialized,
    PoolError,
>)
    ensures
        old(ctx).seeded(*final(ctx), r, initial_balance, fee_bps, now),
        r is Ok <==> old(ctx).outcome(initial_balance, fee_bps) is Ok,
        r is Ok ==> final(ctx).pool_state.wf(),
        r is Err ==> *final(ctx) == *old(ctx),
{
    // The checks, all of them, before anything changes.
    match ctx.check(initial_balance, fee_bps) {
        Ok(()) => {},
        Err(e) => {
            return Err(e);
        },
    }
    let pool_id = to_unsigned(now);
    ctx.pool_state = MockPoolState {
        pool_id,
        balance: initial_balance,
        fee_bps,
        authority: ctx.authority.key,
        total_borrowed: 0,
        total_repaid: 0,
        active_loans: 0,
        created_at: now,
        last_updated: now,
        status: PoolStatus::Active,
        bump: ctx.bump,
    };
    let moved = move_balance(&mut ctx.authority.lamports, &mut ctx.pool_lamports, initial_balance);
    if moved.is_err() {
        return Err(PoolError::InsufficientFunds);
    }
    Ok(
        PoolInitialized {
            pool_id,
            initial_balance,
            fee_bps,
            authority: ctx.authority.key,
            timestamp: now,
        },
    )
}

/// Seeds the loan pool at the time of the host's clock.
///
/// The seeding is checked before the host is asked for the time: a seeding
/// that is rejected is rejected whatever the clock does, and changes
/// nothing. For a seeding that passes the check the clock is read. Where it
/// cannot be read nothing changes; otherwise there is a time for which the
/// result and the state are those of `initialize`.
pub fn initialize_now(ctx: &mut Initialize, initial_balance: u64, fee_bps: u16) -> (r: Result<
    Result<PoolInitialized, PoolError>,
    HostError,
>)
    ensures
        old(ctx).outcome(initial_balance, fee_bps) matches Err(e) ==> r == Ok::<
            Result<PoolInitialized, PoolError>,
            HostError,
        >(Err(e)) && *final(ctx) == *old(ctx),
        r is Err ==> old(ctx).outcome(initial_balance, fee_bps) is Ok && *final(ctx) == *old(ctx),
        r matches Ok(inner) ==> exists|now: i64| #[trigger]
            old(ctx).seeded(*final(ctx), inner, initial_balance, fee_bps, now),
        r matches Ok(inner) ==> (inner is Ok <==> old(ctx).outcome(initial_balance, fee_bps) is Ok),
        r matches Ok(Ok(_)) ==> final(ctx).pool_state.wf(),
{
    match ctx.check(initial_balance, fee_bps) {
        Ok(()) => {},
        Err(e) => {
            let rejected = Ok(Err(e));
            assert(old(ctx).seeded(*ctx, Err(e), initial_balance, fee_bps, 0));
            return rejected;
        },
    }
    match host_time() {
        Ok(now) => Ok(initialize(ctx, initial_balance, fee_bps, now)),
        Err(e) => Err(e),
    }
}

// ---------------------------------------------------------------------
// Reporting
// ---------------------------------------------------------------------

/// What a report on the pool reads.
#[derive(Clone, Copy, PartialEq, Eq, Structural, Debug)]
pub struct GetPoolInfo {
    pub pool_state: MockPoolState,
}

/// Reports the ledger of the pool with its utilization and whether it
/// lends.
pub fn get_pool_info(ctx: &GetPoolInfo) -> (info: PoolInfo)
    ensures
        info == (PoolInfo {
            pool_id: ctx.pool_state.pool_id,
            balance: ctx.pool_state.balance,
            fee_bps: ctx.pool_state.fee_bps,
            authority: ctx.pool_state.authority,
            total_borrowed: ctx.pool_state.total_borrowed,
            total_repaid: ctx.pool_state.total_repaid,
            active_loans: ctx.pool_state.active_loans,
            status: ctx.pool_state.status,
            utilization_rate_bps: utilization_of(ctx.pool_state.balance, ctx.pool_state.total_borrowed) as u64,
            can_lend: ctx.pool_state.status == PoolStatus::Active,
        }),
{
    let pool_state = &ctx.pool_state;
    PoolInfo {
        pool_id: pool_state.pool_id,
        balance: pool_state.balance,
        fee_bps: pool_state.fee_bps,
        authority: pool_state.authority,
        total_borrowed: pool_state.total_borrowed,
        total_repaid: pool_state.total_repaid,
        active_loans: pool_state.active_loans,
        status: pool_state.status,
        utilization_rate_bps: pool_state.get_utilization_rate(),
        can_lend: pool_state.can_lend(),
    }
}

// ---------------------------------------------------------------------
// Pause and resume
// ---------------------------------------------------------------------

/// What an emergency stop reads and changes.
#[derive(Clone, Copy, PartialEq, Eq, Structural, Debug)]
pub struct EmergencyPause {
    pub pool_state: MockPoolState,
    pub authority: Identity,
}

/// What a resumption reads and changes.
#[derive(Clone, Copy, PartialEq, Eq, Structural, Debug)]
pub struct ResumePool {
    pub pool_state: MockPoolState,
    pub authority: Identity,
}

/// The ledger with another status, changed at `now`.
pub open spec fn with_status(pool_state: MockPoolState, status: PoolStatus, now: i64) -> MockPoolState {
    MockPoolState { status, last_updated: now, ..pool_state }
}

/// Whether `caller` may change the status of the pool: only the pool's
/// authority may.
pub open spec fn permission(pool_state: MockPoolState, caller: Identity) -> Result<(), PoolError> {
    if pool_state.authority == caller {
        Ok(())
    } else {
        Err(PoolError::InvalidAuthority)
    }
}

/// Tests whether `caller` may change the status of the pool.
pub fn check_permission(pool_state: &MockPoolState, caller: Identity) -> (r: Result<(), PoolError>)
    ensures
        r == permission(*pool_state, caller),
{
    if pool_state.authority != caller {
        return Err(PoolError::InvalidAuthority);
    }
    Ok(())
}

impl EmergencyPause {
    /// What an emergency stop at the time `now` returns and leaves behind.
    /// For the pool's authority: the pool stopped, the time noted, and a
    /// notification that names `Active` as the status left behind, whatever
    /// it was. For anyone else: a rejection, and nothing changed.
    pub open spec fn paused(self, after: EmergencyPause, r: Result<PoolStatusChanged, PoolError>, now: i64) -> bool {
        if permission(self.pool_state, self.authority) is Ok {
            &&& r == Ok::<PoolStatusChanged, PoolError>(
                PoolStatusChanged {
                    pool_id: self.pool_state.pool_id,
                    old_status: PoolStatus::Active,
                    new_status: PoolStatus::Emergency,
                    authority: self.authority,
                    timestamp: now,
                },
            )
            &&& after.pool_state == with_status(self.pool_state, PoolStatus::Emergency, now)
            &&& after.authority == self.authority
        } else {
            &&& r == Err::<PoolStatusChanged, PoolError>(PoolError::InvalidAuthority)
            &&& after == self
        }
    }
}

impl ResumePool {
    /// What a resumption at the time `now` returns and leaves behind. For
    /// the pool's authority: the pool active, the time noted, and a
    /// notification that names the status that the pool had. For anyone
    /// else: a rejection, and nothing changed.
    pub open spec fn resumed(self, after: ResumePool, r: Result<PoolStatusChanged, PoolError>, now: i64) -> bool {
        if permission(self.pool_state, self.authority) is Ok {
            &&& r == Ok::<PoolStatusChanged, PoolError>(
                PoolStatusChanged {
                    pool_id: self.pool_state.pool_id,
                    old_status: self.pool_state.status,
                    new_status: PoolStatus::Active,
                    authority: self.authority,
                    timestamp: now,
                },
            )
            &&& after.pool_state == with_status(self.pool_state, PoolStatus::Active, now)
            &&& after.authority == self.authority
        } else {
            &&& r == Err::<PoolStatusChanged, PoolError>(PoolError::InvalidAuthority)
            &&& after == self
        }
    }
}

/// Stops the pool in an emergency. Only the pool's authority may do so;
/// for anyone else nothing changes. The notification names `Active` as the
/// status left behind, whatever it was.
pub fn emergency_pause(ctx: &mut EmergencyPause, now: i64) -> (r: Result<PoolStatusChanged, PoolError>)
    ensures
        old(ctx).paused(*final(ctx), r, now),
        r is Ok <==> old(ctx).pool_state.authority == old(ctx).authority,
        r is Ok ==> final(ctx).pool_state.status == PoolStatus::Emergency,
        r is Err ==> *final(ctx) == *old(ctx),
{
    match check_permission(&ctx.pool_state, ctx.authority) {
        Ok(()) => {},
        Err(e) => {
            return Err(e);
        },
    }
    ctx.pool_state.status = PoolStatus::Emergency;
    ctx.pool_state.update_timestamp(now);
    Ok(
        PoolStatusChanged {
            pool_id: ctx.pool_state.pool_id,
            old_status: PoolStatus::Active,
            new_status: PoolStatus::Emergency,
            authority: ctx.authority,
            timestamp: now,
        },
    )
}

/// Sets the pool lending again. Only the pool's authority may do so; for
/// anyone else nothing changes. The notification names the status that the
/// pool had.
pub fn resume_pool(ctx: &mut ResumePool, now: i64) -> (r: Result<PoolStatusChanged, PoolError>)
    ensures
        old(ctx).resumed(*final(ctx), r, now),
        r is Ok <==> old(ctx).pool_state.authority == old(ctx).authority,
        r is Ok ==> final(ctx).pool_state.status == PoolStatus::Active,
        r is Err ==> *final(ctx) == *old(ctx),
{
    match check_permission(&ctx.pool_state, ctx.authority) {
        Ok(()) => {},
        Err(e) => {
            return Err(e);
        },
    }
    let old_status = ctx.pool_state.status;
    ctx.pool_state.status = PoolStatus::Active;
    ctx.pool_state.update_timestamp(now);
    Ok(
        PoolStatusChanged {
            pool_id: ctx.pool_state.pool_id,
            old_status,
            new_status: PoolStatus::Active,
            authority: ctx.authority,
            timestamp: now,
        },
    )
}

/// Stops the pool in an emergency at the time of the host's clock.
///
/// The caller is tested before the host is asked for the time: anyone but
/// the pool's authority is turned away whatever the clock does, and nothing
/// changes. For the authority the clock is read. Where it cannot be read
/// nothing changes; otherwise there is a time for which the result and the
/// state are those of `emergency_pause`.
pub fn emergency_pause_now(ctx: &mut EmergencyPause) -> (r: Result<Result<PoolStatusChanged, PoolError>, HostError>)
    ensures
        permission(old(ctx).pool_state, old(ctx).authority) matches Err(e) ==> r == Ok::<
            Result<PoolStatusChanged, PoolError>,
            HostError,
        >(Err(e)) && *final(ctx) == *old(ctx),
        r is Err ==> permission(old(ctx).pool_state, old(ctx).authority) is Ok && *final(ctx) == *old(ctx),
        r matches Ok(inner) ==> exists|now: i64| #[trigger] old(ctx).paused(*final(ctx), inner, now),
        r matches Ok(inner) ==> (inner is Ok <==> old(ctx).pool_state.authority == old(ctx).authority),
        r matches Ok(Ok(_)) ==> final(ctx).pool_state.status == PoolStatus::Emergency,
{
    match check_permission(&ctx.pool_state, ctx.authority) {
        Ok(()) => {},
        Err(e) => {
            let rejected = Ok(Err(e));
            assert(old(ctx).paused(*ctx, Err(e), 0));
            return rejected;
        },
    }
    match host_time() {
        Ok(now) => Ok(emergency_pause(ctx, now)),
        Err(e) => Err(e),
    }
}

/// Sets the pool lending again at the time of the host's clock.
///
/// The caller is tested before the host is asked for the time: anyone but
/// the pool's authority is turned away whatever the clock does, and nothing
/// changes. For the authority the clock is read. Where it cannot be read
/// nothing changes; otherwise there is a time for which the result and the
/// state are those of `resume_pool`.
pub fn resume_pool_now(ctx: &mut ResumePool) -> (r: Result<Result<PoolStatusChanged, PoolError>, HostError>)
    ensures
        permission(old(ctx).pool_state, old(ctx).authority) matches Err(e) ==> r == Ok::<
            Result<PoolStatusChanged, PoolError>,
            HostError,
        >(Err(e)) && *final(ctx) == *old(ctx),
        r is Err ==> permission(old(ctx).pool_state, old(ctx).authority) is Ok && *final(ctx) == *old(ctx),
        r matches Ok(inner) ==> exists|now: i64| #[trigger] old(ctx).resumed(*final(ctx), inner, now),
        r matches Ok(inner) ==> (inner is Ok <==> old(ctx).pool_state.authority == old(ctx).authority),
        r matches Ok(Ok(_)) ==> final(ctx).pool_state.status == PoolStatus::Active,
{
    match check_permission(&ctx.pool_state, ctx.authority) {
        Ok(()) => {},
        Err(e) => {
            let rejected = Ok(Err(e));
            assert(old(ctx).resumed(*ctx, Err(e), 0));
            return rejected;
        },
    }
    match host_time() {
        Ok(now) => Ok(resume_pool(ctx, now)),
        Err(e) => Err(e),
    }
}

} // verus!
