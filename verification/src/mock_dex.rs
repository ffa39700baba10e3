//! The pool engine: one pair of reserves per pool, seeded once and then
//! changed only by swaps along the constant-product curve.

use vstd::prelude::*;
use vstd::utf8::encode_utf8;
use crate::shared::{ErrorKind, Identity, BPS_DENOMINATOR};
use crate::clock::{host_time, HostError};
use crate::custody::{can_pay, can_receive, transfer, Holding};
use crate::curve::{
    amount_out, lemma_amount_out_below_reserve, lemma_price_impact_bounded, lemma_product_grows,
    price_bps, price_impact_bps, quote_fits, SWAP_NET_BPS,
};

verus! {

/// The longest pool name, in bytes.
pub const MAX_POOL_NAME_BYTES: usize = 32;

/// The ledger of one pool: what it holds of each asset, and its name.
#[derive(Clone, Debug, PartialEq, Eq)]
pub struct MockDexPool {
    pub x_balance: u64,
    pub y_balance: u64,
    pub name: String,
}

impl MockDexPool {
    /// A seeded pool holds something of both assets. Seeding establishes
    /// this and every swap keeps it.
    pub open spec fn is_seeded(self) -> bool {
        self.x_balance > 0 && self.y_balance > 0
    }

    /// A copy of this ledger.
    pub fn snapshot(&self) -> (copy: MockDexPool)
        ensures
            copy == *self,
    {
        MockDexPool { x_balance: self.x_balance, y_balance: self.y_balance, name: self.name.clone() }
    }
}

/// Notification of a completed swap.
#[derive(Clone, Debug, PartialEq, Eq)]
pub struct SwapExecuted {
    pub pool_name: String,
    pub amount_in: u64,
    pub amount_out: u64,
    pub price_impact_bps: u64,
    pub user: Identity,
    pub timestamp: i64,
}

/// Notification of a seeded pool.
#[derive(Clone, Debug, PartialEq, Eq)]
pub struct PoolInitialized {
    pub pool_name: String,
    pub initial_x_amount: u64,
    pub initial_y_amount: u64,
    pub initializer: Identity,
    pub timestamp: i64,
}

/// Why the pool engine rejected a request.
#[derive(Clone, Copy, PartialEq, Eq, Structural, Debug)]
pub enum ErrorCode {
    /// The pool name is empty or too long.
    InvalidPoolName,
    /// A reserve is empty, or the swap would empty one.
    InsufficientLiquidity,
    /// The output is below the caller's floor.
    SlippageTooHigh,
    /// The input holding is of neither asset of the pair.
    InvalidTokenInAccount,
    /// A checked operation left the 64-bit range.
    Overflow,
    /// A checked operation fell below zero, or divided by zero.
    Underflow,
    /// A source holding does not belong to the caller.
    InvalidTokenAccountOwner,
    /// The caller does not control the pool.
    InvalidPoolAuthority,
    /// An amount is zero.
    InvalidAmount,
    /// A holding or a vault cannot cover what it has to pay.
    InsufficientFunds,
}

impl ErrorCode {
    /// Where this rejection falls in the common taxonomy.
    pub open spec fn kind_of(self) -> ErrorKind {
        match self {
            ErrorCode::InvalidPoolName => ErrorKind::InvalidParameters,
            ErrorCode::InsufficientLiquidity => ErrorKind::InsufficientLiquidity,
            ErrorCode::SlippageTooHigh => ErrorKind::SlippageExceeded,
            ErrorCode::InvalidTokenInAccount => ErrorKind::InvalidParameters,
            ErrorCode::Overflow => ErrorKind::ArithmeticOverflow,
            ErrorCode::Underflow => ErrorKind::ArithmeticUnderflow,
            ErrorCode::InvalidTokenAccountOwner => ErrorKind::Unauthorized,
            ErrorCode::InvalidPoolAuthority => ErrorKind::Unauthorized,
            ErrorCode::InvalidAmount => ErrorKind::InvalidParameters,
            ErrorCode::InsufficientFunds => ErrorKind::InsufficientFunds,
        }
    }

    /// Where this rejection falls in the common taxonomy.
    pub fn kind(&self) -> (k: ErrorKind)
        ensures
            k == self.kind_of(),
    {
        match self {
            ErrorCode::InvalidPoolName => ErrorKind::InvalidParameters,
            ErrorCode::InsufficientLiquidity => ErrorKind::InsufficientLiquidity,
            ErrorCode::SlippageTooHigh => ErrorKind::SlippageExceeded,
            ErrorCode::InvalidTokenInAccount => ErrorKind::InvalidParameters,
            ErrorCode::Overflow => ErrorKind::ArithmeticOverflow,
            ErrorCode::Underflow => ErrorKind::ArithmeticUnderflow,
            ErrorCode::InvalidTokenAccountOwner => ErrorKind::Unauthorized,
            ErrorCode::InvalidPoolAuthority => ErrorKind::Unauthorized,
            ErrorCode::InvalidAmount => ErrorKind::InvalidParameters,
            ErrorCode::InsufficientFunds => ErrorKind::InsufficientFunds,
        }
    }
}

/// A pool name is valid when it is not empty and its UTF-8 encoding has at
/// most `MAX_POOL_NAME_BYTES` bytes.
pub open spec fn valid_pool_name(name: Seq<char>) -> bool {
    name.len() > 0 && encode_utf8(name).len() <= MAX_POOL_NAME_BYTES
}

/// Tests a pool name.
pub fn is_valid_pool_name(name: &str) -> (b: bool)
    ensures
        b == valid_pool_name(name@),
{
    !name.is_empty() && name.as_bytes().len() <= MAX_POOL_NAME_BYTES
}

// ---------------------------------------------------------------------
// Quoting
// ---------------------------------------------------------------------

/// What the curve pays for `amount_in`, or why it pays nothing. An empty
/// reserve is reported first, then an intermediate value that leaves the
/// 64-bit range, then an output below `min_amount_out`. An output that
/// would empty the output reserve is no case of its own: on positive
/// reserves there is none (`lemma_quote_conserves`).
pub open spec fn quote_outcome(
    reserve_in: u64,
    reserve_out: u64,
    amount_in: u64,
    min_amount_out: u64,
) -> Result<u64, ErrorCode> {
    if reserve_in == 0 || reserve_out == 0 {
        Err(ErrorCode::InsufficientLiquidity)
    } else if !quote_fits(reserve_in as int, reserve_out as int, amount_in as int) {
        Err(ErrorCode::Overflow)
    } else if amount_out(reserve_in as int, reserve_out as int, amount_in as int) < min_amount_out {
        Err(ErrorCode::SlippageTooHigh)
    } else {
        Ok(amount_out(reserve_in as int, reserve_out as int, amount_in as int) as u64)
    }
}

/// An accepted quote leaves the output reserve positive, fits the input
/// reserve after the input is added, and does not lower the product of the
/// two reserves.
pub proof fn lemma_quote_conserves(reserve_in: u64, reserve_out: u64, amount_in: u64, min_amount_out: u64)
    requires
        quote_outcome(reserve_in, reserve_out, amount_in, min_amount_out) is Ok,
    ensures
        ({
            let out = quote_outcome(reserve_in, reserve_out, amount_in, min_amount_out)->Ok_0;
            &&& out == amount_out(reserve_in as int, reserve_out as int, amount_in as int)
            &&& min_amount_out <= out < reserve_out
            &&& reserve_in + amount_in <= u64::MAX
            &&& (reserve_in + amount_in) * (reserve_out - out) >= reserve_in * reserve_out
        }),
{
    lemma_amount_out_below_reserve(reserve_in as int, reserve_out as int, amount_in as int);
    lemma_product_grows(reserve_in as int, reserve_out as int, amount_in as int);
}

/// Quotes a swap against a pair of reserves with checked 64-bit arithmetic.
pub fn quote(reserve_in: u64, reserve_out: u64, amount_in: u64, min_amount_out: u64) -> (r: Result<
    u64,
    ErrorCode,
>)
    ensures
        r == quote_outcome(reserve_in, reserve_out, amount_in, min_amount_out),
{
    if reserve_in == 0 || reserve_out == 0 {
        return Err(ErrorCode::InsufficientLiquidity);
    }
    let net = match amount_in.checked_mul(SWAP_NET_BPS) {
        Some(v) => v,
        None => {
            return Err(ErrorCode::Overflow);
        },
    };
    let numerator = match net.checked_mul(reserve_out) {
        Some(v) => v,
        None => {
            return Err(ErrorCode::Overflow);
        },
    };
    let scaled_reserve = match reserve_in.checked_mul(BPS_DENOMINATOR) {
        Some(v) => v,
        None => {
            return Err(ErrorCode::Overflow);
        },
    };
    let denominator = match scaled_reserve.checked_add(net) {
        Some(v) => v,
        None => {
            return Err(ErrorCode::Overflow);
        },
    };
    // The denominator is positive, because the input reserve is.
    let out = match numerator.checked_div(denominator) {
        Some(v) => v,
        None => {
            return Err(ErrorCode::Underflow);
        },
    };
    if out < min_amount_out {
        return Err(ErrorCode::SlippageTooHigh);
    }
    // The pool must keep something of the output asset. On positive
    // reserves the curve never pays the whole reserve, so this test guards
    // a bound that is proved.
    proof {
        lemma_amount_out_below_reserve(reserve_in as int, reserve_out as int, amount_in as int);
    }
    if out >= reserve_out {
        return Err(ErrorCode::InsufficientLiquidity);
    }
    Ok(out)
}

/// The marginal price of the output asset in basis points of the input
/// asset, or zero when there is no input reserve.
pub fn marginal_price_bps(reserve_in: u64, reserve_out: u64) -> (p: u128)
    ensures
        p == price_bps(reserve_in as int, reserve_out as int),
{
    if reserve_in > 0 {
        let scaled: u128 = (reserve_out as u128) * 10000;
        scaled / (reserve_in as u128)
    } else {
        0
    }
}

/// How far a swap moves the marginal price, in basis points of the price
/// before it. For observation only.
pub open spec fn swap_price_impact(reserve_in: u64, reserve_out: u64, amount_in: u64, paid: u64) -> int {
    price_impact_bps(
        price_bps(reserve_in as int, reserve_out as int),
        price_bps(reserve_in + amount_in, reserve_out - paid),
    )
}

/// Computes the price impact of a swap that pays `paid` for `amount_in`.
fn price_impact(reserve_in: u64, reserve_out: u64, amount_in: u64, paid: u64) -> (impact: u64)
    requires
        reserve_in > 0,
        reserve_out > 0,
        paid <= reserve_out,
        reserve_in + amount_in <= u64::MAX,
    ensures
        impact == swap_price_impact(reserve_in, reserve_out, amount_in, paid),
        impact <= 10000,
{
    let before = marginal_price_bps(reserve_in, reserve_out);
    let after = marginal_price_bps(reserve_in + amount_in, reserve_out - paid);
    proof {
        lemma_price_impact_bounded(reserve_in as int, reserve_out as int, amount_in as int, paid as int);
    }
    if before > 0 {
        let gap: u128 = if before >= after {
            before - after
        } else {
            after - before
        };
        let scaled: u128 = gap * 10000;
        (scaled / before) as u64
    } else {
        0
    }
}

// ---------------------------------------------------------------------
// Swap
// ---------------------------------------------------------------------

/// Everything one swap reads and changes: the pool, its two vaults, the
/// holding that pays, and the caller's holdings of the two assets.
#[derive(Clone, Debug, PartialEq, Eq)]
pub struct Swap {
    pub pool: MockDexPool,
    pub token_in_account: Holding,
    pub token_x_vault: Holding,
    pub token_y_vault: Holding,
    pub user_token_x: Holding,
    pub user_token_y: Holding,
    pub user_authority: Identity,
}

impl Swap {
    /// The paying holding is of asset X.
    pub open spec fn input_is_x(self) -> bool {
        self.token_in_account.mint == self.user_token_x.mint
    }

    /// The paying holding is of asset Y.
    pub open spec fn input_is_y(self) -> bool {
        self.token_in_account.mint == self.user_token_y.mint
    }

    /// Whether the paying holding is of asset X, so that the input goes to
    /// the vault of X and the output comes from the vault of Y.
    pub fn pays_in_x(&self) -> (b: bool)
        ensures
            b == self.input_is_x(),
    {
        self.token_in_account.mint == self.user_token_x.mint
    }

    /// Whether the paying holding is of asset Y.
    pub fn pays_in_y(&self) -> (b: bool)
        ensures
            b == self.input_is_y(),
    {
        self.token_in_account.mint == self.user_token_y.mint
    }

    /// The reserve that takes the input. X wins where both mints match.
    pub open spec fn reserve_in(self) -> u64 {
        if self.input_is_x() {
            self.pool.x_balance
        } else {
            self.pool.y_balance
        }
    }

    /// The reserve that pays the output.
    pub open spec fn reserve_out(self) -> u64 {
        if self.input_is_x() {
            self.pool.y_balance
        } else {
            self.pool.x_balance
        }
    }

    /// The vault that takes the input.
    pub open spec fn vault_in(self) -> Holding {
        if self.input_is_x() {
            self.token_x_vault
        } else {
            self.token_y_vault
        }
    }

    /// The vault that pays the output.
    pub open spec fn vault_out(self) -> Holding {
        if self.input_is_x() {
            self.token_y_vault
        } else {
            self.token_x_vault
        }
    }

    /// The caller's holding that takes the output.
    pub open spec fn receiver(self) -> Holding {
        if self.input_is_x() {
            self.user_token_y
        } else {
            self.user_token_x
        }
    }

    /// Whether the four balances can make the two transfers of a swap that
    /// pays `paid` for `amount_in`; if not, the first reason in the order
    /// payer, input vault, output vault, receiver.
    pub open spec fn custody_outcome(self, amount_in: u64, paid: u64) -> Result<(), ErrorCode> {
        if !can_pay(self.token_in_account.amount, amount_in) {
            Err(ErrorCode::InsufficientFunds)
        } else if !can_receive(self.vault_in().amount, amount_in) {
            Err(ErrorCode::Overflow)
        } else if !can_pay(self.vault_out().amount, paid) {
            Err(ErrorCode::InsufficientFunds)
        } else if !can_receive(self.receiver().amount, paid) {
            Err(ErrorCode::Overflow)
        } else {
            Ok(())
        }
    }

    /// What a swap pays out, or why it is rejected. The checks come in this
    /// order: the name, the amount, the asset of the paying holding, the
    /// quote, the balances.
    pub open spec fn outcome(self, amount_in: u64, min_amount_out: u64, pool_name: Seq<char>) -> Result<
        u64,
        ErrorCode,
    > {
        if pool_name.len() == 0 {
            Err(ErrorCode::InvalidPoolName)
        } else if amount_in == 0 {
            Err(ErrorCode::InvalidAmount)
        } else if !self.input_is_x() && !self.input_is_y() {
            Err(ErrorCode::InvalidTokenInAccount)
        } else {
            match quote_outcome(self.reserve_in(), self.reserve_out(), amount_in, min_amount_out) {
                Err(e) => Err(e),
                Ok(paid) => match self.custody_outcome(amount_in, paid) {
                    Err(e) => Err(e),
                    Ok(()) => Ok(paid),
                },
            }
        }
    }

    /// The state after a swap that pays `paid` for `amount_in`: the input
    /// reserve and vault grow by `amount_in`, the output reserve and vault
    /// shrink by `paid`, the payer loses `amount_in` and the receiver gains
    /// `paid`. Nothing else changes.
    pub open spec fn applied(self, amount_in: u64, paid: u64) -> Swap {
        if self.input_is_x() {
            Swap {
                pool: MockDexPool {
                    x_balance: (self.pool.x_balance + amount_in) as u64,
                    y_balance: (self.pool.y_balance - paid) as u64,
                    name: self.pool.name,
                },
                token_in_account: self.token_in_account.with_amount(
                    (self.token_in_account.amount - amount_in) as u64,
                ),
                token_x_vault: self.token_x_vault.with_amount((self.token_x_vault.amount + amount_in) as u64),
                token_y_vault: self.token_y_vault.with_amount((self.token_y_vault.amount - paid) as u64),
                user_token_x: self.user_token_x,
                user_token_y: self.user_token_y.with_amount((self.user_token_y.amount + paid) as u64),
                user_authority: self.user_authority,
            }
        } else {
            Swap {
                pool: MockDexPool {
                    x_balance: (self.pool.x_balance - paid) as u64,
                    y_balance: (self.pool.y_balance + amount_in) as u64,
                    name: self.pool.name,
                },
                token_in_account: self.token_in_account.with_amount(
                    (self.token_in_account.amount - amount_in) as u64,
                ),
                token_x_vault: self.token_x_vault.with_amount((self.token_x_vault.amount - paid) as u64),
                token_y_vault: self.token_y_vault.with_amount((self.token_y_vault.amount + amount_in) as u64),
                user_token_x: self.user_token_x.with_amount((self.user_token_x.amount + paid) as u64),
                user_token_y: self.user_token_y,
                user_authority: self.user_authority,
            }
        }
    }

    /// The notification of a swap that pays `paid` for `amount_in`.
    pub open spec fn announces(
        self,
        event: SwapExecuted,
        amount_in: u64,
        paid: u64,
        pool_name: Seq<char>,
        now: i64,
    ) -> bool {
        &&& event.pool_name@ == pool_name
        &&& event.amount_in == amount_in
        &&& event.amount_out == paid
        &&& event.price_impact_bps == swap_price_impact(self.reserve_in(), self.reserve_out(), amount_in, paid)
        &&& event.user == self.user_authority
        &&& event.timestamp == now
    }

    /// Decides a swap without making it: what it would pay, or why it is
    /// rejected. This is the whole of the check; a swap that passes it goes
    /// through.
    pub fn check(&self, amount_in: u64, min_amount_out: u64, pool_name: &str) -> (r: Result<u64, ErrorCode>)
        ensures
            r == self.outcome(amount_in, min_amount_out, pool_name@),
    {
        if pool_name.is_empty() {
            return Err(ErrorCode::InvalidPoolName);
        }
        if amount_in == 0 {
            return Err(ErrorCode::InvalidAmount);
        }
        let input_is_x = self.pays_in_x();
        let input_is_y = self.pays_in_y();
        if !input_is_x && !input_is_y {
            return Err(ErrorCode::InvalidTokenInAccount);
        }
        let reserve_in = if input_is_x {
            self.pool.x_balance
        } else {
            self.pool.y_balance
        };
        let reserve_out = if input_is_x {
            self.pool.y_balance
        } else {
            self.pool.x_balance
        };
        let paid = match quote(reserve_in, reserve_out, amount_in, min_amount_out) {
            Ok(v) => v,
            Err(e) => {
                return Err(e);
            },
        };
        let vault_in = if input_is_x {
            self.token_x_vault
        } else {
            self.token_y_vault
        };
        let vault_out = if input_is_x {
            self.token_y_vault
        } else {
            self.token_x_vault
        };
        let receiver = if input_is_x {
            self.user_token_y
        } else {
            self.user_token_x
        };
        if !self.token_in_account.covers(amount_in) {
            return Err(ErrorCode::InsufficientFunds);
        }
        if !vault_in.has_room_for(amount_in) {
            return Err(ErrorCode::Overflow);
        }
        if !vault_out.covers(paid) {
            return Err(ErrorCode::InsufficientFunds);
        }
        if !receiver.has_room_for(paid) {
            return Err(ErrorCode::Overflow);
        }
        Ok(paid)
    }

    /// What a swap at the time `now` returns and leaves behind: where it is
    /// accepted, its notification and the state after it; where it is
    /// rejected, the reason and the state untouched.
    pub open spec fn swapped(
        self,
        after: Swap,
        r: Result<SwapExecuted, ErrorCode>,
        amount_in: u64,
        min_amount_out: u64,
        pool_name: Seq<char>,
        now: i64,
    ) -> bool {
        match self.outcome(amount_in, min_amount_out, pool_name) {
            Ok(paid) => {
                &&& r matches Ok(event)
                &&& self.announces(event, amount_in, paid, pool_name, now)
                &&& after == self.applied(amount_in, paid)
            },
            Err(e) => r == Err::<SwapExecuted, ErrorCode>(e) && after == self,
        }
    }
}

/// Swaps `amount_in` of the asset of the paying holding for the other asset
/// of the pair, or changes nothing.
///
/// The ledger is updated before the two transfers are made; the balances
/// are tested before either, so neither transfer can fail half way.
pub fn swap(ctx: &mut Swap, amount_in: u64, min_amount_out: u64, pool_name: String, now: i64) -> (r: Result<
    SwapExecuted,
    ErrorCode,
>)
    ensures
        old(ctx).swapped(*final(ctx), r, amount_in, min_amount_out, pool_name@, now),
        r is Ok <==> old(ctx).outcome(amount_in, min_amount_out, pool_name@) is Ok,
        r is Ok ==> old(ctx).pool.is_seeded() && final(ctx).pool.is_seeded(),
        r is Ok ==> final(ctx).pool.x_balance * final(ctx).pool.y_balance >= old(ctx).pool.x_balance * old(
            ctx,
        ).pool.y_balance,
        r is Err ==> *final(ctx) == *old(ctx),
{
    // The checks, all of them, before anything changes.
    let paid = match ctx.check(amount_in, min_amount_out, pool_name.as_str()) {
        Ok(v) => v,
        Err(e) => {
            return Err(e);
        },
    };
    let input_is_x = ctx.pays_in_x();
    let reserve_in = if input_is_x {
        ctx.pool.x_balance
    } else {
        ctx.pool.y_balance
    };
    let reserve_out = if input_is_x {
        ctx.pool.y_balance
    } else {
        ctx.pool.x_balance
    };
    proof {
        lemma_quote_conserves(reserve_in, reserve_out, amount_in, min_amount_out);
    }
    let impact = price_impact(reserve_in, reserve_out, amount_in, paid);

    // The ledger first.
    if input_is_x {
        ctx.pool.x_balance = reserve_in + amount_in;
        ctx.pool.y_balance = reserve_out - paid;
    } else {
        ctx.pool.y_balance = reserve_in + amount_in;
        ctx.pool.x_balance = reserve_out - paid;
    }
    proof {
        assert((reserve_out - paid) * (reserve_in + amount_in) == (reserve_in + amount_in) * (reserve_out
            - paid)) by (nonlinear_arith);
        assert(reserve_out * reserve_in == reserve_in * reserve_out) by (nonlinear_arith);
    }

    // Then the funds: payer to vault, vault to receiver.
    let received = if input_is_x {
        transfer(&mut ctx.token_in_account, &mut ctx.token_x_vault, amount_in)
    } else {
        transfer(&mut ctx.token_in_account, &mut ctx.token_y_vault, amount_in)
    };
    if received.is_err() {
        return Err(ErrorCode::InsufficientFunds);
    }
    let sent = if input_is_x {
        transfer(&mut ctx.token_y_vault, &mut ctx.user_token_y, paid)
    } else {
        transfer(&mut ctx.token_x_vault, &mut ctx.user_token_x, paid)
    };
    if sent.is_err() {
        return Err(ErrorCode::InsufficientFunds);
    }
    Ok(
        SwapExecuted {
            pool_name,
            amount_in,
            amount_out: paid,
            price_impact_bps: impact,
            user: ctx.user_authority,
            timestamp: now,
        },
    )
}

/// Swaps at the time of the host's clock.
///
/// The swap is checked before the host is asked for the time: a swap that
/// is rejected is rejected whatever the clock does, and changes nothing.
/// For a swap that passes the check the clock is read. Where it cannot be
/// read nothing changes; otherwise there is a time for which the result and
/// the state are those of `swap`.
pub fn swap_now(ctx: &mut Swap, amount_in: u64, min_amount_out: u64, pool_name: String) -> (r: Result<
    Result<SwapExecuted, ErrorCode>,
    HostError,
>)
    ensures
        old(ctx).outcome(amount_in, min_amount_out, pool_name@) matches Err(e) ==> r == Ok::<
            Result<SwapExecuted, ErrorCode>,
            HostError,
        >(Err(e)) && *final(ctx) == *old(ctx),
        r is Err ==> old(ctx).outcome(amount_in, min_amount_out, pool_name@) is Ok && *final(ctx) == *old(ctx),
        r matches Ok(inner) ==> exists|now: i64| #[trigger]
            old(ctx).swapped(*final(ctx), inner, amount_in, min_amount_out, pool_name@, now),
        r matches Ok(inner) ==> (inner is Ok <==> old(ctx).outcome(amount_in, min_amount_out, pool_name@) is Ok),
        r matches Ok(Ok(_)) ==> final(ctx).pool.is_seeded(),
        r matches Ok(Ok(_)) ==> final(ctx).pool.x_balance * final(ctx).pool.y_balance >= old(
            ctx,
        ).pool.x_balance * old(ctx).pool.y_balance,
{
    match ctx.check(amount_in, min_amount_out, pool_name.as_str()) {
        Ok(_) => {},
        Err(e) => {
            let rejected = Ok(Err(e));
            assert(old(ctx).swapped(*ctx, Err(e), amount_in, min_amount_out, pool_name@, 0));
            return rejected;
        },
    }
    match host_time() {
        Ok(now) => Ok(swap(ctx, amount_in, min_amount_out, pool_name, now)),
        Err(e) => Err(e),
    }
}

// ---------------------------------------------------------------------
// Seeding
// ---------------------------------------------------------------------

/// Everything the seeding of a pool reads and changes: the pool, the
/// caller, the caller's two source holdings and the pool's two vaults.
#[derive(Clone, Debug, PartialEq, Eq)]
pub struct InitializePool {
    pub pool: MockDexPool,
    pub initializer: Identity,
    pub initializer_token_x_account: Holding,
    pub initializer_token_y_account: Holding,
    pub token_x_vault: Holding,
    pub token_y_vault: Holding,
}

impl InitializePool {
    /// Whether a pool can be seeded, or the first reason why not, in this
    /// order: the name, the amounts, the source balances (X, then Y), the
    /// owners of the sources (X, then Y), room in the vaults (X, then Y).
    pub open spec fn outcome(self, pool_name: Seq<char>, initial_x_amount: u64, initial_y_amount: u64) -> Result<
        (),
        ErrorCode,
    > {
        if !valid_pool_name(pool_name) {
            Err(ErrorCode::InvalidPoolName)
        } else if initial_x_amount == 0 || initial_y_amount == 0 {
            Err(ErrorCode::InvalidAmount)
        } else if !can_pay(self.initializer_token_x_account.amount, initial_x_amount) {
            Err(ErrorCode::InsufficientFunds)
        } else if !can_pay(self.initializer_token_y_account.amount, initial_y_amount) {
            Err(ErrorCode::InsufficientFunds)
        } else if self.initializer_token_x_account.owner != self.initializer {
            Err(ErrorCode::InvalidTokenAccountOwner)
        } else if self.initializer_token_y_account.owner != self.initializer {
            Err(ErrorCode::InvalidTokenAccountOwner)
        } else if !can_receive(self.token_x_vault.amount, initial_x_amount) {
            Err(ErrorCode::Overflow)
        } else if !can_receive(self.token_y_vault.amount, initial_y_amount) {
            Err(ErrorCode::Overflow)
        } else {
            Ok(())
        }
    }

    /// The state after seeding: the ledger holds the two seed amounts under
    /// the given name, and each seed amount has moved from the caller's
    /// source holding into the vault of its asset.
    pub open spec fn applied(self, pool_name: String, initial_x_amount: u64, initial_y_amount: u64) -> InitializePool {
        InitializePool {
            pool: MockDexPool { x_balance: initial_x_amount, y_balance: initial_y_amount, name: pool_name },
            initializer: self.initializer,
            initializer_token_x_account: self.initializer_token_x_account.with_amount(
                (self.initializer_token_x_account.amount - initial_x_amount) as u64,
            ),
            initializer_token_y_account: self.initializer_token_y_account.with_amount(
                (self.initializer_token_y_account.amount - initial_y_amount) as u64,
            ),
            token_x_vault: self.token_x_vault.with_amount((self.token_x_vault.amount + initial_x_amount) as u64),
            token_y_vault: self.token_y_vault.with_amount((self.token_y_vault.amount + initial_y_amount) as u64),
        }
    }

    /// Decides a seeding without making it. This is the whole of the check;
    /// a seeding that passes it goes through.
    pub fn check(&self, pool_name: &str, initial_x_amount: u64, initial_y_amount: u64) -> (r: Result<(), ErrorCode>)
        ensures
            r == self.outcome(pool_name@, initial_x_amount, initial_y_amount),
    {
        if !is_valid_pool_name(pool_name) {
            return Err(ErrorCode::InvalidPoolName);
        }
        if initial_x_amount == 0 || initial_y_amount == 0 {
            return Err(ErrorCode::InvalidAmount);
        }
        if !self.initializer_token_x_account.covers(initial_x_amount) {
            return Err(ErrorCode::InsufficientFunds);
        }
        if !self.initializer_token_y_account.covers(initial_y_amount) {
            return Err(ErrorCode::InsufficientFunds);
        }
        if self.initializer_token_x_account.owner != self.initializer {
            return Err(ErrorCode::InvalidTokenAccountOwner);
        }
        if self.initializer_token_y_account.owner != self.initializer {
            return Err(ErrorCode::InvalidTokenAccountOwner);
        }
        if !self.token_x_vault.has_room_for(initial_x_amount) {
            return Err(ErrorCode::Overflow);
        }
        if !self.token_y_vault.has_room_for(initial_y_amount) {
            return Err(ErrorCode::Overflow);
        }
        Ok(())
    }

    /// What a seeding at the time `now` returns and leaves behind: where it
    /// is accepted, its notification and the state after it; where it is
    /// rejected, the reason and the state untouched.
    pub open spec fn seeded(
        self,
        after: InitializePool,
        r: Result<PoolInitialized, ErrorCode>,
        pool_name: String,
        initial_x_amount: u64,
        initial_y_amount: u64,
        now: i64,
    ) -> bool {
        match self.outcome(pool_name@, initial_x_amount, initial_y_amount) {
            Ok(()) => {
                &&& r == Ok::<PoolInitialized, ErrorCode>(
                    PoolInitialized {
                        pool_name,
                        initial_x_amount,
                        initial_y_amount,
                        initializer: self.initializer,
                        timestamp: now,
                    },
                )
                &&& after == self.applied(pool_name, initial_x_amount, initial_y_amount)
            },
            Err(e) => r == Err::<PoolInitialized, ErrorCode>(e) && after == self,
        }
    }
}

/// Seeds a pool with positive reserves under a name, or changes nothing.
///
/// The ledger is set before the two seed amounts move into the vaults; the
/// balances are tested before either, so neither transfer can fail half way.
pub fn initialize_pool(
    ctx: &mut InitializePool,
    pool_name: String,
    initial_x_amount: u64,
    initial_y_amount: u64,
    now: i64,
) -> (r: Result<PoolInitialized, ErrorCode>)
    ensures
        old(ctx).seeded(*final(ctx), r, pool_name, initial_x_amount, initial_y_amount, now),
        r is Ok <==> old(ctx).outcome(pool_name@, initial_x_amount, initial_y_amount) is Ok,
        r is Ok ==> final(ctx).pool.is_seeded(),
        r is Err ==> *final(ctx) == *old(ctx),
{
    // The checks, all of them, before anything changes.
    match ctx.check(pool_name.as_str(), initial_x_amount, initial_y_amount) {
        Ok(()) => {},
        Err(e) => {
            return Err(e);
        },
    }
    // The ledger first.
    ctx.pool.x_balance = initial_x_amount;
    ctx.pool.y_balance = initial_y_amount;
    ctx.pool.name = pool_name.clone();

    // Then the funds, one asset after the other.
    let moved_x = transfer(&mut ctx.initializer_token_x_account, &mut ctx.token_x_vault, initial_x_amount);
    if moved_x.is_err() {
        return Err(ErrorCode::InsufficientFunds);
    }
    let moved_y = transfer(&mut ctx.initializer_token_y_account, &mut ctx.token_y_vault, initial_y_amount);
    if moved_y.is_err() {
        return Err(ErrorCode::InsufficientFunds);
    }
    Ok(
        PoolInitialized {
            pool_name,
            initial_x_amount,
            initial_y_amount,
            initializer: ctx.initializer,
            timestamp: now,
        },
    )
}

/// Seeds a pool at the time of the host's clock.
///
/// The seeding is checked before the host is asked for the time: a seeding
/// that is rejected is rejected whatever the clock does, and changes
/// nothing. For a seeding that passes the check the clock is read. Where it
/// cannot be read nothing changes; otherwise there is a time for which the
/// result and the state are those of `initialize_pool`.
pub fn initialize_pool_now(
    ctx: &mut InitializePool,
    pool_name: String,
    initial_x_amount: u64,
    initial_y_amount: u64,
) -> (r: Result<Result<PoolInitialized, ErrorCode>, HostError>)
    ensures
        old(ctx).outcome(pool_name@, initial_x_amount, initial_y_amount) matches Err(e) ==> r == Ok::<
            Result<PoolInitialized, ErrorCode>,
            HostError,
        >(Err(e)) && *final(ctx) == *old(ctx),
        r is Err ==> old(ctx).outcome(pool_name@, initial_x_amount, initial_y_amount) is Ok && *final(ctx) == *old(
            ctx,
        ),
        r matches Ok(inner) ==> exists|now: i64| #[trigger]
            old(ctx).seeded(*final(ctx), inner, pool_name, initial_x_amount, initial_y_amount, now),
        r matches Ok(inner) ==> (inner is Ok <==> old(ctx).outcome(pool_name@, initial_x_amount, initial_y_amount)
            is Ok),
        r matches Ok(Ok(_)) ==> final(ctx).pool.is_seeded(),
{
    match ctx.check(pool_name.as_str(), initial_x_amount, initial_y_amount) {
        Ok(()) => {},
        Err(e) => {
            let rejected = Ok(Err(e));
            assert(old(ctx).seeded(*ctx, Err(e), pool_name, initial_x_amount, initial_y_amount, 0));
            return rejected;
        },
    }
    match host_time() {
        Ok(now) => Ok(initialize_pool(ctx, pool_name, initial_x_amount, initial_y_amount, now)),
        Err(e) => Err(e),
    }
}

// ---------------------------------------------------------------------
// Conservation
// ---------------------------------------------------------------------

/// One swap as the ledger sees it: which reserve takes the input, how much
/// comes in, and the least that must go out.
pub struct SwapOrder {
    pub input_is_x: bool,
    pub amount_in: u64,
    pub min_amount_out: u64,
}

/// The reserves `(x, y)` after one accepted swap, or `None` where the swap
/// is rejected on the ledger's account.
pub open spec fn ledger_after(x: u64, y: u64, order: SwapOrder) -> Option<(u64, u64)> {
    let reserve_in = if order.input_is_x {
        x
    } else {
        y
    };
    let reserve_out = if order.input_is_x {
        y
    } else {
        x
    };
    if order.amount_in == 0 {
        None
    } else {
        match quote_outcome(reserve_in, reserve_out, order.amount_in, order.min_amount_out) {
            Err(_) => None,
            Ok(paid) => if order.input_is_x {
                Some(((x + order.amount_in) as u64, (y - paid) as u64))
            } else {
                Some(((x - paid) as u64, (y + order.amount_in) as u64))
            },
        }
    }
}

/// The reserves after a run of swaps, each applied to what the one before
/// left, or `None` where one of them is rejected.
pub open spec fn ledger_after_all(x: u64, y: u64, orders: Seq<SwapOrder>) -> Option<(u64, u64)>
    decreases orders.len(),
{
    if orders.len() == 0 {
        Some((x, y))
    } else {
        match ledger_after(x, y, orders[0]) {
            None => None,
            Some((x1, y1)) => ledger_after_all(x1, y1, orders.skip(1)),
        }
    }
}

/// An accepted swap changes the ledger of its pool as `ledger_after` says.
pub proof fn lemma_swap_follows_ledger(ctx: Swap, amount_in: u64, min_amount_out: u64, pool_name: Seq<char>)
    requires
        ctx.outcome(amount_in, min_amount_out, pool_name) is Ok,
    ensures
        ({
            let paid = ctx.outcome(amount_in, min_amount_out, pool_name)->Ok_0;
            let order = SwapOrder { input_is_x: ctx.input_is_x(), amount_in, min_amount_out };
            let after = ctx.applied(amount_in, paid).pool;
            ledger_after(ctx.pool.x_balance, ctx.pool.y_balance, order) == Some(
                (after.x_balance, after.y_balance),
            )
        }),
{
}

/// One accepted swap leaves both reserves positive and does not lower their
/// product. A swap is accepted on positive reserves only.
pub proof fn lemma_swap_conserves(x: u64, y: u64, order: SwapOrder)
    requires
        ledger_after(x, y, order) is Some,
    ensures
        x > 0 && y > 0,
        ({
            let (x1, y1) = ledger_after(x, y, order)->Some_0;
            x1 > 0 && y1 > 0 && x1 * y1 >= x * y
        }),
{
    if order.input_is_x {
        lemma_quote_conserves(x, y, order.amount_in, order.min_amount_out);
    } else {
        lemma_quote_conserves(y, x, order.amount_in, order.min_amount_out);
        let paid = quote_outcome(y, x, order.amount_in, order.min_amount_out)->Ok_0;
        assert((x - paid) * (y + order.amount_in) == (y + order.amount_in) * (x - paid))
            by (nonlinear_arith);
        assert(x * y == y * x) by (nonlinear_arith);
    }
}

/// Conservation: over any run of accepted swaps the product of the reserves
/// never falls, and both reserves are positive after it, provided the pool
/// was seeded or the run is not empty.
pub proof fn lemma_swaps_conserve(x: u64, y: u64, orders: Seq<SwapOrder>)
    requires
        ledger_after_all(x, y, orders) is Some,
    ensures
        ({
            let (xn, yn) = ledger_after_all(x, y, orders)->Some_0;
            &&& xn * yn >= x * y
            &&& (x > 0 && y > 0) || orders.len() > 0 ==> xn > 0 && yn > 0
        }),
    decreases orders.len(),
{
    if orders.len() > 0 {
        lemma_swap_conserves(x, y, orders[0]);
        let (x1, y1) = ledger_after(x, y, orders[0])->Some_0;
        lemma_swaps_conserve(x1, y1, orders.skip(1));
        let (xn, yn) = ledger_after_all(x1, y1, orders.skip(1))->Some_0;
        assert(xn * yn >= x * y);
    }
}

} // verus!
