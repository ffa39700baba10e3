//! An atomic flash-loan arbitrage protocol on plain values.
//!
//! A loan pool lends to a borrower, an orchestrator routes the borrowed
//! amount through two constant-product pools, and the loan is repaid with a
//! fee. Each operation works on the state it is handed and says in its
//! contract what it returns and leaves behind on every input. Where an
//! operation fails, funds and ledgers are as it found them; a whole
//! transaction that fails leaves no trace at all.
//!
//! - `shared`: the records that the engines share, and the error taxonomy.
//! - `clock`: the time of the host.
//! - `custody`: balances, and the transfer between two of them.
//! - `curve`: the constant-product curve and its laws.
//! - `mock_dex`: the pool engine, seeding and swapping.
//! - `mock_pool`: the loan pool, seeding, reporting, pausing and resuming.
//! - `arbitrage_bot`: the orchestrator and its reentrancy latch.
//! - `flash_loan`: the coordinator of a whole transaction.

pub mod shared;
pub mod clock;
pub mod custody;
pub mod curve;
pub mod mock_dex;
pub mod mock_pool;
pub mod arbitrage_bot;
pub mod flash_loan;
