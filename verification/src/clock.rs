//! The time of the host.
//!
//! Nothing in the protocol depends on what the time is: it is stamped on
//! records and notifications, and identifiers are made from it. So every
//! operation takes the time as an argument and is verified for every value
//! of it. The operations that end in `_now` read the time from the host,
//! and only once the request has passed its checks: what the library can
//! decide alone, it decides before it asks the host for anything.

use vstd::prelude::*;
use anchor_lang::prelude::{Clock, ProgramError, SolanaSysvar};

verus! {

/// The error of a call into the host, `ProgramError` of anchor_lang. It is
/// carried from the call to the place that turns it into a `HostError`, and
/// never looked into.
#[verifier::external_type_specification]
#[verifier::external_body]
pub struct ExProgramError(ProgramError);

/// The host could not serve what the library asked of it.
#[derive(Clone, Copy, PartialEq, Eq, Structural, Debug)]
pub enum HostError {
    /// The clock could not be read.
    ClockUnavailable,
}

/// Reads the host's clock with `Clock::get` of anchor_lang and hands out
/// its `unix_timestamp`, or the error that the host gave.
///
/// Nothing is claimed of the result. The time is whatever the host says,
/// two readings may differ, and where no host serves the clock the call
/// fails.
#[verifier::external_body]
pub(crate) fn read_unix_timestamp() -> (r: Result<i64, ProgramError>) {
    match Clock::get() {
        Ok(clock) => Ok(clock.unix_timestamp),
        Err(e) => Err(e),
    }
}

/// The time of the host, or the failure to read it.
pub(crate) fn host_time() -> (r: Result<i64, HostError>) {
    match read_unix_timestamp() {
        Ok(now) => Ok(now),
        Err(_) => Err(HostError::ClockUnavailable),
    }
}

} // verus!
