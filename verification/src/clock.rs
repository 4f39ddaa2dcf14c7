//! The chain's clock, which dates each consent.

use vstd::prelude::*;
use anchor_lang::prelude::{Clock, ProgramError, SolanaSysvar};

verus! {

/// The runtime's error type, carried through unread.
#[verifier::external_type_specification]
#[verifier::external_body]
pub struct ExProgramError(ProgramError);

/// The clock could not be read; `source` is the runtime's own error.
#[derive(Debug, PartialEq, Eq)]
pub struct ClockError {
    pub source: ProgramError,
}

/// Reads the current Unix timestamp with `Clock::get` and hands out its
/// `unix_timestamp` field, or the error that the runtime reported.
///
/// Nothing is claimed of the outcome: the time is whatever the runtime says,
/// and outside a running program the clock is not available at all.
#[verifier::external_body]
pub(crate) fn unix_timestamp_now() -> (r: Result<i64, ProgramError>) {
    match Clock::get() {
        Ok(clock) => Ok(clock.unix_timestamp),
        Err(e) => Err(e),
    }
}

} // verus!
