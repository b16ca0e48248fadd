//! The ledger's clock.

use vstd::prelude::*;
use anchor_lang::prelude::{Clock, ProgramError, SolanaSysvar};

verus! {

/// The ledger's own error type, `ProgramError` of `anchor_lang`. Nothing is
/// known of a value of it here; it is only handed on.
#[verifier::external_type_specification]
#[verifier::external_body]
pub struct ExProgramError(anchor_lang::prelude::ProgramError);

/// Asks the ledger for the current time through `Clock::get` of `anchor_lang`
/// and hands back the `unix_timestamp` of the clock it returned, or the error
/// it returned.
///
/// Nothing is claimed of the outcome: the time depends on the ledger, and
/// away from a ledger the call fails.
#[verifier::external_body]
pub(crate) fn unix_timestamp() -> (r: Result<i64, ProgramError>) {
    match Clock::get() {
        Ok(clock) => Ok(clock.unix_timestamp),
        Err(e) => Err(e),
    }
}

} // verus!
