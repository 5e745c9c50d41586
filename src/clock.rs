use anchor_lang::solana_program::program_error::ProgramError;
use anchor_lang::solana_program::sysvar::Sysvar;
use vstd::prelude::*;

verus! {

/// The error that the host reports when a system variable cannot be read.
#[verifier::external_type_specification]
#[verifier::external_body]
pub struct ExProgramError(ProgramError);

/// Relies on `Sysvar::get` for anchor_lang's `Clock`: it reads the host's
/// clock and yields its `unix_timestamp`, or the error that the host reported.
/// The time depends on when the call is made, so nothing is promised of it.
#[verifier::external_body]
pub(crate) fn clock_unix_timestamp() -> (r: Result<i64, ProgramError>) {
    anchor_lang::solana_program::clock::Clock::get().map(|c| c.unix_timestamp)
}

} // verus!
