//! How a failure of a nested call is reported by this crate.
//!
//! A call into the system service fails with a `ProgramError` of the
//! `pinocchio` crate. That error travels as its numeric code; the code
//! decides which `Error` the caller sees.

use vstd::prelude::*;
use pinocchio::program_error::ProgramError;
use crate::error::Error;

verus! {

/// The error type of nested calls. Nothing of its inside is used here.
#[verifier::external_type_specification]
#[verifier::external_body]
pub struct ExProgramError(ProgramError);

/// The code of `ProgramError::InsufficientFunds`.
pub const INSUFFICIENT_FUNDS: u64 = 0x0000_0006_0000_0000;

/// The code of `ProgramError::NotEnoughAccountKeys`.
pub const NOT_ENOUGH_ACCOUNT_KEYS: u64 = 0x0000_000B_0000_0000;

/// The code of `ProgramError::AccountBorrowFailed`.
pub const ACCOUNT_BORROW_FAILED: u64 = 0x0000_000C_0000_0000;

/// The code of `ProgramError::InvalidRealloc`.
pub const INVALID_REALLOC: u64 = 0x0000_0014_0000_0000;

/// The code of `ProgramError::ArithmeticOverflow`.
pub const ARITHMETIC_OVERFLOW: u64 = 0x0000_0018_0000_0000;

/// The error that stands for a failure with the given code.
///
/// A refused borrow, a balance out of range, a resize beyond the reserve and
/// a missing account keep their meaning. Every other failure is a rejection
/// by the service.
pub open spec fn error_of_code(code: u64) -> Error {
    if code == NOT_ENOUGH_ACCOUNT_KEYS {
        Error::NotEnoughAccounts
    } else if code == ACCOUNT_BORROW_FAILED {
        Error::BorrowConflict
    } else if code == INSUFFICIENT_FUNDS || code == ARITHMETIC_OVERFLOW {
        Error::ArithmeticOverflow
    } else if code == INVALID_REALLOC {
        Error::InvalidRealloc
    } else {
        Error::CpiFailure
    }
}

/// The numeric code that `pinocchio` gives a failure: the result of its
/// conversion of a `ProgramError` to `u64`, which depends on the failure alone.
pub uninterp spec fn code_of_program_error(error: ProgramError) -> u64;

/// The numeric code of a failure.
///
/// Trusted: this is the conversion `u64::from` that `pinocchio` gives its
/// `ProgramError`. The contract gives the result its name and claims nothing
/// of its value.
#[verifier::external_body]
fn program_error_code(error: ProgramError) -> (code: u64)
    ensures
        code == code_of_program_error(error),
{
    u64::from(error)
}

/// The error that stands for a failure with the given code.
pub fn error_from_code(code: u64) -> (error: Error)
    ensures
        error == error_of_code(code),
{
    if code == NOT_ENOUGH_ACCOUNT_KEYS {
        Error::NotEnoughAccounts
    } else if code == ACCOUNT_BORROW_FAILED {
        Error::BorrowConflict
    } else if code == INSUFFICIENT_FUNDS || code == ARITHMETIC_OVERFLOW {
        Error::ArithmeticOverflow
    } else if code == INVALID_REALLOC {
        Error::InvalidRealloc
    } else {
        Error::CpiFailure
    }
}

/// The error that stands for a failure of a nested call: the one that
/// `error_from_code` gives for its code.
pub fn error_from_program_error(error: ProgramError) -> (mapped: Error)
    ensures
        mapped == error_of_code(code_of_program_error(error)),
{
    let code = program_error_code(error);
    error_from_code(code)
}

} // verus!
