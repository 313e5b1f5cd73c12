//! The conditions under which an operation on an account is refused.

use vstd::prelude::*;

verus! {

/// Why an operation on an account was refused.
#[derive(Debug, Clone, Copy, PartialEq, Eq, Structural)]
pub enum Error {
    /// Fewer accounts were supplied than the instruction needs.
    NotEnoughAccounts,
    /// The account is not owned by the program that tried to read it.
    InvalidOwner,
    /// The data does not start with the discriminator of the expected record.
    InvalidDiscriminator,
    /// The data is too short, or not aligned, for the expected record.
    DeserializationError,
    /// The requested borrow would break the reader/writer discipline.
    BorrowConflict,
    /// A balance would leave the range of a `u64`.
    ArithmeticOverflow,
    /// The system service rejected a nested call.
    CpiFailure,
    /// A writable view was requested of an account that is read-only.
    AccountNotWritable,
    /// A signer view was requested of an account that did not sign.
    AccountNotSigner,
    /// The data would grow beyond the space reserved for the account.
    InvalidRealloc,
}

impl Error {
    /// The name of the condition, as it is shown to a user.
    pub open spec fn spec_name(self) -> Seq<char> {
        match self {
            Error::NotEnoughAccounts => "NotEnoughAccounts"@,
            Error::InvalidOwner => "InvalidOwner"@,
            Error::InvalidDiscriminator => "InvalidDiscriminator"@,
            Error::DeserializationError => "DeserializationError"@,
            Error::BorrowConflict => "BorrowConflict"@,
            Error::ArithmeticOverflow => "ArithmeticOverflow"@,
            Error::CpiFailure => "CpiFailure"@,
            Error::AccountNotWritable => "AccountNotWritable"@,
            Error::AccountNotSigner => "AccountNotSigner"@,
            Error::InvalidRealloc => "InvalidRealloc"@,
        }
    }

    /// The name of the condition, as it is shown to a user.
    pub fn name(&self) -> (text: &'static str)
        ensures
            text@ == self.spec_name(),
    {
        match self {
            Error::NotEnoughAccounts => "NotEnoughAccounts",
            Error::InvalidOwner => "InvalidOwner",
            Error::InvalidDiscriminator => "InvalidDiscriminator",
            Error::DeserializationError => "DeserializationError",
            Error::BorrowConflict => "BorrowConflict",
            Error::ArithmeticOverflow => "ArithmeticOverflow",
            Error::CpiFailure => "CpiFailure",
            Error::AccountNotWritable => "AccountNotWritable",
            Error::AccountNotSigner => "AccountNotSigner",
            Error::InvalidRealloc => "InvalidRealloc",
        }
    }
}

} // verus!
