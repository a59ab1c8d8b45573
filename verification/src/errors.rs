use vstd::prelude::*;

verus! {

/// The kinds a failed request aborts with. Every check is local and
/// terminal: the first failing check decides the kind, and nothing is
/// retried. A `LedgerFailure` forwards the external ledger's own error
/// code verbatim.
#[derive(Clone, Copy, PartialEq, Eq, Debug)]
pub enum ErrorKind {
    /// A required existing account was not supplied.
    MissingAccount,
    /// An account's owner, type, or declared relationship does not match.
    AccountMismatch,
    /// The supplied holding-account address is not the derived one.
    AddressDerivationMismatch,
    /// An account expected to sign did not.
    MissingRequiredSignature,
    /// The signer is not the mint's recorded authority.
    Unauthorized,
    /// The external ledger invocation itself failed, with its code.
    LedgerFailure(u64),
}

impl ErrorKind {
    /// The numeric code surfaced to the external caller.
    pub open spec fn spec_code(self) -> u64 {
        match self {
            ErrorKind::MissingAccount => 1,
            ErrorKind::AccountMismatch => 2,
            ErrorKind::AddressDerivationMismatch => 3,
            ErrorKind::MissingRequiredSignature => 4,
            ErrorKind::Unauthorized => 5,
            ErrorKind::LedgerFailure(code) => code,
        }
    }

    /// The numeric code surfaced to the external caller; a ledger failure
    /// keeps the ledger's own code.
    pub fn code(&self) -> (c: u64)
        ensures
            c == self.spec_code(),
    {
        match self {
            ErrorKind::MissingAccount => 1,
            ErrorKind::AccountMismatch => 2,
            ErrorKind::AddressDerivationMismatch => 3,
            ErrorKind::MissingRequiredSignature => 4,
            ErrorKind::Unauthorized => 5,
            ErrorKind::LedgerFailure(code) => *code,
        }
    }
}

} // verus!
