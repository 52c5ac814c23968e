//! Why an operation was refused.

use vstd::prelude::*;
use crate::ledger::LedgerError;

verus! {

/// A rule of the share market or of a dividend round that a request broke.
#[derive(Clone, Copy, Debug, PartialEq, Eq, Structural)]
pub enum RwaError {
    /// The asset has fewer shares left to sell than were asked for.
    InsufficientFloat,
    /// A dividend entitlement cannot be computed: the round records no
    /// circulating supply, or the entitlement exceeds `u64::MAX`.
    MathOverflow,
    /// The dividend round is closed.
    DividendClosed,
}

/// A rule of the asset registry that a request broke.
#[derive(Clone, Copy, Debug, PartialEq, Eq, Structural)]
pub enum ErrorCode {
    /// The free float would exceed the total supply.
    InvalidFreeFloat,
}

/// Why the engine refused an operation. Whatever the reason, the engine is
/// left as it was before the call.
#[derive(Clone, Copy, Debug, PartialEq, Eq, Structural)]
pub enum EngineError {
    /// A rule of the market or of a dividend round was broken.
    Market(RwaError),
    /// A rule of the registry was broken.
    Registry(ErrorCode),
    /// The token ledger refused a transfer, a mint or a burn.
    Ledger(LedgerError),
    /// The caller is not the registered issuer of the asset.
    Unauthorized,
    /// No asset or dividend round is stored under the key given for it.
    AccountNotFound,
    /// An account that came with the request is not the one the operation
    /// needs: it belongs to another asset, holds another token, has another
    /// owner, or does not lie at its derived address.
    ConstraintViolated,
    /// The record to create exists already.
    AlreadyExists,
    /// No address can be derived for the record to create.
    AddressUnavailable,
    /// Checked arithmetic on a trade overflowed. The operation is abandoned
    /// as a whole; a caller should treat this as fatal, not as a rejection.
    FatalAbort,
}

/// Whether `r` is the error `e`.
pub open spec fn fails_with<T>(r: Result<T, EngineError>, e: EngineError) -> bool {
    r == Err::<T, EngineError>(e)
}

impl RwaError {
    /// A short description of the error.
    pub fn message(&self) -> (s: &'static str)
        ensures
            s@ == (match *self {
                RwaError::InsufficientFloat => "Not enough free float"@,
                RwaError::MathOverflow => "Math overflow"@,
                RwaError::DividendClosed => "Dividend is closed"@,
            }),
    {
        match self {
            RwaError::InsufficientFloat => "Not enough free float",
            RwaError::MathOverflow => "Math overflow",
            RwaError::DividendClosed => "Dividend is closed",
        }
    }
}

impl ErrorCode {
    /// A short description of the error.
    pub fn message(&self) -> (s: &'static str)
        ensures
            s@ == "Invalid free float amount"@,
    {
        "Invalid free float amount"
    }
}

} // verus!
