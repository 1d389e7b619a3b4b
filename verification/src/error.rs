use vstd::prelude::*;

verus! {

/// Error taxonomy of the fee library.
///
/// `RpcError` covers every chain-query failure (base-fee lookup,
/// prioritization-fee lookup, a real account-lookup failure, a mint fetch).
/// `InvalidTransaction` covers structurally invalid input detected while
/// decoding, such as mint bytes that do not form a valid mint record or
/// account indices that point outside the account-key list.
/// `OracleError` covers a price lookup that exhausted its retry budget or
/// returned a non-positive price.
/// `InternalError` covers internal-consistency failures, such as a fee sum
/// that would not fit in 64 bits.
#[derive(Debug, Clone, PartialEq, Eq)]
pub enum KoraError {
    RpcError(String),
    InvalidTransaction(String),
    OracleError(String),
    InternalError(String),
}

impl KoraError {
    /// The human-readable context carried by the error.
    pub fn message(&self) -> (r: &str)
        ensures
            r@ == match *self {
                KoraError::RpcError(ref m) => m@,
                KoraError::InvalidTransaction(ref m) => m@,
                KoraError::OracleError(ref m) => m@,
                KoraError::InternalError(ref m) => m@,
            },
    {
        match self {
            KoraError::RpcError(m) => m.as_str(),
            KoraError::InvalidTransaction(m) => m.as_str(),
            KoraError::OracleError(m) => m.as_str(),
            KoraError::InternalError(m) => m.as_str(),
        }
    }
}

} // verus!
