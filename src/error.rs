//! Why a fee could not be assessed or settled.
use vstd::prelude::*;

use crate::category::FeeCategory;

verus! {

/// The term of the fee whose checked arithmetic left the balance range.
#[derive(Clone, Copy, Debug, PartialEq, Eq, Structural)]
pub enum OverflowTerm {
    /// The per-byte rate times the encoded length.
    Bytes,
    /// The base fee plus the bytes fee.
    BaseBytes,
    /// The base fee plus the bytes fee plus the call fee.
    BaseBytesCall,
}

/// An error of fee assessment or settlement.
#[derive(Clone, Copy, Debug, PartialEq, Eq, Structural)]
pub enum FeeError {
    /// A checked arithmetic step overflowed.
    Overflow(OverflowTerm),
    /// The payer's balance is below the total fee.
    InsufficientBalance,
    /// A category that was needed has no amount in the registry.
    MissingRegistryEntry(FeeCategory),
}

} // verus!
