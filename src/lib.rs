//! Assessment and settlement of the fee charged for every extrinsic.
//!
//! A fee is the sum of a flat base fee, a per-byte fee times the encoded
//! length, and an operation-specific fee routed by (module, method).
//! Every step is overflow-checked and the payer is debited atomically.

pub mod category;
pub mod chain_spec;
pub mod charger;
pub mod error;
pub mod laws;
pub mod ledger;
pub mod registry;
pub mod resolver;

pub use category::{
    pair_key, FeeCategory, CALL_TRANSFER, FEE_BASE, FEE_BYTES, FEE_TRANSFER, MODULE_GENERIC_ASSET,
    NAMESPACE_FEES, NAMESPACE_GENERIC_ASSET,
};
pub use chain_spec::{testnet_fee_registry, Alternative};
pub use charger::ExtrinsicFeeCharger;
pub use error::{FeeError, OverflowTerm};
pub use ledger::Balances;
pub use registry::FeeRegistry;
pub use resolver::{CallFeeResolver, CallId};
