//! The extrinsic fee charger: computes the total fee and settles it.
use vstd::prelude::*;

use crate::category::FeeCategory;
use crate::error::{FeeError, OverflowTerm};
use crate::ledger::{spec_balance_of, Balances};
use crate::registry::{spec_amount_of, FeeRegistry};
use crate::resolver::{spec_call_fee, CallFeeResolver, CallId};

verus! {

/// The total fee of an operation of encoded length `len`:
/// base + bytes rate * len + the call's specific fee, each step checked.
/// The steps run in this order and the first failure is the result:
/// read the bytes rate, multiply, resolve the call fee, read the base fee,
/// add the bytes fee, add the call fee.
pub open spec fn spec_total_fee(
    reg: Map<FeeCategory, u128>,
    routes: Map<CallId, FeeCategory>,
    len: nat,
    call: CallId,
) -> Result<u128, FeeError> {
    match spec_amount_of(reg, FeeCategory::spec_bytes()) {
        None => Err(FeeError::MissingRegistryEntry(FeeCategory::spec_bytes())),
        Some(rate) => if rate * len > u128::MAX {
            Err(FeeError::Overflow(OverflowTerm::Bytes))
        } else {
            match spec_call_fee(routes, reg, call) {
                Err(e) => Err(e),
                Ok(call_fee) => match spec_amount_of(reg, FeeCategory::spec_base()) {
                    None => Err(FeeError::MissingRegistryEntry(FeeCategory::spec_base())),
                    Some(base) => if base + rate * len > u128::MAX {
                        Err(FeeError::Overflow(OverflowTerm::BaseBytes))
                    } else if base + rate * len + call_fee > u128::MAX {
                        Err(FeeError::Overflow(OverflowTerm::BaseBytesCall))
                    } else {
                        Ok((base + rate * len + call_fee) as u128)
                    },
                },
            }
        },
    }
}

/// The outcome of charging `who` for an operation, and the balances after it:
/// on success exactly the total fee leaves `who`; on any failure nothing changes.
pub open spec fn spec_charge(
    balances: Map<u64, u128>,
    reg: Map<FeeCategory, u128>,
    routes: Map<CallId, FeeCategory>,
    who: u64,
    len: nat,
    call: CallId,
) -> (Result<(), FeeError>, Map<u64, u128>) {
    match spec_total_fee(reg, routes, len, call) {
        Err(e) => (Err(e), balances),
        Ok(total) => if spec_balance_of(balances, who) >= total {
            (Ok(()), balances.insert(who, (spec_balance_of(balances, who) - total) as u128))
        } else {
            (Err(FeeError::InsufficientBalance), balances)
        },
    }
}

/// Does the fee calculation and payment for extrinsics.
pub struct ExtrinsicFeeCharger;

impl ExtrinsicFeeCharger {
    /// The total fee of `call` with encoded length `encoded_len`, from the
    /// registry's current amounts.
    pub fn total_fee(
        registry: &FeeRegistry,
        resolver: &CallFeeResolver,
        encoded_len: usize,
        call: CallId,
    ) -> (r: Result<u128, FeeError>)
        ensures
            r == spec_total_fee(registry@, resolver@, encoded_len as nat, call),
    {
        let rate = match registry.amount_of(FeeCategory::bytes()) {
            Some(rate) => rate,
            None => return Err(FeeError::MissingRegistryEntry(FeeCategory::bytes())),
        };
        let bytes_fee = match rate.checked_mul(encoded_len as u128) {
            Some(f) => f,
            None => return Err(FeeError::Overflow(OverflowTerm::Bytes)),
        };
        let call_fee = match resolver.resolve(registry, call) {
            Ok(f) => f,
            Err(e) => return Err(e),
        };
        let base = match registry.amount_of(FeeCategory::base()) {
            Some(base) => base,
            None => return Err(FeeError::MissingRegistryEntry(FeeCategory::base())),
        };
        let base_bytes = match base.checked_add(bytes_fee) {
            Some(s) => s,
            None => return Err(FeeError::Overflow(OverflowTerm::BaseBytes)),
        };
        match base_bytes.checked_add(call_fee) {
            Some(total) => Ok(total),
            None => Err(FeeError::Overflow(OverflowTerm::BaseBytesCall)),
        }
    }

    /// Calculates the fee of `call` and charges it to `transactor`: the whole
    /// total is debited, or nothing is and the reason is returned.
    pub fn charge_extrinsic_fee(
        registry: &FeeRegistry,
        resolver: &CallFeeResolver,
        balances: &mut Balances,
        transactor: u64,
        encoded_len: usize,
        call: CallId,
    ) -> (r: Result<(), FeeError>)
        ensures
            (r, final(balances)@) == spec_charge(
                old(balances)@,
                registry@,
                resolver@,
                transactor,
                encoded_len as nat,
                call,
            ),
    {
        let total = match Self::total_fee(registry, resolver, encoded_len, call) {
            Ok(t) => t,
            Err(e) => return Err(e),
        };
        balances.debit(transactor, total)
    }
}

} // verus!
