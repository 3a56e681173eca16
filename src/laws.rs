//! Laws of fee assessment and settlement, stated over the model.
use vstd::prelude::*;

use crate::category::FeeCategory;
use crate::charger::{spec_charge, spec_total_fee};
use crate::error::{FeeError, OverflowTerm};
use crate::ledger::spec_balance_of;
use crate::registry::spec_is_configured;
use crate::resolver::{spec_call_fee, CallId};

verus! {

/// An operation without a route is charged exactly base + rate * len when
/// that fits in a balance and the payer can afford it, and nothing otherwise.
pub proof fn lemma_unrouted_charge(
    balances: Map<u64, u128>,
    reg: Map<FeeCategory, u128>,
    routes: Map<CallId, FeeCategory>,
    who: u64,
    len: nat,
    call: CallId,
)
    requires
        spec_is_configured(reg),
        !routes.contains_key(call),
    ensures
        ({
            let fee = reg[FeeCategory::spec_base()] + reg[FeeCategory::spec_bytes()] * len;
            let balance = spec_balance_of(balances, who);
            let (res, after) = spec_charge(balances, reg, routes, who, len, call);
            &&& fee <= u128::MAX && balance >= fee ==> res == Ok::<(), FeeError>(()) && after
                == balances.insert(who, (balance - fee) as u128)
            &&& !(fee <= u128::MAX && balance >= fee) ==> res is Err && after == balances
        }),
{
}

/// An operation routed to a configured category with amount `c` is charged
/// exactly base + rate * len + c when that fits and the payer can afford it,
/// and nothing otherwise.
pub proof fn lemma_routed_charge(
    balances: Map<u64, u128>,
    reg: Map<FeeCategory, u128>,
    routes: Map<CallId, FeeCategory>,
    who: u64,
    len: nat,
    call: CallId,
)
    requires
        spec_is_configured(reg),
        routes.contains_key(call),
        reg.contains_key(routes[call]),
    ensures
        ({
            let fee = reg[FeeCategory::spec_base()] + reg[FeeCategory::spec_bytes()] * len
                + reg[routes[call]];
            let balance = spec_balance_of(balances, who);
            let (res, after) = spec_charge(balances, reg, routes, who, len, call);
            &&& fee <= u128::MAX && balance >= fee ==> res == Ok::<(), FeeError>(()) && after
                == balances.insert(who, (balance - fee) as u128)
            &&& !(fee <= u128::MAX && balance >= fee) ==> res is Err && after == balances
        }),
{
}

/// The specific fee of an operation without a route is zero, never an error.
pub proof fn lemma_unrouted_call_fee_is_zero(
    routes: Map<CallId, FeeCategory>,
    reg: Map<FeeCategory, u128>,
    call: CallId,
)
    requires
        !routes.contains_key(call),
    ensures
        spec_call_fee(routes, reg, call) == Ok::<u128, FeeError>(0),
{
}

/// The total fee depends only on the registry snapshot, the routes, the
/// length and the operation: two computations on the same inputs agree.
pub proof fn lemma_total_fee_deterministic(
    reg1: Map<FeeCategory, u128>,
    reg2: Map<FeeCategory, u128>,
    routes1: Map<CallId, FeeCategory>,
    routes2: Map<CallId, FeeCategory>,
    len: nat,
    call: CallId,
)
    requires
        reg1 == reg2,
        routes1 == routes2,
    ensures
        spec_total_fee(reg1, routes1, len, call) == spec_total_fee(reg2, routes2, len, call),
{
}

/// When a term of the fee leaves the balance range, the charge fails with
/// the overflow of that term and debits nothing.
pub proof fn lemma_overflow_fails_without_debit(
    balances: Map<u64, u128>,
    reg: Map<FeeCategory, u128>,
    routes: Map<CallId, FeeCategory>,
    who: u64,
    len: nat,
    call: CallId,
)
    requires
        spec_is_configured(reg),
        spec_call_fee(routes, reg, call) is Ok,
    ensures
        ({
            let b = reg[FeeCategory::spec_base()];
            let r = reg[FeeCategory::spec_bytes()];
            let c = spec_call_fee(routes, reg, call)->Ok_0;
            let (res, after) = spec_charge(balances, reg, routes, who, len, call);
            &&& r * len > u128::MAX ==> res == Err::<(), FeeError>(
                FeeError::Overflow(OverflowTerm::Bytes),
            ) && after == balances
            &&& r * len <= u128::MAX && b + r * len > u128::MAX ==> res == Err::<(), FeeError>(
                FeeError::Overflow(OverflowTerm::BaseBytes),
            ) && after == balances
            &&& b + r * len <= u128::MAX && b + r * len + c > u128::MAX ==> res == Err::<
                (),
                FeeError,
            >(FeeError::Overflow(OverflowTerm::BaseBytesCall)) && after == balances
        }),
{
}

/// A failed charge, for want of balance or any other reason, leaves every
/// balance as it was.
pub proof fn lemma_failed_charge_changes_nothing(
    balances: Map<u64, u128>,
    reg: Map<FeeCategory, u128>,
    routes: Map<CallId, FeeCategory>,
    who: u64,
    len: nat,
    call: CallId,
)
    ensures
        ({
            let (res, after) = spec_charge(balances, reg, routes, who, len, call);
            res is Err ==> after == balances && spec_balance_of(after, who) == spec_balance_of(
                balances,
                who,
            )
        }),
{
}

} // verus!
