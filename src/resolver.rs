//! The call fee resolver: routes an operation to its specific fee category.
use std::collections::HashMap;
use vstd::prelude::*;

use crate::category::{
    lemma_pair_key_injective, pair_key, spec_pair_key, FeeCategory, CALL_TRANSFER,
    MODULE_GENERIC_ASSET,
};
use crate::error::FeeError;
use crate::registry::{spec_amount_of, FeeRegistry};

verus! {

broadcast use vstd::std_specs::hash::group_hash_axioms;

/// The identity of an operation: the module it calls and the method within it.
#[derive(Clone, Copy, Debug, PartialEq, Eq, Structural)]
pub struct CallId {
    pub module: u32,
    pub method: u32,
}

impl CallId {
    /// The key under which the operation is routed.
    pub open spec fn spec_key(self) -> u64 {
        spec_pair_key(self.module, self.method)
    }

    /// A generic asset transfer, as a value of the model.
    pub open spec fn spec_transfer() -> Self {
        CallId { module: MODULE_GENERIC_ASSET, method: CALL_TRANSFER }
    }

    /// A generic asset transfer.
    pub fn transfer() -> (r: Self)
        ensures
            r == Self::spec_transfer(),
    {
        CallId { module: MODULE_GENERIC_ASSET, method: CALL_TRANSFER }
    }
}

/// Two operations share a key exactly when they are the same operation.
proof fn lemma_call_key_injective(a: CallId, b: CallId)
    ensures
        a.spec_key() == b.spec_key() <==> a == b,
{
    lemma_pair_key_injective(a.module, a.method, b.module, b.method);
}

/// The specific fee of `call`: zero where it has no route, the registry's
/// amount of its category where it has one, and an error where that
/// category has no amount.
pub open spec fn spec_call_fee(
    routes: Map<CallId, FeeCategory>,
    reg: Map<FeeCategory, u128>,
    call: CallId,
) -> Result<u128, FeeError> {
    if !routes.contains_key(call) {
        Ok(0)
    } else {
        match spec_amount_of(reg, routes[call]) {
            Some(amount) => Ok(amount),
            None => Err(FeeError::MissingRegistryEntry(routes[call])),
        }
    }
}

/// A routing table from operation to fee category.
pub struct CallFeeResolver {
    routes: HashMap<u64, FeeCategory>,
}

impl View for CallFeeResolver {
    type V = Map<CallId, FeeCategory>;

    closed spec fn view(&self) -> Map<CallId, FeeCategory> {
        Map::new(
            |c: CallId| self.routes@.contains_key(c.spec_key()),
            |c: CallId| self.routes@[c.spec_key()],
        )
    }
}

impl CallFeeResolver {
    /// A resolver with no routes: every operation's specific fee is zero.
    pub fn new() -> (r: Self)
        ensures
            r@ == Map::<CallId, FeeCategory>::empty(),
    {
        let r = CallFeeResolver { routes: HashMap::new() };
        assert(r@ =~= Map::<CallId, FeeCategory>::empty());
        r
    }

    /// The routes of the runtime: a generic asset transfer pays the transfer fee.
    pub fn runtime() -> (r: Self)
        ensures
            r@ == Map::<CallId, FeeCategory>::empty().insert(
                CallId::spec_transfer(),
                FeeCategory::spec_transfer(),
            ),
    {
        let mut r = CallFeeResolver::new();
        r.route(CallId::transfer(), FeeCategory::transfer());
        r
    }

    /// Routes `call` to `category`, replacing any earlier route of `call`.
    pub fn route(&mut self, call: CallId, category: FeeCategory)
        ensures
            final(self)@ == old(self)@.insert(call, category),
    {
        let k = pair_key(call.module, call.method);
        self.routes.insert(k, category);
        proof {
            assert forall|d: CallId| d.spec_key() == k implies d == call by {
                lemma_call_key_injective(d, call);
            }
        }
        assert(final(self)@ =~= old(self)@.insert(call, category));
    }

    /// The category that `call` is routed to, if any.
    pub fn category_of(&self, call: CallId) -> (r: Option<FeeCategory>)
        ensures
            r == (if self@.contains_key(call) {
                Some(self@[call])
            } else {
                None
            }),
    {
        let k = pair_key(call.module, call.method);
        match self.routes.get(&k) {
            Some(c) => Some(*c),
            None => None,
        }
    }

    /// The specific fee of `call`, read from `registry` at the time of the call.
    pub fn resolve(&self, registry: &FeeRegistry, call: CallId) -> (r: Result<u128, FeeError>)
        ensures
            r == spec_call_fee(self@, registry@, call),
    {
        match self.category_of(call) {
            None => Ok(0),
            Some(category) => match registry.amount_of(category) {
                Some(amount) => Ok(amount),
                None => Err(FeeError::MissingRegistryEntry(category)),
            },
        }
    }
}

} // verus!
